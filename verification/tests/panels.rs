use nexus_controller::bms::{
    add_field_mapping, command_query, command_source_label, connection_test_command, connection_test_outcome, default_bms_config,
    parse_test_latency, ping_statistics, recent_commands, recent_pings, BmsLink, TestProtocol,
};
use nexus_controller::firmware::{firmware_update_command, CommandOutcome, FirmwareManager, FirmwareTask};
use nexus_controller::io_control::{IOControlPanel, PinAction, TempControlMode, ADMIN_PIN};
use nexus_controller::metrics::{
    channel_key, default_channels, default_chart_settings, point_age_minutes, trend_channel, trend_point_count,
};
use nexus_controller::refrigerant::{push_bounded, transducer_not_configured, unknown_refrigerant, MAX_HISTORY};

#[test]
fn triac_changes_wait_for_apply() {
    let mut p = IOControlPanel::new();
    assert_eq!(p.triacs(), &vec![0, 0, 0, 0]);
    assert!(!p.has_triac_changes());
    p.set_pending_triac(1, 50);
    assert!(p.has_triac_changes());
    assert_eq!(p.triacs(), &vec![0, 0, 0, 0]);
    let cmds = p.triac_commands();
    assert_eq!(cmds[1], vec!["0", "triac", "2", "50"]);
    assert_eq!(cmds[3], vec!["0", "triac", "4", "0"]);
    p.apply_triac_changes();
    assert!(!p.has_triac_changes());
    assert_eq!(p.triacs(), &vec![0, 50, 0, 0]);
    p.set_pending_triac(0, 10);
    p.cancel_triac_changes();
    assert_eq!(p.pending_triacs(), &vec![0, 50, 0, 0]);
}

#[test]
fn relay_boards_are_added_once() {
    let mut p = IOControlPanel::new();
    assert!(p.relay_board_8().is_none());
    p.toggle_pending_relay_8(0);
    assert!(p.pending_relay_8().is_none());
    p.enable_8_relay_board();
    assert_eq!(p.relay_board_8(), &Some(vec![false; 8]));
    p.toggle_pending_relay_8(3);
    p.enable_8_relay_board();
    assert_eq!(p.pending_relay_8().as_ref().unwrap()[3], true);
    p.toggle_pending_relay_8(3);
    assert_eq!(p.pending_relay_8(), &Some(vec![false; 8]));
    p.enable_16_relay_board();
    p.toggle_pending_relay_16(15);
    assert_eq!(p.pending_relay_16().as_ref().unwrap()[15], true);
    assert_eq!(p.relay_board_16(), &Some(vec![false; 16]));
}

#[test]
fn pin_guards_the_lock() {
    let mut p = IOControlPanel::new();
    p.request_lock_toggle();
    assert_eq!(p.pin_dialog_state(), (true, PinAction::Lock));
    assert!(!p.confirm_pin("1234"));
    assert!(!p.temp_control_locked());
    assert_eq!(p.pin_dialog_state(), (true, PinAction::Lock));
    assert!(p.confirm_pin(ADMIN_PIN));
    assert!(p.temp_control_locked());
    assert_eq!(p.locked_by(), "Admin");
    assert_eq!(p.pin_dialog_state().0, false);
    p.request_lock_toggle();
    assert_eq!(p.pin_dialog_state(), (true, PinAction::Unlock));
    p.cancel_pin();
    assert!(p.temp_control_locked());
    // with the dialog closed, even the right PIN changes nothing
    assert!(!p.confirm_pin(ADMIN_PIN));
    assert!(p.temp_control_locked());
    assert_eq!(p.locked_by(), "Admin");
    p.request_lock_toggle();
    assert!(p.confirm_pin("Invertedskynet2$"));
    assert!(!p.temp_control_locked());
    assert_eq!(p.locked_by(), "");
    p.set_temp_control(true, TempControlMode::SupplyAir);
    assert_eq!(p.temp_control_state(), (true, TempControlMode::SupplyAir));
}

#[test]
fn bms_connection_tests_are_recorded() {
    let mut l = BmsLink::new();
    l.record_connection_test(false, 0, 10, true);
    l.record_connection_test(false, 0, 20, true);
    assert_eq!(l.connection_status().retry_count, 2);
    assert_eq!(l.connection_status().command_source, "local");
    assert_eq!(l.connection_status().last_error, Some("Connection timeout".to_string()));
    l.record_connection_test(true, 35, 30, true);
    let s = l.connection_status();
    assert!(s.connected);
    assert_eq!((s.retry_count, s.latency_ms, s.last_successful_query), (0, 35, Some(30)));
    assert_eq!(s.command_source, "bms");
    l.record_connection_test(false, 0, 40, false);
    assert_eq!(l.connection_status().command_source, "bms");
    assert_eq!(l.connection_status().retry_count, 1);
    for t in 0..200 {
        l.record_connection_test(true, 1, 100 + t, true);
    }
    assert_eq!(l.ping_history().len(), 100);
    assert_eq!(l.ping_history()[99], (299, true, 1));
}

#[test]
fn bms_settings_and_commands() {
    let mut c = default_bms_config();
    assert_eq!(c.location_id, "9");
    assert_eq!(
        command_query(&c),
        "SELECT * FROM \"ProcessingEngineCommands\"\nWHERE equipment_id = 'WAg6mWpJneM2zLMDu11b'\nAND location_id = '9'\nAND time >= now() - INTERVAL '5 minutes'\nORDER BY time DESC\nLIMIT 35"
    );
    assert_eq!(parse_test_latency(" 12\n"), 12);
    assert_eq!(parse_test_latency("n/a"), 999);
    assert!(recent_commands(&c, true, 1000).is_none());
    c.enabled = true;
    assert!(recent_commands(&c, false, 1000).is_none());
    let v = recent_commands(&c, true, 1000).unwrap();
    assert_eq!(v.len(), 3);
    assert_eq!(v[1].command_type, "FanSpeed");
    assert_eq!(v[1].timestamp, 700);
    assert_eq!(v[2].priority, 7);
}

#[test]
fn firmware_batches() {
    let mut m = FirmwareManager::new(100);
    m.set_batch_operation("clone_all");
    let t = m.batch_tasks();
    assert!(matches!(t.as_slice(), [FirmwareTask::Clone(2), FirmwareTask::Clone(3)]));
    m.set_batch_operation("install_all");
    assert!(matches!(m.batch_tasks().as_slice(), [FirmwareTask::Install(0), FirmwareTask::Install(1)]));
    m.set_batch_operation("firmware_all");
    let t = m.batch_tasks();
    assert_eq!(t.len(), 2);
    assert!(matches!(&t[1], FirmwareTask::UpdateFirmware { repo_name, stack_level: 1 } if repo_name == "megaind"));
    m.set_batch_operation("nothing");
    assert!(m.batch_tasks().is_empty());
    assert_eq!(firmware_update_command("16relind", 3), Some("16relind 3 update".to_string()));
    assert_eq!(firmware_update_command("megaio", 3), None);
}

#[test]
fn firmware_operations_update_status_lines() {
    let mut m = FirmwareManager::new(100);
    m.begin_operation(2, 0);
    assert_eq!(m.operation_status(), &vec![("16relind".to_string(), "Cloning repository...".to_string())]);
    m.finish_clone(2, CommandOutcome::Succeeded, 500);
    assert!(m.get_repos()[2].is_cloned);
    assert_eq!(m.get_repos()[2].last_updated, Some(500));
    assert_eq!(m.operation_status(), &vec![("16relind".to_string(), "Successfully cloned!".to_string())]);
    m.finish_install(0, CommandOutcome::Failed("make: error".to_string()));
    m.finish_pull(1, CommandOutcome::CouldNotRun("no git".to_string()), None, 600);
    assert_eq!(m.operation_status()[1], ("megabas".to_string(), "Install failed: make: error".to_string()));
    assert_eq!(m.operation_status()[2], ("megaind".to_string(), "Pull error: no git".to_string()));
    m.finish_pull(0, CommandOutcome::Succeeded, Some("abc1234\n".to_string()), 700);
    assert_eq!(m.get_repos()[0].last_commit, "abc1234");
    assert_eq!(m.get_repos()[0].last_updated, Some(700));
    m.record_refresh(3, false, Some("zzz".to_string()), Some(5));
    assert!(!m.get_repos()[3].is_cloned);
    assert_eq!(m.get_repos()[3].last_commit, "");
    m.finish_clone(9, CommandOutcome::Succeeded, 1);
    assert_eq!(m.operation_status().len(), 3);
}

#[test]
fn chart_defaults() {
    let c = default_channels();
    assert_eq!(c.len(), 5);
    assert_eq!(channel_key(&c[0]), "universal_input:0");
    assert_eq!(channel_key(&c[4]), "analog_output:1");
    assert_eq!(c[3].units, Some("%".to_string()));
    let s = default_chart_settings();
    assert_eq!(s.selected_channel, Some("universal_input:0".to_string()));
    assert_eq!(s.selected_hours, 24);
}

#[test]
fn diagnosis_history_is_bounded() {
    let mut h: Vec<u32> = vec![1, 2, 3];
    push_bounded(&mut h, 4, 3);
    assert_eq!(h, vec![2, 3, 4]);
    push_bounded(&mut h, 5, 10);
    assert_eq!(h, vec![2, 3, 4, 5]);
    assert_eq!(MAX_HISTORY, 1000);
    assert_eq!(transducer_not_configured(3), "Transducer on channel 3 not configured");
    assert_eq!(unknown_refrigerant("R-22"), "Unknown refrigerant: R-22");
}

#[test]
fn analog_changes_apply_together_with_triacs() {
    let mut p = IOControlPanel::new();
    assert!(!p.has_pending_changes());
    p.set_pending_analog(2, 500);
    p.set_pending_triac(0, 30);
    assert!(p.has_pending_changes());
    assert_eq!(p.analog_outputs(), &vec![0, 0, 0, 0]);
    p.cancel_changes();
    assert_eq!(p.pending_analog_outputs(), &vec![0, 0, 0, 0]);
    assert_eq!(p.pending_triacs(), &vec![30, 0, 0, 0]);
    assert!(!p.has_pending_changes());
    p.set_pending_analog(1, 250);
    p.apply_changes();
    assert_eq!(p.analog_outputs(), &vec![0, 250, 0, 0]);
    assert_eq!(p.triacs(), &vec![30, 0, 0, 0]);
    assert!(!p.has_pending_changes());
}

#[test]
fn small_analog_differences_are_not_pending() {
    let mut p = IOControlPanel::new();
    p.set_pending_analog(0, 1);
    p.cancel_changes();
    p.refresh_pending_changes();
    assert!(!p.has_pending_changes());
    p.set_pending_analog(0, 1);
    p.apply_changes();
    p.set_pending_analog(0, 2);
    p.cancel_changes();
    p.refresh_pending_changes();
    assert!(!p.has_pending_changes());
}

#[test]
fn trend_point_spacing() {
    assert_eq!(trend_point_count(0), 0);
    assert_eq!(trend_point_count(1), 12);
    assert_eq!(trend_point_count(24), 288);
    assert_eq!(trend_point_count(42), 500);
    assert_eq!(trend_point_count(168), 500);
    assert_eq!(point_age_minutes(12, 0), 55);
    assert_eq!(point_age_minutes(12, 11), 0);
}

#[test]
fn trend_of_the_selected_channel() {
    let channels = default_channels();
    let (name, units) = trend_channel(&channels, &Some("analog_output:1".to_string()));
    assert_eq!(name, "Heating Valve");
    assert_eq!(units.as_deref(), Some("%"));
    let (name, units) = trend_channel(&channels, &Some("analog_output:7".to_string()));
    assert_eq!(name, "Unknown");
    assert_eq!(units, None);
    let (name, _) = trend_channel(&channels, &None);
    assert_eq!(name, "Unknown");
}

#[test]
fn connection_statistics_over_the_ping_history() {
    let mut link = BmsLink::new();
    let empty = ping_statistics(link.ping_history());
    assert_eq!((empty.total, empty.successful, empty.latency_sum), (0, 0, 0));
    link.record_connection_test(true, 40, 100, true);
    link.record_connection_test(false, 0, 130, true);
    link.record_connection_test(true, 60, 160, true);
    let s = ping_statistics(link.ping_history());
    assert_eq!(s.total, 3);
    assert_eq!(s.successful, 2);
    assert_eq!(s.latency_sum, 100);
    let newest = recent_pings(link.ping_history(), 2);
    assert_eq!(newest, vec![(160, true, 60), (130, false, 0)]);
    assert_eq!(recent_pings(link.ping_history(), 10).len(), 3);
    assert_eq!(command_source_label("bms"), "BMS Server");
    assert_eq!(command_source_label("local"), "Local Logic Files");
}

#[test]
fn connection_test_commands_and_outcomes() {
    assert_eq!(
        connection_test_command(TestProtocol::Modbus, "10.0.0.9", 502),
        Some(vec!["python3".to_string(), "/opt/nexus/modbus_test.py".to_string(), "10.0.0.9".to_string(), "502".to_string()])
    );
    assert_eq!(
        connection_test_command(TestProtocol::BACnet, "10.0.0.9", 47808),
        Some(vec!["bacnet-discover".to_string(), "10.0.0.9".to_string()])
    );
    assert_eq!(connection_test_command(TestProtocol::Other, "10.0.0.9", 1), None);
    assert_eq!(connection_test_outcome(TestProtocol::Modbus, Some(" 42\n".to_string())), (true, 42));
    assert_eq!(connection_test_outcome(TestProtocol::Modbus, Some("timeout".to_string())), (true, 999));
    assert_eq!(connection_test_outcome(TestProtocol::BACnet, Some(String::new())), (true, 100));
    assert_eq!(connection_test_outcome(TestProtocol::Other, Some(String::new())), (false, 0));
    assert_eq!(connection_test_outcome(TestProtocol::Modbus, None), (false, 0));
}

#[test]
fn field_mappings_replace_by_field() {
    let mut c = default_bms_config();
    assert!(!add_field_mapping(&mut c, "", "ui_1"));
    assert!(!add_field_mapping(&mut c, "SupplyTemp", ""));
    assert!(c.field_mappings.is_empty());
    assert!(add_field_mapping(&mut c, "SupplyTemp", "ui_1"));
    assert!(add_field_mapping(&mut c, "ReturnTemp", "ui_2"));
    assert!(add_field_mapping(&mut c, "SupplyTemp", "ui_3"));
    assert_eq!(
        c.field_mappings,
        vec![("SupplyTemp".to_string(), "ui_3".to_string()), ("ReturnTemp".to_string(), "ui_2".to_string())]
    );
    assert_eq!(c.equipment_id, "WAg6mWpJneM2zLMDu11b");
}

#[test]
fn editing_an_input_name() {
    let mut p = IOControlPanel::new();
    assert_eq!(p.input_names()[0], "Input 1");
    assert_eq!(p.input_names()[7], "Input 8");
    p.begin_name_edit(2);
    p.set_editing_name("Mixed Air");
    p.commit_name_edit();
    assert_eq!(p.input_names()[2], "Mixed Air");
    p.begin_name_edit(3);
    p.set_editing_name("Discarded");
    p.cancel_name_edit();
    assert_eq!(p.input_names()[3], "Input 4");
    p.commit_name_edit();
    assert_eq!(p.input_names()[3], "Input 4");
    p.begin_name_edit(9);
    p.commit_name_edit();
    assert_eq!(p.input_names().len(), 8);
}

#[test]
fn firmware_counts_and_boards_per_family() {
    let mut m = FirmwareManager::new(100);
    assert_eq!(m.cloned_count(), 2);
    m.finish_clone(3, CommandOutcome::Succeeded, 200);
    assert_eq!(m.cloned_count(), 3);
    let megaind = m.connected_boards("megaind");
    assert_eq!(megaind.len(), 1);
    assert_eq!(megaind[0].stack_level, 1);
    assert!(megaind[0].needs_update);
    assert!(m.connected_boards("16relind").is_empty());
}

#[test]
fn analog_output_commands_in_volts() {
    let mut p = IOControlPanel::new();
    p.set_pending_analog(0, 250);
    p.set_pending_analog(1, 1000);
    p.set_pending_analog(2, 123);
    p.set_pending_analog(3, 1);
    let c = p.analog_commands();
    assert_eq!(c[0], vec!["0", "aout", "1", "2.50"]);
    assert_eq!(c[1], vec!["0", "aout", "2", "10.00"]);
    assert_eq!(c[2], vec!["0", "aout", "3", "1.23"]);
    assert_eq!(c[3], vec!["0", "aout", "4", "0.01"]);
}

#[test]
fn firmware_batch_runs_only_after_confirmation() {
    let mut m = FirmwareManager::new(100);
    assert!(m.confirm_batch().is_empty());
    m.set_batch_operation("clone_all");
    assert_eq!(m.batch_confirm_question(), "Are you sure you want to Clone all missing repositories?");
    m.cancel_batch();
    assert!(m.confirm_batch().is_empty());
    m.set_batch_operation("firmware_all");
    assert_eq!(m.batch_confirm_question(), "Are you sure you want to Update firmware on all connected boards?");
    assert_eq!(m.confirm_batch().len(), 2);
    assert!(m.confirm_batch().is_empty());
}
