use nexus_controller::board_config::{
    board_state_sql, channel_edit_defaults, channel_kind, create_default_config, init_analog_outputs,
    init_relay_outputs, init_triac_outputs, init_universal_inputs, ChannelKind,
};

#[test]
fn default_channels_of_the_megabas_board() {
    let inputs = init_universal_inputs();
    assert_eq!(inputs.len(), 8);
    assert_eq!(inputs[0].id, "ui_1");
    assert_eq!(inputs[0].name, "Supply Air Temp");
    assert_eq!(inputs[0].scaling_min, 3200);
    assert_eq!(inputs[0].scaling_max, 12200);
    assert_eq!(inputs[0].alarm_high, Some(8500));
    assert_eq!(inputs[3].units, "\"WC");
    assert_eq!(inputs[3].alarm_high, Some(150));
    assert_eq!(inputs[4].ct_scaling.as_deref(), Some("0-50A"));
    assert_eq!(inputs[4].manual_value, Some(1250));
    assert_eq!(inputs[5].manual_mode, Some(true));
    assert_eq!(inputs[5].manual_value, Some(9500));
    assert_eq!(inputs[7].manual_value, Some(100));

    let analog = init_analog_outputs();
    assert_eq!(analog.len(), 4);
    assert_eq!(analog[0].min_voltage, Some(2000));
    assert_eq!(analog[1].reverse_acting, Some(true));
    assert_eq!(analog[3].max_voltage, Some(10000));

    let relays = init_relay_outputs();
    assert_eq!(relays.len(), 4);
    assert_eq!(relays[0].normally_closed, Some(false));
    assert_eq!(relays[2].normally_closed, Some(true));

    let triacs = init_triac_outputs();
    assert_eq!(triacs.len(), 4);
    assert!(triacs[1].enabled);
    assert!(!triacs[2].enabled);
    assert_eq!(triacs[3].name, "UV Light");

    let config = create_default_config();
    assert_eq!(config.board_id, "megabas_0");
    assert_eq!(config.board_name, "MegaBAS Configuration");
    assert_eq!(config.location, "Mechanical Room A");
    assert_eq!(config.universal_inputs.len(), 8);
    assert_eq!(config.analog_outputs.len(), 4);
    assert_eq!(config.triac_outputs.len(), 4);
    // the MegaBAS has no relays
    assert!(config.relay_outputs.is_empty());
}

#[test]
fn channel_kinds_by_prefix() {
    assert_eq!(channel_kind("ui_3"), Some(ChannelKind::UniversalInput));
    assert_eq!(channel_kind("ao_1"), Some(ChannelKind::AnalogOutput));
    assert_eq!(channel_kind("ro_2"), Some(ChannelKind::Relay));
    assert_eq!(channel_kind("to_4"), Some(ChannelKind::Triac));
    assert_eq!(channel_kind("xx_1"), None);
    assert_eq!(channel_kind("ui"), None);
}

#[test]
fn edit_dialog_fills_in_defaults() {
    let mut ct = init_universal_inputs()[2].duplicate();
    ct.voltage_type = None;
    let edited = channel_edit_defaults(&ct);
    assert_eq!(edited.voltage_type.as_deref(), Some("generic"));
    assert_eq!(edited.ct_scaling, None);
    assert_eq!(edited.manual_mode, Some(false));

    ct.voltage_type = Some("ct".to_string());
    ct.ct_scaling = None;
    ct.manual_mode = Some(true);
    ct.manual_value = None;
    let edited = channel_edit_defaults(&ct);
    assert_eq!(edited.ct_scaling.as_deref(), Some("0-20A"));
    assert_eq!(edited.manual_value, Some(0));

    let mut out = init_analog_outputs()[0].duplicate();
    out.min_voltage = None;
    out.max_voltage = None;
    out.reverse_acting = None;
    let edited = channel_edit_defaults(&out);
    assert_eq!(edited.min_voltage, Some(0));
    assert_eq!(edited.max_voltage, Some(10000));
    assert_eq!(edited.reverse_acting, Some(false));
    assert_eq!(edited.manual_mode, None);

    let mut relay = init_relay_outputs()[3].duplicate();
    relay.normally_closed = None;
    assert_eq!(channel_edit_defaults(&relay).normally_closed, Some(false));

    let thermistor = init_universal_inputs()[0].duplicate();
    let edited = channel_edit_defaults(&thermistor);
    assert_eq!(edited.voltage_type, None);
    assert_eq!(edited.manual_value, Some(7200));
}

#[test]
fn saved_channel_replaces_its_namesake() {
    let mut config = create_default_config();
    let mut valve = config.analog_outputs[1].duplicate();
    valve.name = "Reheat Valve".to_string();
    valve.min_voltage = Some(1500);
    config.save_channel_edit(valve);
    assert_eq!(config.analog_outputs.len(), 4);
    assert_eq!(config.analog_outputs[1].name, "Reheat Valve");
    assert_eq!(config.analog_outputs[1].min_voltage, Some(1500));
    assert_eq!(config.analog_outputs[0].name, "Cooling Valve");
    assert_eq!(config.universal_inputs[1].name, "Return Air Temp");

    let mut stray = init_relay_outputs()[0].duplicate();
    stray.id = "ro_9".to_string();
    stray.name = "Nowhere".to_string();
    config.save_channel_edit(stray);
    assert!(config.relay_outputs.iter().all(|c| c.name != "Nowhere"));

    let mut unknown = config.triac_outputs[0].duplicate();
    unknown.id = "zz_1".to_string();
    unknown.name = "Unknown".to_string();
    config.save_channel_edit(unknown);
    assert_eq!(config.triac_outputs[0].name, "Stage Heat 1");
}

#[test]
fn board_state_statement_text() {
    assert_eq!(
        board_state_sql("megabas_0", "{}"),
        "INSERT OR REPLACE INTO board_states (board_id, state_json, updated_at) VALUES ('megabas_0', '{}', datetime('now'))"
    );
}
