use nexus_controller::boards::{
    board_id, channel_key, command_args, contact_of_output, contact_state, interface_path, parse_board_type,
    parse_channel_key, relay_states, relay_states_of_output, scan_result, status_key, triac_states,
    triac_states_of_output, BoardCommand, BoardManager, BoardType, ContactState, RelayState, ScanEntry, TriacState,
};

fn entry(t: Option<&str>, stack: Option<u64>, name: Option<&str>, version: Option<&str>) -> ScanEntry {
    ScanEntry {
        board_type: t.map(|s| s.to_string()),
        stack,
        name: name.map(|s| s.to_string()),
        version: version.map(|s| s.to_string()),
    }
}

#[test]
fn board_type_names_round_trip() {
    for t in [BoardType::MegaBAS, BoardType::Relay8, BoardType::Relay16, BoardType::UnivIn16, BoardType::UOut16] {
        let name = nexus_controller::boards::board_type_name(t);
        assert_eq!(parse_board_type(name), Some(t));
    }
    assert_eq!(parse_board_type("megaind"), None);
}

#[test]
fn scan_skips_unknown_and_fills_defaults() {
    let boards = scan_result(&vec![
        entry(Some("megabas"), Some(0), Some("MegaBAS"), Some("1.2")),
        entry(Some("toaster"), Some(1), None, None),
        entry(None, Some(2), None, None),
        entry(Some("16uout"), Some(257), None, None),
    ]);
    assert_eq!(boards.len(), 2);
    assert_eq!(boards[0].board_type, BoardType::MegaBAS);
    assert_eq!(boards[0].version, "1.2");
    assert_eq!(boards[0].status, "Online");
    assert_eq!(boards[1].board_type, BoardType::UOut16);
    assert_eq!(boards[1].stack_level, 1);
    assert_eq!(boards[1].name, "Unknown");
    assert_eq!(boards[1].version, "Unknown");
}

#[test]
fn command_arguments() {
    assert_eq!(command_args(BoardCommand::Scan), vec!["scan"]);
    assert_eq!(
        command_args(BoardCommand::SetRelay { board_type: BoardType::Relay16, stack: 2, relay: 11, on: true }),
        vec!["set_relay", "16relay", "2", "11", "1"]
    );
    assert_eq!(
        command_args(BoardCommand::SetAnalogOutput { stack: 0, channel: 3, millivolts: 2500 }),
        vec!["set_output", "0", "analog", "3", "2.5"]
    );
    assert_eq!(
        command_args(BoardCommand::SetUniversalOutput { stack: 1, channel: 16, millivolts: 10000 }),
        vec!["set_16uout", "1", "16", "10"]
    );
    assert_eq!(
        command_args(BoardCommand::SetAnalogOutput { stack: 0, channel: 1, millivolts: 1234 }),
        vec!["set_output", "0", "analog", "1", "1.234"]
    );
    assert_eq!(
        command_args(BoardCommand::SetTriac { stack: 3, triac: 4, on: false }),
        vec!["set_output", "3", "triac", "4", "0"]
    );
    assert_eq!(
        command_args(BoardCommand::ReadStatus { board_type: BoardType::UnivIn16, stack: 5 }),
        vec!["status", "16univin", "5"]
    );
    assert_eq!(
        command_args(BoardCommand::ReadUniversalInput { stack: 0, channel: 9 }),
        vec!["read_16univin", "0", "9"]
    );
}

#[test]
fn channel_and_voltage_checks() {
    let m = BoardManager::new();
    assert_eq!(m.read_analog_input(0, 9), Err("Invalid channel: 9".to_string()));
    assert_eq!(m.read_analog_input(1, 8), Ok(BoardCommand::ReadStatus { board_type: BoardType::MegaBAS, stack: 1 }));
    assert_eq!(m.write_analog_output(0, 0, 100), Err("Invalid channel: 0".to_string()));
    assert_eq!(m.write_analog_output(0, 2, 10500), Err("Voltage out of range: 10.5".to_string()));
    assert_eq!(m.write_analog_output(0, 2, -1500), Err("Voltage out of range: -1.5".to_string()));
    assert_eq!(
        m.write_analog_output(0, 2, 7000),
        Ok(BoardCommand::SetAnalogOutput { stack: 0, channel: 2, millivolts: 7000 })
    );
    assert_eq!(m.set_relay(BoardType::MegaBAS, 0, 1, true), Err("Not a relay board".to_string()));
    assert_eq!(m.set_triac(0, 5, true), Err("Invalid triac number: 5".to_string()));
    assert_eq!(m.read_universal_input(0, 17), Err("Invalid channel: 17".to_string()));
    assert_eq!(m.write_universal_output(0, 16, 10001), Err("Voltage out of range: 10.001".to_string()));
}

#[test]
fn emergency_stop_switches_everything_off() {
    let mut m = BoardManager::new();
    m.record_scan(&vec![
        entry(Some("megabas"), Some(0), None, None),
        entry(Some("8relay"), Some(1), None, None),
        entry(Some("16univin"), Some(2), None, None),
        entry(Some("16uout"), Some(3), None, None),
    ]);
    let plan = m.emergency_stop();
    assert_eq!(plan.len(), 4 + 4 + 8 + 16);
    assert_eq!(plan[0], BoardCommand::SetTriac { stack: 0, triac: 1, on: false });
    assert_eq!(plan[4], BoardCommand::SetAnalogOutput { stack: 0, channel: 1, millivolts: 0 });
    assert_eq!(plan[8], BoardCommand::SetRelay { board_type: BoardType::Relay8, stack: 1, relay: 1, on: false });
    assert_eq!(plan[15], BoardCommand::SetRelay { board_type: BoardType::Relay8, stack: 1, relay: 8, on: false });
    assert_eq!(plan[31], BoardCommand::SetUniversalOutput { stack: 3, channel: 16, millivolts: 0 });
    assert!(BoardManager::new().emergency_stop().is_empty());
}

#[test]
fn status_entries_become_channel_states() {
    let entries = vec![
        ("ch1".to_string(), Some(true)),
        ("ch2".to_string(), None),
        ("chx".to_string(), Some(true)),
        ("mode".to_string(), Some(true)),
        ("ch+3".to_string(), Some(true)),
        ("ch256".to_string(), Some(true)),
    ];
    let relays = relay_states(&entries);
    let pairs: Vec<(u8, bool)> = relays.iter().map(|r| (r.channel, r.state)).collect();
    assert_eq!(pairs, vec![(1, true), (2, false), (3, true)]);
    assert_eq!(triac_states(&entries).len(), 3);
    assert_eq!(parse_channel_key("ch07"), Some(7));
    assert_eq!(parse_channel_key("c1"), None);
}

#[test]
fn contact_fields_default_and_truncate() {
    let c = contact_state(2, None, Some(4_294_967_297), Some(258));
    assert_eq!((c.channel, c.state, c.counter, c.edge_mode), (2, false, 1, 2));
}

#[test]
fn keys_and_ids() {
    assert_eq!(channel_key(4), "ch4");
    assert_eq!(status_key(BoardType::Relay8, 2), "8relay_2");
    assert_eq!(board_id(BoardType::UnivIn16, 1), "UnivIn16_1");
    assert_eq!(interface_path(false, true), Ok(nexus_controller::boards::FALLBACK_INTERFACE));
    assert_eq!(
        interface_path(false, false),
        Err(format!(
            "Firmware interface not found at {} or {}",
            nexus_controller::boards::PYTHON_INTERFACE,
            nexus_controller::boards::FALLBACK_INTERFACE
        ))
    );
}

#[test]
fn scan_output_is_read_into_boards() {
    let mut m = BoardManager::new();
    let out = r#"[{"type": "megabas", "stack": 0, "name": "MegaBAS", "version": "4.1"},
                  {"type": "unknown", "stack": 1},
                  {"type": "16relay", "stack": 259}]"#;
    let boards = m.record_scan_output(out).unwrap();
    assert_eq!(boards.len(), 2);
    assert_eq!(boards[0].board_type, BoardType::MegaBAS);
    assert_eq!(boards[0].version, "4.1");
    assert_eq!(boards[1].board_type, BoardType::Relay16);
    assert_eq!(boards[1].stack_level, 3);
    assert_eq!(boards[1].name, "Unknown");
    assert_eq!(m.get_boards().len(), 2);
    assert!(m.record_scan_output("not json").is_err());
    assert!(m.record_scan_output(r#"{"type": "megabas"}"#).is_err());
    assert_eq!(m.get_boards().len(), 2);
}

#[test]
fn status_output_is_read_into_states() {
    let out = r#"{"relays": {"ch1": true, "ch2": false, "chx": true, "ch3": 7},
                  "triacs": {"ch4": true},
                  "contacts": {"ch2": {"state": true, "counter": 4294967301, "edge_mode": 2}}}"#;
    assert_eq!(
        relay_states_of_output(out).unwrap(),
        vec![
            RelayState { channel: 1, state: true },
            RelayState { channel: 2, state: false },
            RelayState { channel: 3, state: false }
        ]
    );
    assert_eq!(triac_states_of_output(out).unwrap(), vec![TriacState { channel: 4, state: true }]);
    assert_eq!(
        contact_of_output(out, 2).unwrap(),
        ContactState { channel: 2, state: true, counter: 5, edge_mode: 2 }
    );
    assert_eq!(
        contact_of_output(out, 5).unwrap(),
        ContactState { channel: 5, state: false, counter: 0, edge_mode: 0 }
    );
    assert!(relay_states_of_output("{}").unwrap().is_empty());
    assert!(relay_states_of_output("[1, 2]").is_err());
    assert!(contact_of_output("", 1).is_err());
}
