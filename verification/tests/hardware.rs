use nexus_controller::hardware::HardwareInterface;

#[test]
fn interface_runs_the_installed_firmware_tool() {
    let h = HardwareInterface::new();
    assert_eq!(h.firmware_interface_path(), "/usr/local/bin/nexus-firmware");
    assert_eq!(h.scan_boards(), vec!["/usr/local/bin/nexus-firmware", "scan"]);
}

#[test]
fn request_arguments() {
    let h = HardwareInterface::new();
    assert_eq!(h.read_input("megabas", 0, 3), vec!["/usr/local/bin/nexus-firmware", "read_input", "megabas", "0", "3"]);
    assert_eq!(
        h.write_output("16uout", 1, 2, 5250),
        vec!["/usr/local/bin/nexus-firmware", "set_output", "16uout", "1", "2", "5.25"]
    );
    assert_eq!(
        h.set_relay("8relay", 2, 7, true),
        vec!["/usr/local/bin/nexus-firmware", "set_relay", "8relay", "2", "7", "1"]
    );
    assert_eq!(
        h.set_triac(0, 4, 80),
        vec!["/usr/local/bin/nexus-firmware", "set_output", "megabas", "0", "triac", "4", "80"]
    );
    assert_eq!(h.read_temperature("10k", 5), vec!["/usr/local/bin/nexus-firmware", "read_temp", "10k", "5"]);
    assert_eq!(h.read_vibration_sensor("/dev/ttyUSB0", 1), vec!["/opt/nexus/read_vibration.py", "/dev/ttyUSB0", "1"]);
    assert_eq!(h.read_modbus_register("dev1", 40001), vec!["/opt/nexus/modbus_reader.py", "dev1", "40001"]);
}

#[test]
fn modbus_output_parsing() {
    let h = HardwareInterface::new();
    assert_eq!(h.modbus_value(" 42\n"), 42);
    assert_eq!(h.modbus_value("+7"), 7);
    assert_eq!(h.modbus_value("65535"), 65535);
    assert_eq!(h.modbus_value("65536"), 0);
    assert_eq!(h.modbus_value("-1"), 0);
    assert_eq!(h.modbus_value(""), 0);
}

#[test]
fn uptime_days() {
    let h = HardwareInterface::new();
    assert_eq!(h.uptime_days(" 10:01:02 up 3 days,  4:05,  1 user"), Some("3".to_string()));
    assert_eq!(h.uptime_days("up 1 day"), Some("1".to_string()));
    assert_eq!(h.uptime_days(" day"), Some("0".to_string()));
    assert_eq!(h.uptime_days("up 5 min"), None);
}

#[test]
fn uptime_in_minutes() {
    let h = HardwareInterface::new();
    assert_eq!(h.uptime_minutes("10:00:00 up 2 days,  3:00,  1 user"), 3060);
    assert_eq!(h.uptime_minutes("10:00:00 up  5:30,  1 user"), 330);
    assert_eq!(h.uptime_minutes(" 10:01:02 up 3 days,  4:05,  1 user"), 3 * 1440 + 245);
    assert_eq!(h.uptime_minutes(" 10:00:00 up 17 min,  2 users"), 17);
    assert_eq!(h.uptime_minutes(" 10:00:00 up 1 day, 12 min,  2 users"), 1452);
    assert_eq!(h.uptime_minutes("up 1 day"), 1440);
    assert_eq!(h.uptime_minutes("nothing here"), 0);
}
