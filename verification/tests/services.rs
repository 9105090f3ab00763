use nexus_controller::text::is_whitespace;
use nexus_controller::config::{
    boards_config_path, config_dir, default_alarm_settings, default_email_settings, load_board_configs, rsplit_once,
    DEFAULT_CONFIG_PATH,
};
use nexus_controller::database::{
    archive_data, check_sql, clean_old_data, get_retention_config, query_metrics, retention_config_rows, retention_config_values,
    table_count_query,
};
use nexus_controller::protocols::{get_protocol_status, read_modbus_registers, write_modbus_register};
use nexus_controller::web::{
    create_backup, generate_html_page, reboot_delay, reboot_message, restore_command, route_title,
    system_update_commands, LOGS_COMMAND,
};

#[test]
fn configuration_paths() {
    assert_eq!(DEFAULT_CONFIG_PATH, "/etc/nexus/config.json");
    assert_eq!(config_dir(), "/etc/nexus");
    assert_eq!(boards_config_path(), "/etc/nexus/boards.json");
    assert_eq!(rsplit_once("a/b/c", '/'), Some(("a/b".to_string(), "c".to_string())));
    assert_eq!(rsplit_once("abc", '/'), None);
}

#[test]
fn default_board_configs_when_no_file() {
    let v = load_board_configs(None);
    assert_eq!(v.len(), 2);
    assert_eq!(v[0].board_type, "megabas");
    assert_eq!(v[0].address, 0x48);
    assert_eq!(v[1].name, "Building Automation");
    assert_eq!(v[1].address, 0x50);
    assert!(v.iter().all(|b| b.enabled && b.polling_interval_ms == 1000 && b.port.is_none()));
    let kept = load_board_configs(Some(vec![]));
    assert!(kept.is_empty());
}

#[test]
fn default_settings() {
    let e = default_email_settings();
    assert!(!e.enabled);
    assert_eq!(e.smtp_server, "smtp.gmail.com");
    assert_eq!(e.smtp_port, 587);
    assert_eq!(e.from_address, "nexus@automata.ai");
    let a = default_alarm_settings();
    assert!(a.email_alerts && !a.sms_alerts && !a.push_notifications);
    assert_eq!((a.alarm_delay_seconds, a.repeat_interval_minutes), (30, 15));
}

#[test]
fn only_select_queries_run() {
    assert_eq!(check_sql("  select * from t"), Ok(()));
    assert_eq!(check_sql("SELECT 1"), Ok(()));
    assert_eq!(check_sql("DELETE FROM t"), Err("Only SELECT queries are allowed".to_string()));
    assert_eq!(check_sql(""), Err("Only SELECT queries are allowed".to_string()));
    assert_eq!(check_sql("SELECT 1; DELETE FROM sensor_readings"), Err("Only one statement is allowed".to_string()));
    assert_eq!(check_sql(" SELECT 1; "), Ok(()));
    assert_eq!(check_sql("select a;;"), Err("Only one statement is allowed".to_string()));
}

#[test]
fn metrics_query_text() {
    let base = "SELECT id, created_at, sensor_id, sensor_id, sensor_id, \n                    vibration_x, 'mm/s', 'Good' \n             FROM sensor_readings WHERE 1=1";
    assert_eq!(query_metrics(None, None, None, None, None), format!("{} ORDER BY created_at DESC", base));
    assert_eq!(
        query_metrics(Some(0), Some(86400), Some("mb".to_string()), Some("ch1".to_string()), Some(10)),
        format!(
            "{} AND created_at >= '1970-01-01T00:00:00+00:00' AND created_at <= '1970-01-02T00:00:00+00:00' AND sensor_id LIKE 'mb%' AND sensor_id = 'ch1' ORDER BY created_at DESC LIMIT 10",
            base
        )
    );
}

#[test]
fn retention_and_archive() {
    let r = get_retention_config(&vec![]);
    assert!(r.enabled && r.archive_enabled);
    assert_eq!(r.retention_days, 30);
    assert_eq!(r.archive_path, "/var/backups/nexus");
    assert_eq!(retention_config_values(&r), vec!["true", "30", "true", "/var/backups/nexus"]);
    assert_eq!(
        clean_old_data(31 * 86400, 30),
        "DELETE FROM sensor_readings WHERE created_at < '1970-01-02T00:00:00+00:00'"
    );
    let p = archive_data(0, 0);
    assert_eq!(p.archive_file, "/var/backups/nexus/archive_19700101_000000.db");
    assert_eq!(p.attach_sql, "ATTACH DATABASE '/var/backups/nexus/archive_19700101_000000.db' AS archive");
    assert_eq!(archive_data(864000, 7).cutoff, 864000 - 7 * 86400);
    assert_eq!(table_count_query("alarms"), "SELECT COUNT(*) FROM alarms");
}

#[test]
fn modbus_demo_transport() {
    assert_eq!(read_modbus_registers("dev".to_string(), 1, 100, 3), Ok(vec![100, 101, 102]));
    assert_eq!(read_modbus_registers("dev".to_string(), 1, 5, 0), Ok(vec![]));
    assert!(write_modbus_register("dev".to_string(), 1, 7, 9).is_ok());
    assert!(get_protocol_status().is_ok());
}

#[test]
fn html_page_carries_its_title() {
    let page = generate_html_page("Admin Panel");
    assert!(page.starts_with("\n<!DOCTYPE html>"));
    assert!(page.contains("<title>Automata Nexus - Admin Panel</title>"));
    assert!(page.contains("<h1>Admin Panel</h1>"));
    assert!(page.contains(":root {"));
    assert!(!page.contains("{{"));
    assert_eq!(page.matches("Admin Panel").count() >= 2, true);
    assert!(page.trim_end().ends_with("</html>"));
}

#[test]
fn routes_and_admin_commands() {
    assert_eq!(route_title("/"), Some("Dashboard"));
    assert_eq!(route_title("/io-control"), Some("I/O Control"));
    assert_eq!(route_title("/nope"), None);
    assert_eq!(reboot_delay(None), 5);
    assert_eq!(reboot_message(reboot_delay(Some(30))), "System will reboot in 30 seconds");
    assert_eq!(system_update_commands().len(), 5);
    assert_eq!(system_update_commands()[4], "sudo systemctl restart nexus");
    let b = create_backup(0);
    assert_eq!(b.backup_file, "/var/backups/nexus/backup_19700101_000000.tar.gz");
    assert_eq!(b.command, "tar czf /var/backups/nexus/backup_19700101_000000.tar.gz /opt/nexus /var/lib/nexus /etc/nexus");
    assert_eq!(restore_command("/tmp/b.tgz"), "tar xzf /tmp/b.tgz -C /");
    assert_eq!(LOGS_COMMAND, "journalctl -u nexus -n 100");
}

#[test]
fn stored_retention_policy_is_read_back() {
    let rows: Vec<(String, String)> = vec![
        ("retention_enabled".to_string(), "false".to_string()),
        ("retention_days".to_string(), "10".to_string()),
        ("archive_enabled".to_string(), "false".to_string()),
        ("archive_path".to_string(), "/data/archive".to_string()),
    ];
    let r = get_retention_config(&rows);
    assert!(!r.enabled && !r.archive_enabled);
    assert_eq!(r.retention_days, 10);
    assert_eq!(r.archive_path, "/data/archive");
    let back = retention_config_values(&r);
    let keys = ["retention_enabled", "retention_days", "archive_enabled", "archive_path"];
    let stored: Vec<(String, String)> = keys.iter().zip(back.iter()).map(|(k, v)| (k.to_string(), v.clone())).collect();
    let again = get_retention_config(&stored);
    assert_eq!(again.retention_days, 10);
    assert_eq!(again.archive_path, "/data/archive");
}

#[test]
fn unreadable_stored_values_keep_defaults() {
    let rows: Vec<(String, String)> = vec![
        ("retention_days".to_string(), "ten".to_string()),
        ("retention_enabled".to_string(), "yes".to_string()),
        ("retention_days".to_string(), "99999999999".to_string()),
    ];
    let r = get_retention_config(&rows);
    assert!(r.enabled);
    assert_eq!(r.retention_days, 30);
}

#[test]
fn white_space_is_the_unicode_property() {
    for c in ['\t', '\n', '\u{b}', '\u{c}', '\r', ' ', '\u{85}', '\u{a0}', '\u{1680}', '\u{2000}', '\u{200a}', '\u{2028}', '\u{2029}', '\u{202f}', '\u{205f}', '\u{3000}'] {
        assert_eq!(is_whitespace(c), c.is_whitespace(), "{:?}", c);
        assert!(is_whitespace(c));
    }
    for c in ['a', '0', '\u{200b}', '\u{180e}', '\u{feff}', '\u{8}', '\u{1f}'] {
        assert_eq!(is_whitespace(c), c.is_whitespace(), "{:?}", c);
        assert!(!is_whitespace(c));
    }
}

#[test]
fn stored_rows_read_back_in_any_order() {
    let c = get_retention_config(&vec![
        ("retention_days".to_string(), "7".to_string()),
        ("archive_path".to_string(), "/mnt/a".to_string()),
    ]);
    let mut rows = retention_config_rows(&c);
    assert_eq!(rows[1], ("retention_days".to_string(), "7".to_string()));
    rows.reverse();
    let back = get_retention_config(&rows);
    assert_eq!((back.enabled, back.retention_days, back.archive_enabled), (true, 7, true));
    assert_eq!(back.archive_path, "/mnt/a");
}
