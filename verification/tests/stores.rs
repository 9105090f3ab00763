use nexus_controller::audit::{AuditEntry, AuditLog, CREATE_AUDIT_TABLE, INSERT_AUDIT_ENTRY, SELECT_RECENT_AUDIT};
use nexus_controller::weather::{cache_is_fresh, weather_source, WeatherSource};
use nexus_controller::api::{api_key, authorize, is_allowed_command, MASTER_API_KEY};
use nexus_controller::board_config::{init_available_boards, selectable_boards, set_board_enabled};
use nexus_controller::db_viewer::{
    default_sql_query, default_viewer_retention, manual_cleanup_sql, metric_matches, query_result, rejected_query, retention_save_sql,
    saved_queries, split_on, sqlite_args, QueryRun, DEFAULT_SQL_QUERY,
};
use nexus_controller::logic_engine::{ControlMode, LicensedViewer, LogicStore};

#[test]
fn api_key_from_either_header() {
    assert_eq!(api_key(Some("k1".to_string()), Some("Bearer k2".to_string())), Some("k1".to_string()));
    assert_eq!(api_key(None, Some("Bearer k2".to_string())), Some("k2".to_string()));
    assert_eq!(api_key(None, Some("Basic k2".to_string())), None);
    assert!(authorize(Some(MASTER_API_KEY.to_string()), None));
    assert!(authorize(None, Some(format!("Bearer {}", MASTER_API_KEY))));
    assert!(!authorize(Some("wrong".to_string()), Some(format!("Bearer {}", MASTER_API_KEY))));
    assert!(!authorize(None, None));
}

#[test]
fn logic_store_samples_and_uploads() {
    let mut s = LogicStore::new(1000);
    assert_eq!(s.logic_files().len(), 3);
    assert!(s.logic_files()[0].is_active);
    assert!(s.logic_files()[0].file_content.starts_with("// AHU-001 Control Logic"));
    assert!(!s.upload_logic_file("", "x", 5));
    assert!(!s.upload_logic_file("a.js", "", 5));
    assert!(s.upload_logic_file("fan.js", "return 1;", 2000));
    let f = &s.logic_files()[3];
    assert_eq!(f.id, "logic_4");
    assert_eq!(f.file_path, "/logic/fan.js");
    assert_eq!(f.description, "Uploaded file: fan.js");
    assert_eq!(f.control_mode, ControlMode::Space);
    assert!(!f.is_active);
}

#[test]
fn logic_store_updates_first_match() {
    let mut s = LogicStore::new(1000);
    s.toggle_logic_active("logic_rtu_003", true);
    assert!(s.logic_files()[1].is_active);
    s.update_input_channel("logic_chp_001", 6);
    assert_eq!(s.logic_files()[2].input_channel, 6);
    s.record_execution("logic_ahu_001", 3000);
    assert_eq!(s.logic_files()[0].execution_count, 1248);
    assert_eq!(s.logic_files()[0].last_execution, Some(3000));
    s.toggle_logic_active("missing", true);
    assert_eq!(s.logic_files().len(), 3);
    let mut copy = s.logic_files()[1].clone();
    copy.description = "changed".to_string();
    s.update_logic_file(copy);
    assert_eq!(s.logic_files()[1].description, "changed");
}

#[test]
fn deleting_the_selected_program_clears_the_selection() {
    let mut s = LogicStore::new(1000);
    s.select(Some("logic_ahu_001".to_string()));
    assert!(!s.delete_logic_file("logic_rtu_003"));
    assert_eq!(s.logic_files().len(), 2);
    assert!(s.delete_logic_file("logic_ahu_001"));
    assert_eq!(s.logic_files().len(), 1);
    assert_eq!(s.logic_files()[0].id, "logic_chp_001");
    assert!(!s.delete_logic_file("logic_ahu_001"));
}

#[test]
fn csv_output_becomes_a_table() {
    let r = query_result(QueryRun::Output("a,b\n1,2\n3,\n".to_string()), 7);
    assert_eq!(r.columns, vec!["a", "b"]);
    assert_eq!(r.rows, vec![vec!["1".to_string(), "2".to_string()], vec!["3".to_string(), "".to_string()]]);
    assert_eq!(r.row_count, 2);
    assert_eq!(r.execution_time_ms, 7);
    let e = query_result(QueryRun::Output(String::new()), 1);
    assert_eq!(e.columns, vec!["Result"]);
    assert_eq!(e.rows, vec![vec!["No data found".to_string()]]);
    assert_eq!(e.row_count, 0);
    let f = query_result(QueryRun::Failed("no such table".to_string()), 2);
    assert_eq!(f.rows, vec![vec!["no such table".to_string()]]);
    let g = query_result(QueryRun::CouldNotRun("not found".to_string()), 3);
    assert_eq!(g.rows, vec![vec!["Failed to execute: not found".to_string()]]);
    assert_eq!(rejected_query("DROP TABLE t").unwrap().rows, vec![vec!["Only SELECT queries are allowed".to_string()]]);
    assert_eq!(
        rejected_query("SELECT 1; DELETE FROM sensor_readings").unwrap().rows,
        vec![vec!["Only one statement is allowed".to_string()]]
    );
    assert!(rejected_query("SELECT * FROM t;").is_none());
    assert_eq!(split_on(",x,", ','), vec!["", "x", ""]);
    assert_eq!(sqlite_args("SELECT 1"), vec!["/var/lib/nexus/nexus.db", "-header", "-csv", "SELECT 1"]);
}

#[test]
fn viewer_maintenance() {
    assert_eq!(
        manual_cleanup_sql(30),
        "DELETE FROM sensor_readings WHERE created_at < datetime('now', '-30 days'); VACUUM;"
    );
    let q = saved_queries(10 * 86400);
    assert_eq!(q.len(), 3);
    assert_eq!(q[2].last_used, 7 * 86400);
    assert_eq!(q[1].name, "Alarm History");
}

#[test]
fn only_enabled_boards_are_selectable() {
    let mut boards = init_available_boards();
    let ids: Vec<String> = selectable_boards(&boards).into_iter().map(|b| b.id).collect();
    assert_eq!(ids, vec!["megabas_0", "16univin_1"]);
    set_board_enabled(&mut boards, "8relay_3", true);
    set_board_enabled(&mut boards, "megabas_0", false);
    let ids: Vec<String> = selectable_boards(&boards).into_iter().map(|b| b.id).collect();
    assert_eq!(ids, vec!["16univin_1", "8relay_3"]);
    assert_eq!(boards[0].capabilities.triacs, 4);
}

#[test]
fn weather_cache_lasts_ten_minutes() {
    assert!(cache_is_fresh(0, 599));
    assert!(!cache_is_fresh(0, 600));
    assert!(cache_is_fresh(1000, 0));
}

#[test]
fn audit_log_keeps_entries_in_order() {
    let mut log = AuditLog::new();
    assert!(log.entries().is_empty());
    for (i, action) in ["login", "set_relay"].iter().enumerate() {
        log.log(AuditEntry {
            id: format!("a{}", i),
            timestamp: 1_700_000_000 + i as i64,
            user: "admin".to_string(),
            action: action.to_string(),
            resource: "boards".to_string(),
            details: None,
            ip_address: Some("10.0.0.5".to_string()),
            success: true,
            error: None,
        });
    }
    assert_eq!(log.entries().len(), 2);
    assert_eq!(log.entries()[0].action, "login");
    assert_eq!(log.entries()[1].action, "set_relay");
    assert!(INSERT_AUDIT_ENTRY.contains("?9"));
    assert!(CREATE_AUDIT_TABLE.starts_with("CREATE TABLE IF NOT EXISTS audit_log"));
    assert!(SELECT_RECENT_AUDIT.ends_with("LIMIT ?"));
}

#[test]
fn viewer_defaults_and_retention_statement() {
    assert!(default_sql_query().starts_with("SELECT \n  timestamp,"));
    assert!(default_sql_query().ends_with("ORDER BY timestamp DESC\nLIMIT 1000;"));
    assert_eq!(default_sql_query(), DEFAULT_SQL_QUERY);
    let r = default_viewer_retention();
    assert!(r.enabled);
    assert_eq!((r.retention_days, r.max_archive_size, r.max_archive_count), (7, 500, 10));
    assert_eq!((r.compression_level, r.auto_archive_threshold), (6, 100));
    assert_eq!(
        retention_save_sql("{\"enabled\":true}"),
        "INSERT OR REPLACE INTO system_config (key, value, updated_at) VALUES ('retention_config', '{\"enabled\":true}', datetime('now'))"
    );
}

#[test]
fn only_read_only_system_commands_run() {
    for c in ["uptime", "df", "free", "ps", "top -b -n 1"] {
        assert!(is_allowed_command(c));
    }
    assert!(!is_allowed_command("rm -rf /"));
    assert!(!is_allowed_command("uptime "));
    assert!(!is_allowed_command("top"));
    assert!(!is_allowed_command(""));
}

#[test]
fn logic_files_show_only_after_the_licence() {
    let mut v = LicensedViewer::new();
    assert_eq!(v.shown_file(), None);
    v.view_logic_file("ahu-001");
    assert_eq!(v.shown_file(), None);
    v.refresh();
    assert!(v.license_dialog_open());
    assert_eq!(v.shown_file(), None);
    v.agree();
    assert!(!v.license_dialog_open());
    assert_eq!(v.shown_file(), Some("ahu-001".to_string()));
    v.refresh();
    assert_eq!(v.shown_file(), Some("ahu-001".to_string()));
    v.close();
    assert_eq!(v.shown_file(), None);
    v.view_logic_file("rtu-001");
    v.refresh();
    v.decline();
    assert!(!v.license_dialog_open());
    assert_eq!(v.shown_file(), None);
}

#[test]
fn where_the_weather_comes_from() {
    assert_eq!(weather_source(Some(1000), 1000 + 9 * 60, false), WeatherSource::Cached);
    assert_eq!(weather_source(Some(1000), 1000 + 10 * 60, true), WeatherSource::Fetch);
    assert_eq!(weather_source(Some(1000), 1000 + 10 * 60, false), WeatherSource::Sample);
    assert_eq!(weather_source(None, 1000, true), WeatherSource::Fetch);
    assert_eq!(weather_source(None, 1000, false), WeatherSource::Sample);
}

#[test]
fn metric_filter_by_channel_and_search() {
    assert!(metric_matches("ch1", "Supply Temp", "°F", "72.5", "all", ""));
    assert!(metric_matches("ch1", "Supply Temp", "°F", "72.5", "ch1", ""));
    assert!(!metric_matches("ch1", "Supply Temp", "°F", "72.5", "ch2", ""));
    assert!(metric_matches("ch1", "Supply Temp", "°F", "72.5", "all", "supply"));
    assert!(metric_matches("ch1", "Supply Temp", "PSI", "72.5", "all", "psi"));
    assert!(metric_matches("ch1", "Supply Temp", "°F", "72.5", "all", "2.5"));
    assert!(!metric_matches("ch1", "Supply Temp", "°F", "72.5", "all", "return"));
    assert!(!metric_matches("ch2", "Supply Temp", "°F", "72.5", "ch1", "supply"));
}
