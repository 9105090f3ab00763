use nexus_controller::alarms::{AlarmCondition, AlarmDefinition, AlarmMonitor, AlarmSeverity, AlarmType, check_condition};

#[test]
fn high_discharge_pressure_raises_one_alarm() {
    let mut m = AlarmMonitor::new();
    // the definition's delay is 5 s: the first reading only starts the timer
    assert!(m.process_point("discharge_pressure", 46000, 995).unwrap().is_empty());
    let raised = m.process_point("discharge_pressure", 46000, 1000).unwrap();
    assert_eq!(raised.len(), 1);
    let a = &raised[0];
    assert_eq!(a.id, "high_discharge_pressure_1000");
    assert_eq!(a.definition_id, "high_discharge_pressure");
    assert_eq!(a.severity, AlarmSeverity::Critical);
    assert_eq!(a.threshold, 45000);
    assert_eq!(a.message, "High Discharge Pressure: discharge_pressure = 460.00 (threshold: 450.00)");
    assert_eq!(a.location, "Main Building");
    assert_eq!(a.equipment, Some("HVAC System".to_string()));
    assert_eq!(m.get_alarm_counts().critical, 1);
}

#[test]
fn repeated_reading_raises_nothing() {
    let mut m = AlarmMonitor::new();
    m.process_point("discharge_pressure", 46000, 995).unwrap();
    m.process_point("discharge_pressure", 46000, 1000).unwrap();
    let again = m.process_point("discharge_pressure", 47000, 1010).unwrap();
    assert!(again.is_empty());
    assert_eq!(m.get_active_alarms().len(), 1);
    assert_eq!(m.get_alarm_counts().critical, 1);
}

#[test]
fn reading_below_limit_raises_nothing() {
    let mut m = AlarmMonitor::new();
    let raised = m.process_point("discharge_pressure", 45000, 1000).unwrap();
    assert!(raised.is_empty());
    assert!(m.get_active_alarms().is_empty());
}

#[test]
fn auto_reset_alarm_clears_into_history() {
    let mut m = AlarmMonitor::new();
    assert!(m.process_point("superheat", 300, 40).unwrap().is_empty());
    let raised = m.process_point("superheat", 300, 100).unwrap();
    assert_eq!(raised.len(), 1);
    assert_eq!(raised[0].message, "Low Superheat: superheat = 3.00 (threshold: 5.00)");
    let none = m.process_point("superheat", 800, 160).unwrap();
    assert!(none.is_empty());
    // no acknowledgment required: the alarm leaves the active list
    assert!(m.get_active_alarms().is_empty());
    let h = m.get_alarm_history(10);
    assert_eq!(h.len(), 1);
    assert_eq!(h[0].alarm_id, "low_superheat_100");
    assert_eq!(h[0].cleared_at, Some(160));
    assert_eq!(h[0].duration_seconds, 60);
}

#[test]
fn cleared_alarm_needing_acknowledgment_stays_active() {
    let mut m = AlarmMonitor::new();
    m.process_point("vibration_velocity", 800, -20).unwrap();
    m.process_point("vibration_velocity", 800, 10).unwrap();
    m.process_point("vibration_velocity", 500, 40).unwrap();
    let active = m.get_active_alarms();
    assert_eq!(active.len(), 1);
    assert!(active[0].cleared);
    assert_eq!(m.get_alarm_history(10).len(), 1);
    m.acknowledge_alarm("vibration_high_10", "tech", 50).unwrap();
    let h = m.get_alarm_history(10);
    assert_eq!(h.len(), 2);
    assert!(h[1].acknowledged);
    assert_eq!(h[1].acknowledged_by, Some("tech".to_string()));
    // acknowledged after clearing, the alarm leaves the active list and can be raised again
    assert!(m.get_active_alarms().is_empty());
    m.process_point("vibration_velocity", 800, 100).unwrap();
    assert_eq!(m.process_point("vibration_velocity", 800, 130).unwrap().len(), 1);
}

#[test]
fn acknowledging_unknown_alarm_fails() {
    let mut m = AlarmMonitor::new();
    assert_eq!(m.acknowledge_alarm("nope", "tech", 5), Err("Alarm not found".to_string()));
}

#[test]
fn monitoring_off_ignores_readings() {
    let mut m = AlarmMonitor::new();
    m.set_monitoring_enabled(false);
    assert!(m.process_point("discharge_pressure", 99999, 1).unwrap().is_empty());
    assert!(m.get_active_alarms().is_empty());
}

#[test]
fn severity_filter_and_history_limit() {
    let mut m = AlarmMonitor::new();
    m.process_point("discharge_pressure", 46000, 1).unwrap();
    m.process_point("discharge_pressure", 46000, 6).unwrap();
    m.process_point("vibration_velocity", 900, 2).unwrap();
    m.process_point("vibration_velocity", 900, 32).unwrap();
    assert_eq!(m.get_alarms_by_severity(AlarmSeverity::Critical).len(), 1);
    assert_eq!(m.get_alarms_by_severity(AlarmSeverity::High).len(), 1);
    assert_eq!(m.get_alarms_by_severity(AlarmSeverity::Low).len(), 0);
    m.process_point("vibration_velocity", 100, 33).unwrap();
    assert_eq!(m.get_alarm_history(0).len(), 0);
    assert_eq!(m.get_alarm_history(5).len(), 1);
}

#[test]
fn clear_all_alarms_empties_active_list() {
    let mut m = AlarmMonitor::new();
    m.process_point("discharge_pressure", 46000, 1).unwrap();
    m.process_point("discharge_pressure", 46000, 6).unwrap();
    assert_eq!(m.get_active_alarms().len(), 1);
    m.clear_all_alarms();
    assert!(m.get_active_alarms().is_empty());
}

fn custom_definition(id: &str) -> AlarmDefinition {
    AlarmDefinition {
        id: id.to_string(),
        name: "Zone Deviation".to_string(),
        alarm_type: AlarmType::ControlFailure,
        severity: AlarmSeverity::Info,
        enabled: true,
        point_name: "zone_error".to_string(),
        condition: AlarmCondition::Deviation { from_setpoint: 300 },
        delay_seconds: 0,
        auto_reset: true,
        require_acknowledgment: false,
        notification_enabled: false,
        email_recipients: vec![],
    }
}

#[test]
fn added_definition_is_evaluated_and_removable() {
    let mut m = AlarmMonitor::new();
    m.add_alarm_definition(custom_definition("zone_dev")).unwrap();
    assert!(m.definition("zone_dev").is_some());
    let raised = m.process_point("zone_error", -450, 7).unwrap();
    assert_eq!(raised.len(), 1);
    assert_eq!(raised[0].message, "Zone Deviation: zone_error = -4.50 (threshold: 0.00)");
    m.remove_alarm_definition("zone_dev").unwrap();
    assert!(m.definition("zone_dev").is_none());
    assert_eq!(m.remove_alarm_definition("zone_dev"), Err("Definition not found".to_string()));
}

#[test]
fn conditions_hold_as_written() {
    assert!(check_condition(&AlarmCondition::HighLimit { value: 10 }, 11));
    assert!(!check_condition(&AlarmCondition::HighLimit { value: 10 }, 10));
    assert!(check_condition(&AlarmCondition::LowLimit { value: 10 }, 9));
    assert!(check_condition(&AlarmCondition::OutOfRange { min: 0, max: 5 }, 6));
    assert!(!check_condition(&AlarmCondition::OutOfRange { min: 0, max: 5 }, 5));
    assert!(check_condition(&AlarmCondition::Deviation { from_setpoint: 2 }, -3));
    assert!(!check_condition(&AlarmCondition::Boolean { expected: true }, 1));
    assert!(!check_condition(&AlarmCondition::RateOfChange { max_change_per_min: 1 }, 100));
    assert!(!check_condition(&AlarmCondition::Equipment { fault_code: 3 }, 3));
}

#[test]
fn alarm_log_lines() {
    let mut m = AlarmMonitor::new();
    assert!(m.process_point("efficiency_score", 6000, 9).unwrap().is_empty());
    let raised = m.process_point("efficiency_score", 6000, 309).unwrap();
    assert_eq!(raised.len(), 1);
    assert_eq!(
        nexus_controller::alarms::alarm_log_line(&raised[0]),
        "ℹ️ ALARM: Low Efficiency - Low Efficiency: efficiency_score = 60.00 (threshold: 70.00)"
    );
    assert_eq!(
        nexus_controller::alarms::notification_line(&raised[0]),
        "📧 Sending alarm notification for: Low Efficiency"
    );
    assert_eq!(nexus_controller::alarms::severity_icon(AlarmSeverity::Critical), "🚨");
}

#[test]
fn alarm_waits_for_its_delay() {
    let mut m = AlarmMonitor::new();
    assert!(m.process_point("discharge_pressure", 46000, 100).unwrap().is_empty());
    assert!(m.process_point("discharge_pressure", 46000, 104).unwrap().is_empty());
    assert!(m.get_active_alarms().is_empty());
    assert_eq!(m.get_alarm_counts().critical, 0);
    let raised = m.process_point("discharge_pressure", 46000, 105).unwrap();
    assert_eq!(raised.len(), 1);
    assert_eq!(raised[0].triggered_at, 105);
}

#[test]
fn reading_below_limit_restarts_the_delay() {
    let mut m = AlarmMonitor::new();
    m.process_point("discharge_pressure", 46000, 0).unwrap();
    m.process_point("discharge_pressure", 45000, 3).unwrap();
    m.process_point("discharge_pressure", 46000, 4).unwrap();
    assert!(m.process_point("discharge_pressure", 46000, 8).unwrap().is_empty());
    assert_eq!(m.process_point("discharge_pressure", 46000, 9).unwrap().len(), 1);
}

#[test]
fn definition_without_delay_raises_at_once() {
    let mut m = AlarmMonitor::new();
    m.add_alarm_definition(custom_definition("zone_now")).unwrap();
    assert_eq!(m.process_point("zone_error", 500, 1).unwrap().len(), 1);
}
