use nexus_controller::email::{DeliveryError, EmailConfig, EmailService, EmailStatus, EmailTemplate};

fn config() -> EmailConfig {
    EmailConfig {
        smtp_host: "smtp.example.com".to_string(),
        smtp_port: 587,
        smtp_user: "user".to_string(),
        smtp_password: "secret".to_string(),
        from_email: "nexus@example.com".to_string(),
        from_name: "Nexus".to_string(),
        use_tls: true,
    }
}

fn vars(pairs: &[(&str, &str)]) -> Vec<(String, String)> {
    pairs.iter().map(|(k, v)| (k.to_string(), v.to_string())).collect()
}

#[test]
fn service_starts_with_three_templates() {
    let s = EmailService::new(config());
    let names: Vec<String> = s.get_templates().into_iter().map(|t| t.name).collect();
    assert_eq!(names, vec!["alarm_notification", "system_report", "user_welcome"]);
    assert!(s.get_logs(10).is_empty());
}

#[test]
fn placeholders_are_replaced() {
    let s = EmailService::new(config());
    let out = s.replace_variables("Hi {{name}}, {{name}}! {{other}}", &vars(&[("name", "Ann")]));
    assert_eq!(out, "Hi Ann, Ann! {{other}}");
    assert_eq!(s.replace_variables("plain", &vec![]), "plain");
}

#[test]
fn variables_are_applied_in_order() {
    let s = EmailService::new(config());
    let out = s.replace_variables("{{a}}", &vars(&[("a", "{{b}}"), ("b", "x")]));
    assert_eq!(out, "x");
}

#[test]
fn alarm_template_renders() {
    let s = EmailService::new(config());
    let m = s
        .render_template("ops@example.com", "alarm_notification", &vars(&[("alarm_name", "High Head"), ("severity", "critical")]))
        .unwrap();
    assert_eq!(m.to, "ops@example.com");
    assert_eq!(m.subject, "🚨 Nexus Alarm: High Head");
    assert!(m.html_body.contains("<h2 class=\"alarm-critical\">High Head</h2>"));
    assert!(m.text_body.contains("Alarm: High Head\nSeverity: critical"));
    assert!(m.text_body.contains("Location: {{location}}"));
}

#[test]
fn unknown_template_is_an_error() {
    let s = EmailService::new(config());
    let r = s.render_template("a@b.c", "nope", &vec![]);
    assert_eq!(r.err(), Some("Template not found: nope".to_string()));
}

#[test]
fn updated_template_reads_back() {
    let mut s = EmailService::new(config());
    let t = EmailTemplate {
        name: "system_report".to_string(),
        subject: "Report {{date}}".to_string(),
        html_body: "<p>{{date}}</p>".to_string(),
        text_body: "{{date}}".to_string(),
        variables: vec!["date".to_string()],
    };
    s.update_template(t);
    assert_eq!(s.get_template("system_report").unwrap().subject, "Report {{date}}");
    assert_eq!(s.get_templates().len(), 3);
    let n = EmailTemplate {
        name: "custom".to_string(),
        subject: "S".to_string(),
        html_body: "H".to_string(),
        text_body: "T".to_string(),
        variables: vec![],
    };
    s.update_template(n);
    assert_eq!(s.get_templates().len(), 4);
    assert_eq!(s.get_template("user_welcome").unwrap().subject, "Welcome to Automata Nexus AI");
}

#[test]
fn delivery_is_logged() {
    let mut s = EmailService::new(config());
    let id = s.record_pending("a@b.c", "Hello", 1_700_000_000);
    assert_eq!(id.len(), 36);
    let logs = s.get_logs(5);
    assert_eq!(logs.len(), 1);
    assert_eq!(logs[0].status, EmailStatus::Pending);
    assert_eq!(logs[0].timestamp, 1_700_000_000);
    assert_eq!(s.record_outcome(&id, Ok(())), Ok(()));
    assert_eq!(s.get_logs(5)[0].status, EmailStatus::Sent);
    let id2 = s.record_pending("x@y.z", "Bye", 1_700_000_100);
    assert_ne!(id, id2);
    let r = s.record_outcome(&id2, Err(DeliveryError::Transport("connection refused".to_string())));
    assert_eq!(r, Err("Failed to send email: connection refused".to_string()));
    let logs = s.get_logs(1);
    assert_eq!(logs.len(), 1);
    assert_eq!(logs[0].status, EmailStatus::Failed);
    assert_eq!(logs[0].error, Some("connection refused".to_string()));
    let id3 = s.record_pending("not an address", "Oops", 1_700_000_200);
    let r = s.record_outcome(&id3, Err(DeliveryError::NotSent("Invalid email address".to_string())));
    assert_eq!(r, Err("Invalid email address".to_string()));
    let logs = s.get_logs(1);
    assert_eq!(logs[0].status, EmailStatus::Pending);
    assert_eq!(logs[0].error, None);
}

#[test]
fn test_message_goes_to_sender() {
    let s = EmailService::new(config());
    let m = s.test_message();
    assert_eq!(m.to, "nexus@example.com");
    assert_eq!(m.subject, "Nexus Email Test");
    assert_eq!(s.sender(), "Nexus <nexus@example.com>");
}
