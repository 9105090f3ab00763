//! E-mail notifications: templates with `{{variable}}` placeholders, the messages
//! rendered from them, and the log of deliveries.
use vstd::prelude::*;
use crate::alarms::{copy_opt, copy_strings, opt_view};
use crate::outside::new_uuid_string;
use crate::serial::config_view;
use crate::text::{append_str, owned, replace_all, replaced, same_text, strings_view};

verus! {

/// HTML body of the alarm notification template.
pub const ALARM_NOTIFICATION_HTML: &'static str = r#"
<!DOCTYPE html>
<html>
<head>
    <style>
        body { font-family: Arial, sans-serif; }
        .header { background: #14b8a6; color: white; padding: 20px; }
        .content { padding: 20px; }
        .alarm-critical { color: #dc2626; font-weight: bold; }
        .alarm-high { color: #ea580c; font-weight: bold; }
        .alarm-medium { color: #ca8a04; }
        .alarm-low { color: #0284c7; }
        .footer { background: #f1f5f9; padding: 10px; text-align: center; font-size: 12px; }
    </style>
</head>
<body>
    <div class="header">
        <h1>Automata Nexus AI - Alarm Notification</h1>
    </div>
    <div class="content">
        <h2 class="alarm-{{severity}}">{{alarm_name}}</h2>
        <p><strong>Time:</strong> {{timestamp}}</p>
        <p><strong>Location:</strong> {{location}}</p>
        <p><strong>Equipment:</strong> {{equipment}}</p>
        <p><strong>Value:</strong> {{value}} {{units}}</p>
        <p><strong>Threshold:</strong> {{threshold}} {{units}}</p>
        <p><strong>Message:</strong> {{message}}</p>
        <hr>
        <p>Please log in to the Nexus system to acknowledge this alarm.</p>
    </div>
    <div class="footer">
        <p>© 2025 Automata Controls | This is an automated message</p>
    </div>
</body>
</html>"#;

/// Plain-text body of the alarm notification template.
pub const ALARM_NOTIFICATION_TEXT: &'static str = r#"
AUTOMATA NEXUS AI - ALARM NOTIFICATION

Alarm: {{alarm_name}}
Severity: {{severity}}
Time: {{timestamp}}
Location: {{location}}
Equipment: {{equipment}}
Value: {{value}} {{units}}
Threshold: {{threshold}} {{units}}
Message: {{message}}

Please log in to the Nexus system to acknowledge this alarm.

© 2025 Automata Controls"#;

/// HTML body of the daily system report template.
pub const SYSTEM_REPORT_HTML: &'static str = r#"
<!DOCTYPE html>
<html>
<head>
    <style>
        body { font-family: Arial, sans-serif; }
        .header { background: #14b8a6; color: white; padding: 20px; }
        .content { padding: 20px; }
        .metrics { display: grid; grid-template-columns: repeat(3, 1fr); gap: 15px; }
        .metric { background: #f8fafc; padding: 15px; border-radius: 8px; }
        .metric-value { font-size: 24px; font-weight: bold; color: #0f172a; }
        .metric-label { color: #64748b; font-size: 14px; }
        .good { color: #22c55e; }
        .warning { color: #fb923c; }
        .bad { color: #f87171; }
    </style>
</head>
<body>
    <div class="header">
        <h1>Daily System Report</h1>
        <p>{{date}}</p>
    </div>
    <div class="content">
        <h2>System Metrics</h2>
        <div class="metrics">
            <div class="metric">
                <div class="metric-value">{{runtime_hours}}</div>
                <div class="metric-label">Runtime Hours</div>
            </div>
            <div class="metric">
                <div class="metric-value">{{energy_kwh}}</div>
                <div class="metric-label">Energy Usage (kWh)</div>
            </div>
            <div class="metric">
                <div class="metric-value good">{{efficiency}}%</div>
                <div class="metric-label">System Efficiency</div>
            </div>
            <div class="metric">
                <div class="metric-value">{{alarm_count}}</div>
                <div class="metric-label">Alarms Today</div>
            </div>
            <div class="metric">
                <div class="metric-value">{{cycles}}</div>
                <div class="metric-label">Compressor Cycles</div>
            </div>
            <div class="metric">
                <div class="metric-value good">{{uptime}}%</div>
                <div class="metric-label">System Uptime</div>
            </div>
        </div>
        
        <h2>Active Alarms</h2>
        {{alarm_list}}
        
        <h2>Maintenance Items</h2>
        {{maintenance_list}}
    </div>
    <div class="footer">
        <p>© 2025 Automata Controls | Automated Daily Report</p>
    </div>
</body>
</html>"#;

/// Plain-text body of the daily system report template.
pub const SYSTEM_REPORT_TEXT: &'static str = r#"
DAILY SYSTEM REPORT - {{date}}

SYSTEM METRICS:
- Runtime Hours: {{runtime_hours}}
- Energy Usage: {{energy_kwh}} kWh
- System Efficiency: {{efficiency}}%
- Alarms Today: {{alarm_count}}
- Compressor Cycles: {{cycles}}
- System Uptime: {{uptime}}%

ACTIVE ALARMS:
{{alarm_list}}

MAINTENANCE ITEMS:
{{maintenance_list}}

© 2025 Automata Controls"#;

/// HTML body of the welcome message for new users.
pub const USER_WELCOME_HTML: &'static str = r#"
<!DOCTYPE html>
<html>
<head>
    <style>
        body { font-family: Arial, sans-serif; }
        .header { background: #14b8a6; color: white; padding: 20px; text-align: center; }
        .content { padding: 20px; }
        .button { 
            display: inline-block; 
            padding: 12px 24px; 
            background: #14b8a6; 
            color: white; 
            text-decoration: none; 
            border-radius: 4px; 
            margin: 10px 0;
        }
    </style>
</head>
<body>
    <div class="header">
        <h1>Welcome to Automata Nexus AI</h1>
    </div>
    <div class="content">
        <h2>Hello {{username}}!</h2>
        <p>Your account has been created successfully.</p>
        <p><strong>Username:</strong> {{username}}</p>
        <p><strong>Role:</strong> {{role}}</p>
        <p><strong>Access Level:</strong> {{access_level}}</p>
        
        <p>You can now log in to the Nexus system using your credentials.</p>
        
        <a href="{{login_url}}" class="button">Login to Nexus</a>
        
        <h3>Getting Started:</h3>
        <ul>
            <li>Review the system dashboard for current status</li>
            <li>Check active alarms and acknowledge as needed</li>
            <li>Configure your notification preferences</li>
            <li>Explore the various monitoring and control features</li>
        </ul>
        
        <p>If you have any questions, please contact your system administrator.</p>
    </div>
    <div class="footer">
        <p>© 2025 Automata Controls</p>
    </div>
</body>
</html>"#;

/// Plain-text body of the welcome message for new users.
pub const USER_WELCOME_TEXT: &'static str = r#"
Welcome to Automata Nexus AI!

Hello {{username}}!

Your account has been created successfully.

Username: {{username}}
Role: {{role}}
Access Level: {{access_level}}

You can now log in to the Nexus system at: {{login_url}}

Getting Started:
- Review the system dashboard for current status
- Check active alarms and acknowledge as needed
- Configure your notification preferences
- Explore the various monitoring and control features

If you have any questions, please contact your system administrator.

© 2025 Automata Controls"#;

/// SMTP settings of the mail service.
#[derive(Debug, Clone)]
pub struct EmailConfig {
    pub smtp_host: String,
    pub smtp_port: u16,
    pub smtp_user: String,
    pub smtp_password: String,
    pub from_email: String,
    pub from_name: String,
    pub use_tls: bool,
}

/// A message template: `{{name}}` in its subject and bodies stands for the variable `name`.
#[derive(Debug, Clone)]
pub struct EmailTemplate {
    pub name: String,
    pub subject: String,
    pub html_body: String,
    pub text_body: String,
    pub variables: Vec<String>,
}

/// The contents of a template.
pub struct TemplateView {
    pub name: Seq<char>,
    pub subject: Seq<char>,
    pub html_body: Seq<char>,
    pub text_body: Seq<char>,
    pub variables: Seq<Seq<char>>,
}

impl View for EmailTemplate {
    type V = TemplateView;

    open spec fn view(&self) -> TemplateView {
        TemplateView {
            name: self.name@,
            subject: self.subject@,
            html_body: self.html_body@,
            text_body: self.text_body@,
            variables: strings_view(self.variables@),
        }
    }
}

impl EmailTemplate {
    /// A copy of this template.
    pub fn duplicate(&self) -> (r: EmailTemplate)
        ensures
            r@ == self@,
    {
        let variables = copy_strings(&self.variables);
        assert(strings_view(variables@) =~= strings_view(self.variables@));
        EmailTemplate {
            name: self.name.clone(),
            subject: self.subject.clone(),
            html_body: self.html_body.clone(),
            text_body: self.text_body.clone(),
            variables,
        }
    }
}

/// Where a message stands.
#[derive(Debug, Clone, Copy, PartialEq, Eq, Structural)]
pub enum EmailStatus {
    Pending,
    Sent,
    Failed,
    Retry,
}

/// One entry of the delivery log; `timestamp` is in Unix seconds.
#[derive(Debug, Clone)]
pub struct EmailLog {
    pub id: String,
    pub timestamp: i64,
    pub to: String,
    pub subject: String,
    pub template: Option<String>,
    pub status: EmailStatus,
    pub error: Option<String>,
}

/// The contents of a log entry.
pub struct LogView {
    pub id: Seq<char>,
    pub timestamp: i64,
    pub to: Seq<char>,
    pub subject: Seq<char>,
    pub template: Option<Seq<char>>,
    pub status: EmailStatus,
    pub error: Option<Seq<char>>,
}

impl View for EmailLog {
    type V = LogView;

    open spec fn view(&self) -> LogView {
        LogView {
            id: self.id@,
            timestamp: self.timestamp,
            to: self.to@,
            subject: self.subject@,
            template: opt_view(self.template),
            status: self.status,
            error: opt_view(self.error),
        }
    }
}

impl EmailLog {
    /// A copy of this entry.
    pub fn duplicate(&self) -> (r: EmailLog)
        ensures
            r@ == self@,
    {
        EmailLog {
            id: self.id.clone(),
            timestamp: self.timestamp,
            to: self.to.clone(),
            subject: self.subject.clone(),
            template: copy_opt(&self.template),
            status: self.status,
            error: copy_opt(&self.error),
        }
    }
}

/// A message ready to be handed to the mail transport.
#[derive(Debug, Clone)]
pub struct OutgoingEmail {
    pub to: String,
    pub subject: String,
    pub html_body: String,
    pub text_body: String,
}

/// The contents of a message.
pub open spec fn outgoing(to: Seq<char>, subject: Seq<char>, html: Seq<char>, text: Seq<char>, m: OutgoingEmail) -> bool {
    m.to@ == to && m.subject@ == subject && m.html_body@ == html && m.text_body@ == text
}

/// `{{key}}`.
pub open spec fn placeholder(key: Seq<char>) -> Seq<char> {
    "{{"@ + key + "}}"@
}

/// `template` with the placeholder of each variable replaced by its value, the
/// variables taken in order.
pub open spec fn substituted(template: Seq<char>, vars: Seq<(Seq<char>, Seq<char>)>) -> Seq<char>
    decreases vars.len(),
{
    if vars.len() == 0 {
        template
    } else {
        substituted(replaced(template, placeholder(vars[0].0), vars[0].1), vars.skip(1))
    }
}

/// No two templates share a name.
pub open spec fn unique_names(ts: Seq<TemplateView>) -> bool {
    forall|i: int, j: int|
        0 <= i < ts.len() && 0 <= j < ts.len() && i != j ==> #[trigger] ts[i].name != #[trigger] ts[j].name
}

/// Some template is called `name`.
pub open spec fn has_template(ts: Seq<TemplateView>, name: Seq<char>) -> bool {
    exists|i: int| 0 <= i < ts.len() && #[trigger] ts[i].name == name
}

/// The position of the template called `name`.
pub open spec fn template_index(ts: Seq<TemplateView>, name: Seq<char>) -> int {
    choose|i: int| 0 <= i < ts.len() && #[trigger] ts[i].name == name
}

/// The template called `name`, if any.
pub open spec fn find_template(ts: Seq<TemplateView>, name: Seq<char>) -> Option<TemplateView> {
    if has_template(ts, name) {
        Some(ts[template_index(ts, name)])
    } else {
        None
    }
}

/// The templates after storing `t`: it replaces the template of the same name, or is added.
pub open spec fn with_template(ts: Seq<TemplateView>, t: TemplateView) -> Seq<TemplateView> {
    if has_template(ts, t.name) {
        ts.update(template_index(ts, t.name), t)
    } else {
        ts.push(t)
    }
}

/// `l` is the first log entry with id `id`.
pub open spec fn is_first_log(ls: Seq<LogView>, id: Seq<char>, i: int) -> bool {
    &&& 0 <= i < ls.len()
    &&& ls[i].id == id
    &&& forall|j: int| 0 <= j < i ==> (#[trigger] ls[j]).id != id
}

/// A log entry once its delivery is known: sent, or failed with the transport's message.
pub open spec fn settled(l: LogView, delivery: Result<(), Seq<char>>) -> LogView {
    match delivery {
        Ok(_) => LogView {
            id: l.id,
            timestamp: l.timestamp,
            to: l.to,
            subject: l.subject,
            template: l.template,
            status: EmailStatus::Sent,
            error: l.error,
        },
        Err(e) => LogView {
            id: l.id,
            timestamp: l.timestamp,
            to: l.to,
            subject: l.subject,
            template: l.template,
            status: EmailStatus::Failed,
            error: Some(e),
        },
    }
}

/// Why a message was not delivered: the mail transport refused it, or it never reached
/// the transport (an address that does not parse, a message that cannot be built, a
/// relay that cannot be set up).
#[derive(Debug, Clone)]
pub enum DeliveryError {
    Transport(String),
    NotSent(String),
}

/// The view of an outcome that reached the transport.
pub open spec fn delivery_view(d: Result<(), DeliveryError>) -> Result<(), Seq<char>> {
    match d {
        Err(DeliveryError::Transport(e)) => Err(e@),
        _ => Ok(()),
    }
}

/// The built-in alarm notification template.
pub open spec fn alarm_notification_template() -> TemplateView {
    TemplateView {
        name: "alarm_notification"@,
        subject: "🚨 Nexus Alarm: {{alarm_name}}"@,
        html_body: ALARM_NOTIFICATION_HTML@,
        text_body: ALARM_NOTIFICATION_TEXT@,
        variables: seq![
            "alarm_name"@,
            "severity"@,
            "timestamp"@,
            "location"@,
            "equipment"@,
            "value"@,
            "threshold"@,
            "units"@,
            "message"@,
        ],
    }
}

/// The built-in daily system report template.
pub open spec fn system_report_template() -> TemplateView {
    TemplateView {
        name: "system_report"@,
        subject: "📊 Nexus Daily System Report - {{date}}"@,
        html_body: SYSTEM_REPORT_HTML@,
        text_body: SYSTEM_REPORT_TEXT@,
        variables: seq![
            "date"@,
            "runtime_hours"@,
            "energy_kwh"@,
            "efficiency"@,
            "alarm_count"@,
            "cycles"@,
            "uptime"@,
            "alarm_list"@,
            "maintenance_list"@,
        ],
    }
}

/// The built-in welcome template for new users.
pub open spec fn user_welcome_template() -> TemplateView {
    TemplateView {
        name: "user_welcome"@,
        subject: "Welcome to Automata Nexus AI"@,
        html_body: USER_WELCOME_HTML@,
        text_body: USER_WELCOME_TEXT@,
        variables: seq!["username"@, "role"@, "access_level"@, "login_url"@],
    }
}

/// The templates a new service starts with.
pub open spec fn default_templates() -> Seq<TemplateView> {
    seq![alarm_notification_template(), system_report_template(), user_welcome_template()]
}

/// A list of strings from literals.
fn strings(v: Vec<&str>) -> (r: Vec<String>)
    ensures
        r@.len() == v@.len(),
        forall|i: int| 0 <= i < v@.len() ==> #[trigger] r@[i]@ == v@[i]@,
{
    let mut r: Vec<String> = Vec::new();
    let mut i: usize = 0;
    while i < v.len()
        invariant
            i <= v@.len(),
            r@.len() == i,
            forall|j: int| 0 <= j < i ==> #[trigger] r@[j]@ == v@[j]@,
        decreases v@.len() - i,
    {
        r.push(owned(v[i]));
        i = i + 1;
    }
    r
}

fn alarm_notification() -> (t: EmailTemplate)
    ensures
        t@ == alarm_notification_template(),
{
    let variables = strings(
        vec![
            "alarm_name",
            "severity",
            "timestamp",
            "location",
            "equipment",
            "value",
            "threshold",
            "units",
            "message",
        ],
    );
    let t = EmailTemplate {
        name: owned("alarm_notification"),
        subject: owned("🚨 Nexus Alarm: {{alarm_name}}"),
        html_body: owned(ALARM_NOTIFICATION_HTML),
        text_body: owned(ALARM_NOTIFICATION_TEXT),
        variables,
    };
    assert(t@.variables =~= alarm_notification_template().variables);
    t
}

fn system_report() -> (t: EmailTemplate)
    ensures
        t@ == system_report_template(),
{
    let variables = strings(
        vec![
            "date",
            "runtime_hours",
            "energy_kwh",
            "efficiency",
            "alarm_count",
            "cycles",
            "uptime",
            "alarm_list",
            "maintenance_list",
        ],
    );
    let t = EmailTemplate {
        name: owned("system_report"),
        subject: owned("📊 Nexus Daily System Report - {{date}}"),
        html_body: owned(SYSTEM_REPORT_HTML),
        text_body: owned(SYSTEM_REPORT_TEXT),
        variables,
    };
    assert(t@.variables =~= system_report_template().variables);
    t
}

fn user_welcome() -> (t: EmailTemplate)
    ensures
        t@ == user_welcome_template(),
{
    let variables = strings(vec!["username", "role", "access_level", "login_url"]);
    let t = EmailTemplate {
        name: owned("user_welcome"),
        subject: owned("Welcome to Automata Nexus AI"),
        html_body: owned(USER_WELCOME_HTML),
        text_body: owned(USER_WELCOME_TEXT),
        variables,
    };
    assert(t@.variables =~= user_welcome_template().variables);
    t
}

/// Templates, rendering and the delivery log of the mail service.
pub struct EmailService {
    config: EmailConfig,
    templates: Vec<EmailTemplate>,
    logs: Vec<EmailLog>,
}

impl EmailService {
    /// The SMTP settings.
    pub closed spec fn config(&self) -> EmailConfig {
        self.config
    }

    /// The stored templates.
    pub closed spec fn templates(&self) -> Seq<TemplateView> {
        self.templates@.map_values(|t: EmailTemplate| t@)
    }

    /// The delivery log, oldest first.
    pub closed spec fn logs(&self) -> Seq<LogView> {
        self.logs@.map_values(|l: EmailLog| l@)
    }

    /// Template names are unique.
    pub open spec fn wf(&self) -> bool {
        unique_names(self.templates())
    }

    /// A service with the built-in templates and an empty log.
    pub fn new(config: EmailConfig) -> (s: EmailService)
        ensures
            s.wf(),
            s.config() == config,
            s.templates() == default_templates(),
            s.logs() == Seq::<LogView>::empty(),
    {
        let mut templates: Vec<EmailTemplate> = Vec::new();
        templates.push(alarm_notification());
        templates.push(system_report());
        templates.push(user_welcome());
        let s = EmailService { config, templates, logs: Vec::new() };
        proof {
            reveal_strlit("alarm_notification");
            reveal_strlit("system_report");
            reveal_strlit("user_welcome");
            assert(s.templates() =~= default_templates());
            assert("alarm_notification"@.len() == 18);
            assert("system_report"@.len() == 13);
            assert("user_welcome"@.len() == 12);
            assert(s.logs() =~= Seq::<LogView>::empty());
        }
        s
    }

    /// The SMTP settings.
    pub fn smtp_config(&self) -> (c: &EmailConfig)
        ensures
            *c == self.config(),
    {
        &self.config
    }

    /// `template` with each variable's placeholder replaced by its value.
    pub fn replace_variables(&self, template: &str, variables: &Vec<(String, String)>) -> (r: String)
        ensures
            r@ == substituted(template@, config_view(variables@)),
    {
        let ghost vars = config_view(variables@);
        let mut result = owned(template);
        let mut i: usize = 0;
        assert(vars.skip(0) =~= vars);
        while i < variables.len()
            invariant
                vars == config_view(variables@),
                i <= variables@.len(),
                substituted(result@, vars.skip(i as int)) == substituted(template@, vars),
            decreases variables@.len() - i,
        {
            proof {
                reveal_strlit("{{");
                reveal_strlit("}}");
            }
            let mut pat = owned("{{");
            append_str(&mut pat, variables[i].0.as_str());
            append_str(&mut pat, "}}");
            let next = replace_all(result.as_str(), pat.as_str(), variables[i].1.as_str());
            assert(vars.skip(i as int).skip(1) =~= vars.skip(i + 1));
            assert(vars.skip(i as int)[0] == vars[i as int]);
            result = next;
            i = i + 1;
        }
        result
    }

    /// The message `template_name` gives for `variables`, addressed to `to`; an error
    /// when there is no such template.
    pub fn render_template(&self, to: &str, template_name: &str, variables: &Vec<(String, String)>) -> (r: Result<OutgoingEmail, String>)
        requires
            self.wf(),
        ensures
            match find_template(self.templates(), template_name@) {
                Some(t) => r matches Ok(m) && outgoing(
                    to@,
                    substituted(t.subject, config_view(variables@)),
                    substituted(t.html_body, config_view(variables@)),
                    substituted(t.text_body, config_view(variables@)),
                    m,
                ),
                None => r matches Err(e) && e@ == "Template not found: "@ + template_name@,
            },
    {
        match self.get_template(template_name) {
            Some(t) => {
                let subject = self.replace_variables(t.subject.as_str(), variables);
                let html_body = self.replace_variables(t.html_body.as_str(), variables);
                let text_body = self.replace_variables(t.text_body.as_str(), variables);
                Ok(OutgoingEmail { to: owned(to), subject, html_body, text_body })
            },
            None => {
                let mut e = owned("Template not found: ");
                append_str(&mut e, template_name);
                Err(e)
            },
        }
    }

    /// The sender, `"{from_name} <{from_email}>"`.
    pub fn sender(&self) -> (f: String)
        ensures
            f@ == self.config().from_name@ + " <"@ + self.config().from_email@ + ">"@,
    {
        let mut f = self.config.from_name.clone();
        append_str(&mut f, " <");
        append_str(&mut f, self.config.from_email.as_str());
        append_str(&mut f, ">");
        f
    }

    /// The message that tests the mail settings: sent to the sender's own address.
    pub fn test_message(&self) -> (m: OutgoingEmail)
        ensures
            outgoing(
                self.config().from_email@,
                "Nexus Email Test"@,
                "<h1>Test Email</h1><p>This is a test email from Automata Nexus.</p>"@,
                "Test Email\n\nThis is a test email from Automata Nexus."@,
                m,
            ),
    {
        OutgoingEmail {
            to: self.config.from_email.clone(),
            subject: owned("Nexus Email Test"),
            html_body: owned("<h1>Test Email</h1><p>This is a test email from Automata Nexus.</p>"),
            text_body: owned("Test Email\n\nThis is a test email from Automata Nexus."),
        }
    }

    /// Logs a message to `to` about to be sent at `now` as pending, under a fresh
    /// random id, which is returned.
    pub fn record_pending(&mut self, to: &str, subject: &str, now: i64) -> (id: String)
        ensures
            id@.len() == 36,
            final(self).config() == old(self).config(),
            final(self).templates() == old(self).templates(),
            final(self).logs() == old(self).logs().push(
                LogView {
                    id: id@,
                    timestamp: now,
                    to: to@,
                    subject: subject@,
                    template: None,
                    status: EmailStatus::Pending,
                    error: None,
                },
            ),
    {
        let id = new_uuid_string();
        let entry = EmailLog {
            id: id.clone(),
            timestamp: now,
            to: owned(to),
            subject: owned(subject),
            template: None,
            status: EmailStatus::Pending,
            error: None,
        };
        self.logs.push(entry);
        assert(self.logs() =~= old(self).logs().push(self.logs@.last()@));
        id
    }

    /// Records how the delivery of the message logged under `id` went, on the first
    /// entry with that id: sent, or failed with the transport's error. A message that
    /// never reached the transport leaves its entry pending, with no error. A failure is
    /// also returned as an error.
    pub fn record_outcome(&mut self, id: &str, delivery: Result<(), DeliveryError>) -> (r: Result<(), String>)
        ensures
            final(self).config() == old(self).config(),
            final(self).templates() == old(self).templates(),
            delivery matches Err(DeliveryError::NotSent(_)) ==> final(self).logs() == old(self).logs(),
            !(delivery matches Err(DeliveryError::NotSent(_))) ==> (exists|i: int| is_first_log(old(self).logs(), id@, i)
                && final(self).logs() == old(self).logs().update(i, settled(old(self).logs()[i], delivery_view(delivery))))
            || ((forall|j: int| 0 <= j < old(self).logs().len() ==> (#[trigger] old(self).logs()[j]).id != id@)
                && final(self).logs() == old(self).logs()),
            match delivery {
                Ok(_) => r is Ok,
                Err(DeliveryError::Transport(e)) => r matches Err(m) && m@ == "Failed to send email: "@ + e@,
                Err(DeliveryError::NotSent(e)) => r matches Err(m) && m@ == e@,
            },
    {
        if let Err(DeliveryError::NotSent(e)) = delivery {
            return Err(e);
        }
        let ghost ls = old(self).logs();
        let mut i: usize = 0;
        while i < self.logs.len()
            invariant
                ls == self.logs(),
                self.logs == old(self).logs,
                self.config == old(self).config,
                self.templates == old(self).templates,
                i <= self.logs@.len(),
                forall|j: int| 0 <= j < i ==> (#[trigger] ls[j]).id != id@,
            ensures
                i <= self.logs@.len(),
                i < self.logs@.len() ==> ls[i as int].id == id@,
                forall|j: int| 0 <= j < i ==> (#[trigger] ls[j]).id != id@,
            decreases self.logs@.len() - i,
        {
            assert(ls[i as int] == self.logs@[i as int]@);
            if same_text(self.logs[i].id.as_str(), id) {
                assert(ls[i as int].id == id@);
                break;
            }
            i = i + 1;
        }
        if i < self.logs.len() {
            let mut entry = self.logs[i].duplicate();
            match &delivery {
                Err(DeliveryError::Transport(e)) => {
                    entry.status = EmailStatus::Failed;
                    entry.error = Some(e.clone());
                },
                _ => {
                    entry.status = EmailStatus::Sent;
                },
            }
            self.logs.set(i, entry);
            assert(is_first_log(ls, id@, i as int));
            assert(self.logs() =~= ls.update(i as int, settled(ls[i as int], delivery_view(delivery))));
        } else {
            assert(forall|j: int| 0 <= j < ls.len() ==> (#[trigger] ls[j]).id != id@);
        }
        match delivery {
            Err(DeliveryError::Transport(e)) => {
                let mut m = owned("Failed to send email: ");
                append_str(&mut m, e.as_str());
                Err(m)
            },
            Err(DeliveryError::NotSent(e)) => Err(e),
            Ok(_) => Ok(()),
        }
    }

    /// The last `limit` log entries (all of them when there are fewer), oldest first.
    pub fn get_logs(&self, limit: usize) -> (r: Vec<EmailLog>)
        ensures
            r@.map_values(|l: EmailLog| l@) == self.logs().skip(
                if self.logs().len() > limit { self.logs().len() - limit } else { 0 },
            ),
    {
        let n = self.logs.len();
        let start = if n > limit { n - limit } else { 0 };
        let mut r: Vec<EmailLog> = Vec::new();
        let mut i = start;
        while i < n
            invariant
                n == self.logs@.len(),
                start <= i <= n,
                r@.len() == i - start,
                forall|j: int| 0 <= j < r@.len() ==> #[trigger] r@[j]@ == self.logs@[start + j]@,
            decreases n - i,
        {
            r.push(self.logs[i].duplicate());
            i = i + 1;
        }
        assert(r@.map_values(|l: EmailLog| l@) =~= self.logs().skip(start as int));
        r
    }

    /// The template called `name`, if any.
    pub fn get_template(&self, name: &str) -> (r: Option<&EmailTemplate>)
        requires
            self.wf(),
        ensures
            match r {
                Some(t) => find_template(self.templates(), name@) == Some(t@),
                None => find_template(self.templates(), name@) is None,
            },
    {
        let ghost ts = self.templates();
        let mut i: usize = 0;
        while i < self.templates.len()
            invariant
                ts == self.templates(),
                unique_names(ts),
                i <= self.templates@.len(),
                forall|j: int| 0 <= j < i ==> (#[trigger] ts[j]).name != name@,
            decreases self.templates@.len() - i,
        {
            assert(ts[i as int] == self.templates@[i as int]@);
            let found = same_text(self.templates[i].name.as_str(), name);
            if found {
                assert(self.templates@[i as int].name@ == name@);
                assert(ts[i as int].name == name@);
                assert(has_template(ts, name@));
                assert(template_index(ts, name@) == i);
                return Some(&self.templates[i]);
            }
            i = i + 1;
        }
        None
    }

    /// Stores `template`, replacing the template of the same name.
    pub fn update_template(&mut self, template: EmailTemplate)
        requires
            old(self).wf(),
        ensures
            final(self).wf(),
            final(self).config() == old(self).config(),
            final(self).logs() == old(self).logs(),
            final(self).templates() == with_template(old(self).templates(), template@),
    {
        let ghost ts = self.templates();
        let ghost tv = template@;
        let mut i: usize = 0;
        while i < self.templates.len()
            invariant
                ts == self.templates(),
                self.templates == old(self).templates,
                self.logs == old(self).logs,
                self.config == old(self).config,
                tv == template@,
                unique_names(ts),
                i <= self.templates@.len(),
                forall|j: int| 0 <= j < i ==> (#[trigger] ts[j]).name != tv.name,
            ensures
                i <= self.templates@.len(),
                i < self.templates@.len() ==> ts[i as int].name == tv.name,
                forall|j: int| 0 <= j < i ==> (#[trigger] ts[j]).name != tv.name,
            decreases self.templates@.len() - i,
        {
            assert(ts[i as int] == self.templates@[i as int]@);
            if same_text(self.templates[i].name.as_str(), template.name.as_str()) {
                assert(ts[i as int].name == tv.name);
                break;
            }
            i = i + 1;
        }
        if i < self.templates.len() {
            assert(ts[i as int].name == tv.name);
            assert(has_template(ts, tv.name));
            assert(template_index(ts, tv.name) == i);
            self.templates.set(i, template);
            assert(self.templates() =~= ts.update(i as int, tv));
        } else {
            assert(!has_template(ts, tv.name));
            self.templates.push(template);
            assert(self.templates() =~= ts.push(tv));
        }
    }

    /// Copies of all stored templates.
    pub fn get_templates(&self) -> (r: Vec<EmailTemplate>)
        ensures
            r@.map_values(|t: EmailTemplate| t@) == self.templates(),
    {
        let mut r: Vec<EmailTemplate> = Vec::new();
        let mut i: usize = 0;
        while i < self.templates.len()
            invariant
                i <= self.templates@.len(),
                r@.len() == i,
                forall|j: int| 0 <= j < i ==> #[trigger] r@[j]@ == self.templates@[j]@,
            decreases self.templates@.len() - i,
        {
            r.push(self.templates[i].duplicate());
            i = i + 1;
        }
        assert(r@.map_values(|t: EmailTemplate| t@) =~= self.templates());
        r
    }
}

/// Storing a template and then looking up a name gives the stored template for its own
/// name and what was there before for every other name.
pub proof fn law_template_read_after_write(ts: Seq<TemplateView>, t: TemplateView, name: Seq<char>)
    requires
        unique_names(ts),
    ensures
        unique_names(with_template(ts, t)),
        find_template(with_template(ts, t), name) == if name == t.name {
            Some(t)
        } else {
            find_template(ts, name)
        },
{
    let us = with_template(ts, t);
    if has_template(ts, t.name) {
        let k = template_index(ts, t.name);
        assert(us[k] == t);
    } else {
        assert(us[ts.len() as int] == t);
    }
    if name == t.name {
        assert(has_template(us, name));
    } else if has_template(ts, name) {
        let k = template_index(ts, name);
        assert(us[k] == ts[k]);
        assert(has_template(us, name));
    } else {
        assert(!has_template(us, name));
    }
}

/// A message logged as pending under an id the log did not hold is the entry its
/// outcome settles: recording the outcome changes the new last entry and nothing else.
pub proof fn law_outcome_settles_pending_entry(ls: Seq<LogView>, entry: LogView, delivery: Result<(), Seq<char>>)
    requires
        forall|j: int| 0 <= j < ls.len() ==> (#[trigger] ls[j]).id != entry.id,
    ensures
        is_first_log(ls.push(entry), entry.id, ls.len() as int),
        forall|i: int| is_first_log(ls.push(entry), entry.id, i) ==> i == ls.len(),
        ls.push(entry).update(ls.len() as int, settled(entry, delivery)) == ls.push(settled(entry, delivery)),
{
    let ps = ls.push(entry);
    assert forall|j: int| 0 <= j < ls.len() implies (#[trigger] ps[j]).id != entry.id by {
        assert(ps[j] == ls[j]);
    }
    assert forall|i: int| is_first_log(ps, entry.id, i) implies i == ls.len() by {
        if i < ls.len() {
            assert(ps[i] == ls[i]);
        }
    }
    assert(ps.update(ls.len() as int, settled(entry, delivery)) =~= ls.push(settled(entry, delivery)));
}

/// A text in which a non-empty pattern does not occur is left as it is by replacing it.
pub proof fn lemma_replaced_absent(s: Seq<char>, p: Seq<char>, r: Seq<char>)
    requires
        p.len() > 0,
        !crate::text::contains_text(s, p),
    ensures
        replaced(s, p, r) == s,
    decreases s.len(),
{
    if s.len() >= p.len() {
        if s.take(p.len() as int) == p {
            assert(crate::text::occurs_at(s, p, 0)) by {
                assert(s.subrange(0, p.len() as int) =~= s.take(p.len() as int));
            }
        } else {
            let t = s.skip(1);
            assert forall|i: int| !crate::text::occurs_at(t, p, i) by {
                if crate::text::occurs_at(t, p, i) {
                    assert(s.subrange(i + 1, i + 1 + p.len()) =~= t.subrange(i, i + p.len()));
                    assert(crate::text::occurs_at(s, p, i + 1));
                }
            }
            lemma_replaced_absent(t, p, r);
            assert(seq![s[0]] + t =~= s);
        }
    }
}

/// Law: a variable whose placeholder does not occur in the template changes nothing,
/// and the variables after it are still applied: rendering with it in front gives what
/// rendering without it gives.
pub proof fn law_absent_variable_changes_nothing(
    template: Seq<char>,
    key: Seq<char>,
    value: Seq<char>,
    rest: Seq<(Seq<char>, Seq<char>)>,
)
    requires
        !crate::text::contains_text(template, placeholder(key)),
    ensures
        substituted(template, seq![(key, value)] + rest) == substituted(template, rest),
{
    reveal_strlit("{{");
    let vars = seq![(key, value)] + rest;
    assert(vars[0] == (key, value));
    assert(vars.skip(1) =~= rest);
    lemma_replaced_absent(template, placeholder(key), value);
}

/// Law: the variables are applied one after the other, each to the text the earlier
/// ones left: rendering with `first` then `second` is rendering with `first` and then
/// rendering the result with `second`.
pub proof fn law_variables_apply_in_turn(
    template: Seq<char>,
    first: Seq<(Seq<char>, Seq<char>)>,
    second: Seq<(Seq<char>, Seq<char>)>,
)
    ensures
        substituted(template, first + second) == substituted(substituted(template, first), second),
    decreases first.len(),
{
    if first.len() == 0 {
        assert(first + second =~= second);
    } else {
        let t1 = replaced(template, placeholder(first[0].0), first[0].1);
        assert((first + second)[0] == first[0]);
        assert((first + second).skip(1) =~= first.skip(1) + second);
        law_variables_apply_in_turn(t1, first.skip(1), second);
    }
}

/// Law: one variable replaces every occurrence of its placeholder, as `str::replace`
/// does, whether or not others came before it.
pub proof fn law_one_variable_is_replace(template: Seq<char>, key: Seq<char>, value: Seq<char>)
    ensures
        substituted(template, seq![(key, value)]) == replaced(template, placeholder(key), value),
{
    let vars = seq![(key, value)];
    let r = replaced(template, placeholder(key), value);
    assert(vars.skip(1) =~= Seq::<(Seq<char>, Seq<char>)>::empty());
    assert(substituted(r, Seq::<(Seq<char>, Seq<char>)>::empty()) == r);
    assert(substituted(template, vars) == substituted(r, vars.skip(1)));
}

} // verus!
