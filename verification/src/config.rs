//! Configuration: default paths, board and protocol settings, and the defaults the
//! controller falls back to.
use vstd::prelude::*;
use crate::text::{append_chars, append_str, chars_of, owned};

verus! {

/// The main configuration file.
pub const DEFAULT_CONFIG_PATH: &'static str = "/etc/nexus/config.json";

/// The metrics database.
pub const DEFAULT_DATABASE_PATH: &'static str = "/var/lib/nexus/nexus.db";

/// The log directory.
pub const DEFAULT_LOG_PATH: &'static str = "/var/log/nexus";

/// The backup directory.
pub const DEFAULT_BACKUP_PATH: &'static str = "/var/backups/nexus";

/// The settings of one I/O board.
#[derive(Debug, Clone)]
pub struct BoardConfig {
    pub enabled: bool,
    pub name: String,
    pub board_type: String,
    pub address: u8,
    pub port: Option<String>,
    pub polling_interval_ms: u32,
}

/// The settings of the building-automation protocols.
#[derive(Debug, Clone)]
pub struct ProtocolConfig {
    pub bacnet: BacnetConfig,
    pub modbus: ModbusConfig,
    pub knx: KnxConfig,
}

/// BACnet device settings.
#[derive(Debug, Clone)]
pub struct BacnetConfig {
    pub enabled: bool,
    pub device_id: u32,
    pub device_name: String,
    pub port: u16,
    pub max_masters: u8,
    pub max_info_frames: u8,
}

/// Modbus settings.
#[derive(Debug, Clone)]
pub struct ModbusConfig {
    pub tcp_enabled: bool,
    pub tcp_port: u16,
    pub rtu_enabled: bool,
    pub rtu_ports: Vec<String>,
    pub default_timeout_ms: u32,
}

/// KNX settings.
#[derive(Debug, Clone)]
pub struct KnxConfig {
    pub enabled: bool,
    pub interface_type: String,
    pub gateway_ip: Option<String>,
    pub gateway_port: Option<u16>,
}

/// `i` is the position of the last `c` in `s`.
pub open spec fn is_last_index(s: Seq<char>, c: char, i: int) -> bool {
    0 <= i < s.len() && s[i] == c && forall|j: int| i < j < s.len() ==> s[j] != c
}

/// `s.rsplit_once(c)`: the text before and after the last `c`, if `s` has one.
pub open spec fn split_at_last(s: Seq<char>, c: char) -> Option<(Seq<char>, Seq<char>)> {
    if exists|i: int| is_last_index(s, c, i) {
        let i = choose|i: int| is_last_index(s, c, i);
        Some((s.take(i), s.skip(i + 1)))
    } else {
        None
    }
}

/// `s.rsplit_once(c)`.
pub fn rsplit_once(s: &str, c: char) -> (r: Option<(String, String)>)
    ensures
        match r {
            Some((a, b)) => split_at_last(s@, c) == Some((a@, b@)),
            None => split_at_last(s@, c) is None,
        },
{
    let v = chars_of(s);
    let mut i: usize = v.len();
    while i > 0
        invariant
            v@ == s@,
            i <= v@.len(),
            forall|j: int| i <= j < v@.len() ==> v@[j] != c,
        decreases i,
    {
        if v[i - 1] == c {
            let k = i - 1;
            assert(is_last_index(s@, c, k as int));
            assert forall|m: int| is_last_index(s@, c, m) implies m == k by {
                if m < k {
                    assert(!is_last_index(s@, c, m));
                }
            }
            let mut a = String::new();
            append_chars(&mut a, &v, 0, k);
            let mut b = String::new();
            append_chars(&mut b, &v, k + 1, v.len());
            assert(a@ =~= s@.take(k as int));
            assert(b@ =~= s@.skip(k + 1));
            return Some((a, b));
        }
        i = i - 1;
    }
    assert(!exists|m: int| is_last_index(s@, c, m));
    None
}

/// The directory of the configuration files.
pub fn config_dir() -> (d: String)
    ensures
        d@ == "/etc/nexus"@,
{
    proof {
        reveal_strlit("/etc/nexus/config.json");
        reveal_strlit("/etc/nexus");
    }
    let d = match rsplit_once(DEFAULT_CONFIG_PATH, '/') {
        Some((dir, _file)) => dir,
        None => owned("/etc/nexus"),
    };
    proof {
        let s = DEFAULT_CONFIG_PATH@;
        assert(is_last_index(s, '/', 10));
        assert forall|m: int| is_last_index(s, '/', m) implies m == 10 by {
            if m < 10 {
                assert(!is_last_index(s, '/', m));
            }
        }
        assert(s.take(10) =~= "/etc/nexus"@);
    }
    d
}

/// The board configuration file.
pub fn boards_config_path() -> (p: String)
    ensures
        p@ == "/etc/nexus/boards.json"@,
{
    proof {
        reveal_strlit("/etc/nexus");
        reveal_strlit("/boards.json");
        reveal_strlit("/etc/nexus/boards.json");
    }
    let mut p = config_dir();
    append_str(&mut p, "/boards.json");
    assert(p@ =~= "/etc/nexus/boards.json"@);
    p
}

/// The contents of a [`BoardConfig`].
pub struct BoardConfigView {
    pub enabled: bool,
    pub name: Seq<char>,
    pub board_type: Seq<char>,
    pub address: u8,
    pub port: Option<Seq<char>>,
    pub polling_interval_ms: u32,
}

impl View for BoardConfig {
    type V = BoardConfigView;

    open spec fn view(&self) -> BoardConfigView {
        BoardConfigView {
            enabled: self.enabled,
            name: self.name@,
            board_type: self.board_type@,
            address: self.address,
            port: match self.port {
                Some(p) => Some(p@),
                None => None,
            },
            polling_interval_ms: self.polling_interval_ms,
        }
    }
}

/// The boards assumed when no board configuration file exists: the MegaBAS at `0x48`
/// and the building-automation board at `0x50`, both enabled and polled every second.
pub open spec fn default_board_configs_view() -> Seq<BoardConfigView> {
    seq![
        BoardConfigView {
            enabled: true,
            name: "Megabas I/O Board"@,
            board_type: "megabas"@,
            address: 0x48,
            port: None,
            polling_interval_ms: 1000,
        },
        BoardConfigView {
            enabled: true,
            name: "Building Automation"@,
            board_type: "building_automation"@,
            address: 0x50,
            port: None,
            polling_interval_ms: 1000,
        },
    ]
}

/// The board configurations: those read from the configuration file, or the defaults
/// when there is no file.
pub fn load_board_configs(from_file: Option<Vec<BoardConfig>>) -> (r: Vec<BoardConfig>)
    ensures
        match from_file {
            Some(v) => r@ == v@,
            None => r@.map_values(|b: BoardConfig| b@) == default_board_configs_view(),
        },
{
    match from_file {
        Some(v) => v,
        None => {
            let r = vec![
                BoardConfig {
                    enabled: true,
                    name: owned("Megabas I/O Board"),
                    board_type: owned("megabas"),
                    address: 0x48,
                    port: None,
                    polling_interval_ms: 1000,
                },
                BoardConfig {
                    enabled: true,
                    name: owned("Building Automation"),
                    board_type: owned("building_automation"),
                    address: 0x50,
                    port: None,
                    polling_interval_ms: 1000,
                },
            ];
            assert(r@.map_values(|b: BoardConfig| b@) =~= default_board_configs_view());
            r
        },
    }
}

/// The e-mail settings of the application.
#[derive(Debug, Clone)]
pub struct EmailSettings {
    pub enabled: bool,
    pub smtp_server: String,
    pub smtp_port: u16,
    pub username: String,
    pub password: String,
    pub from_address: String,
    pub alert_recipients: Vec<String>,
}

/// How alarms are announced.
#[derive(Debug, Clone, Copy, PartialEq, Eq, Structural)]
pub struct AlarmSettings {
    pub email_alerts: bool,
    pub sms_alerts: bool,
    pub push_notifications: bool,
    pub alarm_delay_seconds: u32,
    pub repeat_interval_minutes: u32,
}

/// The e-mail settings used when no configuration file exists: disabled, Gmail's SMTP
/// server on port 587, sender `nexus@automata.ai`, no credentials and no recipients.
pub fn default_email_settings() -> (s: EmailSettings)
    ensures
        !s.enabled,
        s.smtp_server@ == "smtp.gmail.com"@,
        s.smtp_port == 587,
        s.username@ == Seq::<char>::empty(),
        s.password@ == Seq::<char>::empty(),
        s.from_address@ == "nexus@automata.ai"@,
        s.alert_recipients@ == Seq::<String>::empty(),
{
    EmailSettings {
        enabled: false,
        smtp_server: owned("smtp.gmail.com"),
        smtp_port: 587,
        username: String::new(),
        password: String::new(),
        from_address: owned("nexus@automata.ai"),
        alert_recipients: Vec::new(),
    }
}

/// The alarm settings used when no configuration file exists: e-mail alerts only,
/// after 30 seconds, repeated every 15 minutes.
pub fn default_alarm_settings() -> (s: AlarmSettings)
    ensures
        s == (AlarmSettings {
            email_alerts: true,
            sms_alerts: false,
            push_notifications: false,
            alarm_delay_seconds: 30,
            repeat_interval_minutes: 15,
        }),
{
    AlarmSettings {
        email_alerts: true,
        sms_alerts: false,
        push_notifications: false,
        alarm_delay_seconds: 30,
        repeat_interval_minutes: 15,
    }
}

} // verus!
