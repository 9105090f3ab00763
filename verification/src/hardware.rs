//! The firmware command line: the argument lists of each hardware request and the
//! reading of the values it prints.
use vstd::prelude::*;
use crate::boards::{append_volts, volts_text};
use crate::text::{
    append_decimal, contains, contains_text, decimal, first_piece, first_piece_of, last_word,
    last_word_of, owned, parse_unsigned, parsed_unsigned, second_piece, second_piece_of, trim,
    trimmed,
};

verus! {

/// Access to the boards through the firmware command-line interface.
#[derive(Clone)]
pub struct HardwareInterface {
    firmware_interface_path: String,
}

/// A board as the firmware interface's `scan` reports it.
#[derive(Debug, Clone)]
pub struct BoardInfo {
    pub board_type: String,
    pub stack: u8,
    pub name: String,
    pub version: String,
    pub status: String,
}

/// The shell pipeline that prints the CPU usage, in percent, from `top`.
pub const CPU_USAGE_COMMAND: &'static str = "top -bn1 | grep 'Cpu(s)' | awk '{print $2}' | cut -d'%' -f1";

/// The query for the active alarms, newest first.
pub const ACTIVE_ALARMS_QUERY: &'static str = "SELECT id, alarm_type, source, message, severity, created_at FROM alarms WHERE is_active = 1 ORDER BY created_at DESC";

/// The views of a list of strings.
pub open spec fn args_view(v: Seq<String>) -> Seq<Seq<char>> {
    v.map_values(|s: String| s@)
}

fn number(n: u64) -> (s: String)
    ensures
        s@ == decimal(n as nat),
{
    let mut s = String::new();
    append_decimal(&mut s, n);
    assert(s@ =~= decimal(n as nat));
    s
}

/// The number of days in an `uptime` text: the last word before the first ` day`
/// (`0` when there is none), or nothing when the text has no ` day`.
pub open spec fn uptime_days_text(u: Seq<char>) -> Option<Seq<char>> {
    if contains_text(u, " day"@) {
        Some(
            match last_word(first_piece(u, " day"@)) {
                Some(w) => w,
                None => "0"@,
            },
        )
    } else {
        None
    }
}


/// The number a text holds once trimmed (at most `u32::MAX`), or 0 when it holds none.
pub open spec fn number_or_zero(t: Seq<char>) -> nat {
    match parsed_unsigned(trimmed(t), u32::MAX as nat) {
        Some(n) => n,
        None => 0,
    }
}

/// The field of an `uptime` text that gives the hours and minutes past the days:
/// after the days, the field up to the next comma; without days, the field after `up `.
pub open spec fn uptime_clock_text(u: Seq<char>) -> Option<Seq<char>> {
    if contains_text(u, " day"@) {
        second_piece(u, ","@)
    } else {
        match second_piece(u, "up "@) {
            Some(r) => Some(first_piece(r, ","@)),
            None => None,
        }
    }
}

/// The minutes an uptime clock field gives: `H:MM` is `H` hours and `MM` minutes,
/// `M min` is `M` minutes; anything else is none.
pub open spec fn clock_minutes(t: Seq<char>) -> nat {
    if contains_text(t, ":"@) {
        number_or_zero(first_piece(t, ":"@)) * 60 + match second_piece(t, ":"@) {
            Some(m) => number_or_zero(m),
            None => 0,
        }
    } else if contains_text(t, " min"@) {
        number_or_zero(first_piece(t, " min"@))
    } else {
        0
    }
}

/// The whole uptime of an `uptime` text in minutes: its days and its hours and minutes
/// (a part that is missing or unreadable counts as 0).
pub open spec fn uptime_minutes_of(u: Seq<char>) -> nat {
    (match uptime_days_text(u) {
        Some(d) => number_or_zero(d),
        None => 0,
    }) * 1440 + match uptime_clock_text(u) {
        Some(t) => clock_minutes(t),
        None => 0,
    }
}

/// The number `t` holds once trimmed, or 0.
fn number_in(t: &str) -> (n: u64)
    ensures
        n == number_or_zero(t@),
        n <= u32::MAX,
{
    let w = trim(t);
    match parse_unsigned(w.as_str(), 4294967295u64) {
        Some(n) => n,
        None => 0,
    }
}

/// The minutes an uptime clock field gives.
fn clock_minutes_in(t: &str) -> (m: u64)
    ensures
        m == clock_minutes(t@),
        m <= 61 * (u32::MAX as int),
{
    proof {
        reveal_strlit(":");
        reveal_strlit(" min");
    }
    if contains(t, ":") {
        let h = number_in(first_piece_of(t, ":").as_str());
        let m = match second_piece_of(t, ":") {
            Some(r) => number_in(r.as_str()),
            None => 0,
        };
        assert(h * 60 + m <= 61 * (u32::MAX as int)) by (nonlinear_arith)
            requires
                h <= u32::MAX,
                m <= u32::MAX,
        ;
        h * 60 + m
    } else if contains(t, " min") {
        number_in(first_piece_of(t, " min").as_str())
    } else {
        0
    }
}
/// The value a Modbus read printed: its trimmed output as a 16-bit number, or 0.
pub open spec fn modbus_output_value(out: Seq<char>) -> u16 {
    match parsed_unsigned(trimmed(out), 65535) {
        Some(n) => n as u16,
        None => 0,
    }
}

impl HardwareInterface {
    /// The path of the firmware interface.
    pub closed spec fn path(&self) -> Seq<char> {
        self.firmware_interface_path@
    }

    /// An interface that runs `/usr/local/bin/nexus-firmware`.
    pub fn new() -> (h: HardwareInterface)
        ensures
            h.path() == "/usr/local/bin/nexus-firmware"@,
    {
        HardwareInterface { firmware_interface_path: owned("/usr/local/bin/nexus-firmware") }
    }

    /// The path of the firmware interface.
    pub fn firmware_interface_path(&self) -> (p: String)
        ensures
            p@ == self.path(),
    {
        self.firmware_interface_path.clone()
    }

    /// The arguments to `python3` that list the connected boards.
    pub fn scan_boards(&self) -> (a: Vec<String>)
        ensures
            args_view(a@) == seq![self.path(), "scan"@],
    {
        let a = vec![self.firmware_interface_path.clone(), owned("scan")];
        assert(args_view(a@) =~= seq![self.path(), "scan"@]);
        a
    }

    /// The arguments to `python3` that read input `channel` of a board.
    pub fn read_input(&self, board_type: &str, stack: u8, channel: u8) -> (a: Vec<String>)
        ensures
            args_view(a@) == seq![self.path(), "read_input"@, board_type@, decimal(stack as nat), decimal(channel as nat)],
    {
        let a = vec![
            self.firmware_interface_path.clone(),
            owned("read_input"),
            owned(board_type),
            number(stack as u64),
            number(channel as u64),
        ];
        assert(args_view(a@) =~= seq![self.path(), "read_input"@, board_type@, decimal(stack as nat), decimal(channel as nat)]);
        a
    }

    /// The arguments to `python3` that set output `channel` of a board to `millis`
    /// thousandths of its unit.
    pub fn write_output(&self, board_type: &str, stack: u8, channel: u8, millis: i32) -> (a: Vec<String>)
        ensures
            args_view(a@) == seq![
                self.path(),
                "set_output"@,
                board_type@,
                decimal(stack as nat),
                decimal(channel as nat),
                volts_text(millis as int),
            ],
    {
        let mut value = String::new();
        append_volts(&mut value, millis);
        let a = vec![
            self.firmware_interface_path.clone(),
            owned("set_output"),
            owned(board_type),
            number(stack as u64),
            number(channel as u64),
            value,
        ];
        assert(args_view(a@) =~= seq![
            self.path(),
            "set_output"@,
            board_type@,
            decimal(stack as nat),
            decimal(channel as nat),
            volts_text(millis as int),
        ]);
        a
    }

    /// The arguments to `python3` that switch relay `channel` of a board.
    pub fn set_relay(&self, board_type: &str, stack: u8, channel: u8, state: bool) -> (a: Vec<String>)
        ensures
            args_view(a@) == seq![
                self.path(),
                "set_relay"@,
                board_type@,
                decimal(stack as nat),
                decimal(channel as nat),
                if state { "1"@ } else { "0"@ },
            ],
    {
        let a = vec![
            self.firmware_interface_path.clone(),
            owned("set_relay"),
            owned(board_type),
            number(stack as u64),
            number(channel as u64),
            if state { owned("1") } else { owned("0") },
        ];
        assert(args_view(a@) =~= seq![
            self.path(),
            "set_relay"@,
            board_type@,
            decimal(stack as nat),
            decimal(channel as nat),
            if state { "1"@ } else { "0"@ },
        ]);
        a
    }

    /// The arguments to `python3` that set MegaBAS triac `channel` to `value`.
    pub fn set_triac(&self, stack: u8, channel: u8, value: u8) -> (a: Vec<String>)
        ensures
            args_view(a@) == seq![
                self.path(),
                "set_output"@,
                "megabas"@,
                decimal(stack as nat),
                "triac"@,
                decimal(channel as nat),
                decimal(value as nat),
            ],
    {
        let a = vec![
            self.firmware_interface_path.clone(),
            owned("set_output"),
            owned("megabas"),
            number(stack as u64),
            owned("triac"),
            number(channel as u64),
            number(value as u64),
        ];
        assert(args_view(a@) =~= seq![
            self.path(),
            "set_output"@,
            "megabas"@,
            decimal(stack as nat),
            "triac"@,
            decimal(channel as nat),
            decimal(value as nat),
        ]);
        a
    }

    /// The arguments to `python3` that read a temperature sensor.
    pub fn read_temperature(&self, sensor_type: &str, channel: u8) -> (a: Vec<String>)
        ensures
            args_view(a@) == seq![self.path(), "read_temp"@, sensor_type@, decimal(channel as nat)],
    {
        let a = vec![
            self.firmware_interface_path.clone(),
            owned("read_temp"),
            owned(sensor_type),
            number(channel as u64),
        ];
        assert(args_view(a@) =~= seq![self.path(), "read_temp"@, sensor_type@, decimal(channel as nat)]);
        a
    }

    /// The arguments to `python3` that read a vibration sensor over Modbus.
    pub fn read_vibration_sensor(&self, port: &str, sensor_id: u8) -> (a: Vec<String>)
        ensures
            args_view(a@) == seq!["/opt/nexus/read_vibration.py"@, port@, decimal(sensor_id as nat)],
    {
        let a = vec![owned("/opt/nexus/read_vibration.py"), owned(port), number(sensor_id as u64)];
        assert(args_view(a@) =~= seq!["/opt/nexus/read_vibration.py"@, port@, decimal(sensor_id as nat)]);
        a
    }

    /// The arguments to `python3` that read a Modbus register.
    pub fn read_modbus_register(&self, device: &str, register: u16) -> (a: Vec<String>)
        ensures
            args_view(a@) == seq!["/opt/nexus/modbus_reader.py"@, device@, decimal(register as nat)],
    {
        let a = vec![owned("/opt/nexus/modbus_reader.py"), owned(device), number(register as u64)];
        assert(args_view(a@) =~= seq!["/opt/nexus/modbus_reader.py"@, device@, decimal(register as nat)]);
        a
    }

    /// The register value a Modbus read printed.
    pub fn modbus_value(&self, output: &str) -> (v: u16)
        ensures
            v == modbus_output_value(output@),
    {
        let t = trim(output);
        match parse_unsigned(t.as_str(), 65535) {
            Some(n) => n as u16,
            None => 0,
        }
    }

    /// The whole uptime of an `uptime` text in minutes, days and hours and minutes
    /// together: `up 2 days,  3:00` is 3060, `up  5:30` is 330, `up 17 min` is 17.
    pub fn uptime_minutes(&self, uptime: &str) -> (m: u64)
        ensures
            m == uptime_minutes_of(uptime@),
    {
        proof {
            reveal_strlit(",");
            reveal_strlit("up ");
            reveal_strlit(" day");
        }
        let days: u64 = match self.uptime_days(uptime) {
            Some(d) => number_in(d.as_str()),
            None => 0,
        };
        let clock_text: Option<String> = if contains(uptime, " day") {
            second_piece_of(uptime, ",")
        } else {
            match second_piece_of(uptime, "up ") {
                Some(r) => Some(first_piece_of(r.as_str(), ",")),
                None => None,
            }
        };
        let clock: u64 = match clock_text {
            Some(t) => clock_minutes_in(t.as_str()),
            None => 0,
        };
        assert(days * 1440 + clock <= 1441 * (u32::MAX as int) + 61 * (u32::MAX as int)) by (nonlinear_arith)
            requires
                days <= u32::MAX,
                clock <= 61 * (u32::MAX as int),
        ;
        days * 1440 + clock
    }

    /// The day count of an `uptime` text, as text.
    pub fn uptime_days(&self, uptime: &str) -> (r: Option<String>)
        ensures
            match r {
                Some(d) => uptime_days_text(uptime@) == Some(d@),
                None => uptime_days_text(uptime@) is None,
            },
    {
        proof {
            reveal_strlit(" day");
        }
        if !contains(uptime, " day") {
            return None;
        }
        let head = first_piece_of(uptime, " day");
        match last_word_of(head.as_str()) {
            Some(w) => Some(w),
            None => Some(owned("0")),
        }
    }
}

} // verus!
