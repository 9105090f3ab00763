//! Building-management-system integration: its settings, the command query, and the
//! connection status kept from connection tests.
use vstd::prelude::*;
use crate::entries::{entries_view, set_entry, with_entry};
use crate::text::{
    append_str, decimal, decimal_string, owned, parse_unsigned, parsed_unsigned, same_text, strings_view, trim, trimmed,
};

verus! {

/// The settings of the link to the building-management system.
#[derive(Debug, Clone)]
pub struct BmsConfig {
    pub enabled: bool,
    pub location_name: String,
    pub system_name: String,
    pub location_id: String,
    pub equipment_id: String,
    pub equipment_type: String,
    pub zone: String,
    pub influx_url: String,
    pub update_interval: u32,
    pub field_mappings: Vec<(String, String)>,
    pub bms_server_url: String,
    pub command_query_interval: u32,
    pub fallback_to_local: bool,
}

/// The settings the panel starts with: disabled, the pilot site's equipment, both
/// intervals 30 s, local fallback on.
pub fn default_bms_config() -> (c: BmsConfig)
    ensures
        !c.enabled,
        c.location_name@ == "FirstChurchOfGod"@,
        c.system_name@ == "AHU-001"@,
        c.location_id@ == "9"@,
        c.equipment_id@ == "WAg6mWpJneM2zLMDu11b"@,
        c.equipment_type@ == "Air Handler"@,
        c.zone@ == "Main Building"@,
        c.influx_url@ == "http://143.198.162.31:8205/ping"@,
        c.update_interval == 30,
        c.field_mappings@.len() == 0,
        c.bms_server_url@ == "http://143.198.162.31:8205/ping"@,
        c.command_query_interval == 30,
        c.fallback_to_local,
{
    BmsConfig {
        enabled: false,
        location_name: owned("FirstChurchOfGod"),
        system_name: owned("AHU-001"),
        location_id: owned("9"),
        equipment_id: owned("WAg6mWpJneM2zLMDu11b"),
        equipment_type: owned("Air Handler"),
        zone: owned("Main Building"),
        influx_url: owned("http://143.198.162.31:8205/ping"),
        update_interval: 30,
        field_mappings: Vec::new(),
        bms_server_url: owned("http://143.198.162.31:8205/ping"),
        command_query_interval: 30,
        fallback_to_local: true,
    }
}

/// Adds the mapping of BMS field `field` to local channel `channel`, replacing the field's
/// earlier mapping, when both are given; an empty field or channel adds nothing. Returns
/// whether the mapping was added.
pub fn add_field_mapping(config: &mut BmsConfig, field: &str, channel: &str) -> (added: bool)
    ensures
        added == (field@.len() > 0 && channel@.len() > 0),
        added ==> entries_view(final(config).field_mappings@) == with_entry(
            entries_view(old(config).field_mappings@),
            field@,
            channel@,
        ),
        !added ==> final(config).field_mappings@ == old(config).field_mappings@,
        *final(config) == (BmsConfig { field_mappings: final(config).field_mappings, ..*old(config) }),
{
    if field.unicode_len() == 0 || channel.unicode_len() == 0 {
        return false;
    }
    set_entry(&mut config.field_mappings, field, owned(channel));
    true
}

/// The InfluxDB query for the last five minutes of commands to a piece of equipment.
pub fn command_query(config: &BmsConfig) -> (q: String)
    ensures
        q@ == "SELECT * FROM \"ProcessingEngineCommands\"\nWHERE equipment_id = '"@ + config.equipment_id@
            + "'\nAND location_id = '"@ + config.location_id@
            + "'\nAND time >= now() - INTERVAL '5 minutes'\nORDER BY time DESC\nLIMIT 35"@,
{
    let mut q = owned("SELECT * FROM \"ProcessingEngineCommands\"\nWHERE equipment_id = '");
    append_str(&mut q, config.equipment_id.as_str());
    append_str(&mut q, "'\nAND location_id = '");
    append_str(&mut q, config.location_id.as_str());
    append_str(&mut q, "'\nAND time >= now() - INTERVAL '5 minutes'\nORDER BY time DESC\nLIMIT 35");
    q
}

/// The latency a Modbus connection test printed, in milliseconds; 999 when it printed
/// no number.
pub open spec fn test_latency(out: Seq<char>) -> u32 {
    match parsed_unsigned(trimmed(out), 0xffff_ffff) {
        Some(n) => n as u32,
        None => 999,
    }
}

/// The latency a Modbus connection test printed.
pub fn parse_test_latency(output: &str) -> (ms: u32)
    ensures
        ms == test_latency(output@),
{
    let t = trim(output);
    match parse_unsigned(t.as_str(), 0xffff_ffff) {
        Some(n) => n as u32,
        None => 999,
    }
}

/// The protocol a connection test speaks to the BMS.
#[derive(Debug, Clone, Copy, PartialEq, Eq, Structural)]
pub enum TestProtocol {
    Modbus,
    BACnet,
    Other,
}

/// The command line that tests a connection: the Modbus test script with the address and
/// port, or a BACnet discovery of the address; none for another protocol.
pub open spec fn test_command(protocol: TestProtocol, ip: Seq<char>, port: u16) -> Option<Seq<Seq<char>>> {
    match protocol {
        TestProtocol::Modbus => Some(seq!["python3"@, "/opt/nexus/modbus_test.py"@, ip, decimal(port as nat)]),
        TestProtocol::BACnet => Some(seq!["bacnet-discover"@, ip]),
        TestProtocol::Other => None,
    }
}

/// The command line that tests a connection.
pub fn connection_test_command(protocol: TestProtocol, ip: &str, port: u16) -> (c: Option<Vec<String>>)
    ensures
        match c {
            Some(v) => test_command(protocol, ip@, port) == Some(strings_view(v@)),
            None => test_command(protocol, ip@, port) is None,
        },
{
    match protocol {
        TestProtocol::Modbus => {
            let v = vec![owned("python3"), owned("/opt/nexus/modbus_test.py"), owned(ip), decimal_string(port as u64)];
            assert(strings_view(v@) =~= seq!["python3"@, "/opt/nexus/modbus_test.py"@, ip@, decimal(port as nat)]);
            Some(v)
        },
        TestProtocol::BACnet => {
            let v = vec![owned("bacnet-discover"), owned(ip)];
            assert(strings_view(v@) =~= seq!["bacnet-discover"@, ip@]);
            Some(v)
        },
        TestProtocol::Other => None,
    }
}

/// What a connection test found, from what its command printed when it ran and
/// succeeded (`None` when it failed or could not run): a Modbus test succeeds with the
/// latency the script printed, a BACnet test with 100 ms; otherwise the test failed,
/// with latency 0.
pub open spec fn test_outcome(protocol: TestProtocol, output: Option<Seq<char>>) -> (bool, u32) {
    match output {
        Some(out) => match protocol {
            TestProtocol::Modbus => (true, test_latency(out)),
            TestProtocol::BACnet => (true, 100),
            TestProtocol::Other => (false, 0),
        },
        None => (false, 0),
    }
}

/// What a connection test found.
pub fn connection_test_outcome(protocol: TestProtocol, output: Option<String>) -> (r: (bool, u32))
    ensures
        r == test_outcome(protocol, match output { Some(o) => Some(o@), None => None }),
{
    match output {
        Some(out) => match protocol {
            TestProtocol::Modbus => (true, parse_test_latency(out.as_str())),
            TestProtocol::BACnet => (true, 100),
            TestProtocol::Other => (false, 0),
        },
        None => (false, 0),
    }
}

/// The state of the link, as the last connection test left it; times in Unix seconds.
#[derive(Debug, Clone)]
pub struct BmsConnectionStatus {
    pub connected: bool,
    pub last_successful_query: Option<i64>,
    pub last_error: Option<String>,
    pub command_source: String,
    pub retry_count: u32,
    pub latency_ms: u32,
}

/// The number of connection tests remembered.
pub const PING_HISTORY_LIMIT: usize = 100;

/// The link to the building-management system and the record of its tests.
pub struct BmsLink {
    status: BmsConnectionStatus,
    ping_history: Vec<(i64, bool, u32)>,
}

/// The history after recording `p`: the oldest entry goes when it would exceed the limit.
pub open spec fn recorded(h: Seq<(i64, bool, u32)>, p: (i64, bool, u32)) -> Seq<(i64, bool, u32)> {
    if h.push(p).len() > PING_HISTORY_LIMIT {
        h.push(p).skip(1)
    } else {
        h.push(p)
    }
}

impl BmsLink {
    /// The connection status.
    pub closed spec fn status(&self) -> BmsConnectionStatus {
        self.status
    }

    /// The remembered tests, oldest first: time, success, latency.
    pub closed spec fn history(&self) -> Seq<(i64, bool, u32)> {
        self.ping_history@
    }

    /// A link not yet tested: disconnected, commands from the local logic.
    pub fn new() -> (l: BmsLink)
        ensures
            !l.status().connected,
            l.status().last_successful_query is None,
            l.status().last_error is None,
            l.status().command_source@ == "local"@,
            l.status().retry_count == 0,
            l.status().latency_ms == 0,
            l.history().len() == 0,
    {
        BmsLink {
            status: BmsConnectionStatus {
                connected: false,
                last_successful_query: None,
                last_error: None,
                command_source: owned("local"),
                retry_count: 0,
                latency_ms: 0,
            },
            ping_history: Vec::new(),
        }
    }

    /// The connection status.
    pub fn connection_status(&self) -> (s: &BmsConnectionStatus)
        ensures
            *s == self.status(),
    {
        &self.status
    }

    /// The remembered tests.
    pub fn ping_history(&self) -> (h: &Vec<(i64, bool, u32)>)
        ensures
            h@ == self.history(),
    {
        &self.ping_history
    }

    /// Records a connection test made at `now`. A success takes commands from the BMS
    /// and clears the retry count; a failure notes a timeout, counts a retry (wrapping at
    /// `u32::MAX`) and falls back to local commands when `fallback_to_local` is set; without
    /// it the command source stays as it was.
    pub fn record_connection_test(&mut self, success: bool, latency_ms: u32, now: i64, fallback_to_local: bool)
        ensures
            final(self).status().connected == success,
            final(self).status().latency_ms == latency_ms,
            success ==> final(self).status().last_successful_query == Some(now)
                && final(self).status().command_source@ == "bms"@
                && final(self).status().retry_count == 0
                && final(self).status().last_error == old(self).status().last_error,
            !success ==> final(self).status().last_successful_query == old(self).status().last_successful_query
                && (final(self).status().last_error matches Some(e) && e@ == "Connection timeout"@)
                && final(self).status().retry_count == old(self).status().retry_count.wrapping_add(1),
            !success && fallback_to_local ==> final(self).status().command_source@ == "local"@,
            !success && !fallback_to_local ==> final(self).status().command_source@
                == old(self).status().command_source@,
            final(self).history() == recorded(old(self).history(), (now, success, latency_ms)),
    {
        self.status.connected = success;
        self.status.latency_ms = latency_ms;
        if success {
            self.status.last_successful_query = Some(now);
            self.status.command_source = owned("bms");
            self.status.retry_count = 0;
        } else {
            self.status.last_error = Some(owned("Connection timeout"));
            if fallback_to_local {
                self.status.command_source = owned("local");
            }
            self.status.retry_count = self.status.retry_count.wrapping_add(1);
        }
        self.ping_history.push((now, success, latency_ms));
        if self.ping_history.len() > PING_HISTORY_LIMIT {
            self.ping_history.remove(0);
            assert(self.ping_history@ =~= recorded(old(self).history(), (now, success, latency_ms)));
        }
    }
}

/// A command the BMS sent; its time is in Unix seconds.
#[derive(Debug, Clone)]
pub struct BmsCommand {
    pub equipment_id: String,
    pub location_id: String,
    pub command_type: String,
    pub command_data: Vec<(String, String)>,
    pub timestamp: i64,
    pub priority: u8,
}

fn sample_command(config: &BmsConfig, command_type: &str, key: &str, value: &str, timestamp: i64, priority: u8) -> (c: BmsCommand)
    ensures
        c.equipment_id@ == config.equipment_id@,
        c.location_id@ == config.location_id@,
        c.command_type@ == command_type@,
        c.command_data@.len() == 1,
        c.command_data@[0].0@ == key@,
        c.command_data@[0].1@ == value@,
        c.timestamp == timestamp,
        c.priority == priority,
{
    BmsCommand {
        equipment_id: config.equipment_id.clone(),
        location_id: config.location_id.clone(),
        command_type: owned(command_type),
        command_data: vec![(owned(key), owned(value))],
        timestamp,
        priority,
    }
}

/// The recent commands shown while the link is enabled and connected, as of `now`: a
/// temperature set point, a fan speed five minutes earlier and a system mode ten
/// minutes earlier; nothing otherwise.
pub fn recent_commands(config: &BmsConfig, connected: bool, now: i64) -> (r: Option<Vec<BmsCommand>>)
    requires
        now >= i64::MIN + 600,
    ensures
        !(config.enabled && connected) ==> r is None,
        config.enabled && connected ==> (r matches Some(v) && v@.len() == 3
            && v@[0].command_type@ == "SetTemperature"@ && v@[0].command_data@[0].0@ == "value"@
            && v@[0].command_data@[0].1@ == "72.0"@ && v@[0].timestamp == now && v@[0].priority == 5
            && v@[1].command_type@ == "FanSpeed"@ && v@[1].command_data@[0].0@ == "speed"@
            && v@[1].command_data@[0].1@ == "Medium"@ && v@[1].timestamp == now - 300 && v@[1].priority == 3
            && v@[2].command_type@ == "SystemMode"@ && v@[2].command_data@[0].0@ == "mode"@
            && v@[2].command_data@[0].1@ == "Cooling"@ && v@[2].timestamp == now - 600 && v@[2].priority == 7
            && forall|i: int| 0 <= i < 3 ==> (#[trigger] v@[i]).equipment_id@ == config.equipment_id@
                && v@[i].location_id@ == config.location_id@ && v@[i].command_data@.len() == 1),
{
    if !(config.enabled && connected) {
        return None;
    }
    let v = vec![
        sample_command(config, "SetTemperature", "value", "72.0", now, 5),
        sample_command(config, "FanSpeed", "speed", "Medium", now - 300, 3),
        sample_command(config, "SystemMode", "mode", "Cooling", now - 600, 7),
    ];
    Some(v)
}

/// The number of successful tests in `h`.
pub open spec fn successes(h: Seq<(i64, bool, u32)>) -> nat
    decreases h.len(),
{
    if h.len() == 0 {
        0
    } else {
        successes(h.drop_last()) + if h.last().1 { 1nat } else { 0nat }
    }
}

/// The sum of the latencies of the tests in `h`, in milliseconds.
pub open spec fn total_latency(h: Seq<(i64, bool, u32)>) -> nat
    decreases h.len(),
{
    if h.len() == 0 {
        0
    } else {
        total_latency(h.drop_last()) + h.last().2 as nat
    }
}

/// Figures over remembered connection tests: how many there are, how many succeeded,
/// and the sum of their latencies in milliseconds (the average and the success rate are
/// these divided by the number of tests).
#[derive(Debug, Clone, Copy, PartialEq, Eq, Structural)]
pub struct PingStatistics {
    pub total: usize,
    pub successful: usize,
    pub latency_sum: u128,
}

/// Figures over the tests in `history`.
pub fn ping_statistics(history: &Vec<(i64, bool, u32)>) -> (s: PingStatistics)
    ensures
        s.total == history@.len(),
        s.successful == successes(history@),
        s.latency_sum == total_latency(history@),
        s.successful <= s.total,
{
    let ghost h = history@;
    let mut successful: usize = 0;
    let mut latency_sum: u128 = 0;
    let mut i: usize = 0;
    while i < history.len()
        invariant
            h == history@,
            i <= h.len(),
            successful == successes(h.take(i as int)),
            latency_sum == total_latency(h.take(i as int)),
            successful <= i,
            latency_sum <= i * 4294967295,
        decreases h.len() - i,
    {
        proof {
            assert(h.take(i + 1).drop_last() =~= h.take(i as int));
        }
        let (_, ok, latency) = history[i];
        if ok {
            successful = successful + 1;
        }
        latency_sum = latency_sum + latency as u128;
        i = i + 1;
    }
    proof {
        assert(h.take(h.len() as int) =~= h);
    }
    PingStatistics { total: history.len(), successful, latency_sum }
}

/// The `n` newest tests of `history` (fewer when it holds fewer), newest first.
pub fn recent_pings(history: &Vec<(i64, bool, u32)>, n: usize) -> (r: Vec<(i64, bool, u32)>)
    ensures
        r@.len() == if history@.len() < n { history@.len() } else { n as nat },
        forall|i: int| 0 <= i < r@.len() ==> r@[i] == history@[history@.len() - 1 - i],
{
    let mut r: Vec<(i64, bool, u32)> = Vec::new();
    let len = history.len();
    while r.len() < n && r.len() < len
        invariant
            len == history@.len(),
            r@.len() <= n,
            r@.len() <= len,
            forall|i: int| 0 <= i < r@.len() ==> r@[i] == history@[len - 1 - i],
        decreases len - r@.len(),
    {
        let k = len - 1 - r.len();
        r.push(history[k]);
    }
    r
}

/// What the monitoring view calls the current command source: the BMS server when
/// commands come from it (`bms`), the local logic files otherwise.
pub fn command_source_label(source: &str) -> (l: &'static str)
    ensures
        l@ == if source@ == "bms"@ { "BMS Server"@ } else { "Local Logic Files"@ },
{
    if same_text(source, "bms") { "BMS Server" } else { "Local Logic Files" }
}

/// Recording a test keeps at most the last hundred tests, the new one last.
pub proof fn law_ping_history_bounded(h: Seq<(i64, bool, u32)>, p: (i64, bool, u32))
    requires
        h.len() <= PING_HISTORY_LIMIT,
    ensures
        recorded(h, p).len() <= PING_HISTORY_LIMIT,
        recorded(h, p).last() == p,
{
}

} // verus!
