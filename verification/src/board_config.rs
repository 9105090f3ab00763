//! Board configuration: the boards an installation may have, what each offers, and
//! which of them can be chosen for configuration, and how each channel of a board is
//! configured.
use vstd::prelude::*;
use crate::text::{append_str, has_prefix, owned, same_text, starts_with};
use crate::alarms::{copy_opt, opt_view};

verus! {

/// How many channels of each kind a board offers.
#[derive(Debug, Clone, Copy, PartialEq, Eq, Structural)]
pub struct BoardCapabilities {
    pub universal_inputs: usize,
    pub analog_outputs: usize,
    pub relays: usize,
    pub triacs: usize,
}

/// A board the installation may have, and whether it is enabled.
#[derive(Debug, Clone)]
pub struct AvailableBoard {
    pub id: String,
    pub name: String,
    pub board_type: String,
    pub stack_level: usize,
    pub enabled: bool,
    pub capabilities: BoardCapabilities,
}

impl AvailableBoard {
    /// A copy of this board.
    pub fn duplicate(&self) -> (r: AvailableBoard)
        ensures
            r == *self,
    {
        AvailableBoard {
            id: self.id.clone(),
            name: self.name.clone(),
            board_type: self.board_type.clone(),
            stack_level: self.stack_level,
            enabled: self.enabled,
            capabilities: self.capabilities,
        }
    }
}

fn board(id: &str, name: &str, board_type: &str, stack_level: usize, enabled: bool, caps: BoardCapabilities) -> (b: AvailableBoard)
    ensures
        b.id@ == id@,
        b.name@ == name@,
        b.board_type@ == board_type@,
        b.stack_level == stack_level,
        b.enabled == enabled,
        b.capabilities == caps,
{
    AvailableBoard {
        id: owned(id),
        name: owned(name),
        board_type: owned(board_type),
        stack_level,
        enabled,
        capabilities: caps,
    }
}

/// The capabilities `(inputs, analog outputs, relays, triacs)`.
pub open spec fn caps(i: usize, a: usize, r: usize, t: usize) -> BoardCapabilities {
    BoardCapabilities { universal_inputs: i, analog_outputs: a, relays: r, triacs: t }
}

/// The boards offered at start, one per stack level: the MegaBAS (8 inputs, 4 analog
/// outputs, 4 triacs, no relays) and the 16-input board enabled; the 16-output,
/// 8-relay and 16-relay boards disabled.
pub fn init_available_boards() -> (v: Vec<AvailableBoard>)
    ensures
        v@.len() == 5,
        v@[0].id@ == "megabas_0"@ && v@[0].enabled && v@[0].stack_level == 0 && v@[0].capabilities == caps(8, 4, 0, 4),
        v@[1].id@ == "16univin_1"@ && v@[1].enabled && v@[1].stack_level == 1 && v@[1].capabilities == caps(16, 0, 0, 0),
        v@[2].id@ == "16uout_2"@ && !v@[2].enabled && v@[2].stack_level == 2 && v@[2].capabilities == caps(0, 16, 0, 0),
        v@[3].id@ == "8relay_3"@ && !v@[3].enabled && v@[3].stack_level == 3 && v@[3].capabilities == caps(0, 0, 8, 0),
        v@[4].id@ == "16relay_4"@ && !v@[4].enabled && v@[4].stack_level == 4 && v@[4].capabilities == caps(0, 0, 16, 0),
{
    vec![
        board("megabas_0", "MegaBAS Board", "MegaBAS", 0, true, BoardCapabilities { universal_inputs: 8, analog_outputs: 4, relays: 0, triacs: 4 }),
        board("16univin_1", "16-Universal Input", "16-UNIVIN", 1, true, BoardCapabilities { universal_inputs: 16, analog_outputs: 0, relays: 0, triacs: 0 }),
        board("16uout_2", "16-Universal Output", "16-UOUT", 2, false, BoardCapabilities { universal_inputs: 0, analog_outputs: 16, relays: 0, triacs: 0 }),
        board("8relay_3", "8-Relay Board", "8-RELAY", 3, false, BoardCapabilities { universal_inputs: 0, analog_outputs: 0, relays: 8, triacs: 0 }),
        board("16relay_4", "16-Relay Board", "16-RELAY", 4, false, BoardCapabilities { universal_inputs: 0, analog_outputs: 0, relays: 16, triacs: 0 }),
    ]
}

/// The enabled boards, in order.
pub open spec fn enabled_boards(v: Seq<AvailableBoard>) -> Seq<AvailableBoard> {
    v.filter(|b: AvailableBoard| b.enabled)
}

/// The boards that can be chosen for configuration: only the enabled ones, in order.
pub fn selectable_boards(boards: &Vec<AvailableBoard>) -> (r: Vec<AvailableBoard>)
    ensures
        r@ == enabled_boards(boards@),
{
    let ghost bs = boards@;
    let mut r: Vec<AvailableBoard> = Vec::new();
    let mut i: usize = 0;
    assert(bs.take(0).filter(|b: AvailableBoard| b.enabled) =~= Seq::<AvailableBoard>::empty());
    while i < boards.len()
        invariant
            bs == boards@,
            i <= bs.len(),
            r@ == bs.take(i as int).filter(|b: AvailableBoard| b.enabled),
        decreases bs.len() - i,
    {
        proof {
            assert(bs.take(i + 1).drop_last() =~= bs.take(i as int));
            reveal(Seq::filter);
        }
        if boards[i].enabled {
            r.push(boards[i].duplicate());
        }
        i = i + 1;
    }
    assert(bs.take(bs.len() as int) =~= bs);
    r
}

/// Enables or disables every board with id `id`.
pub fn set_board_enabled(boards: &mut Vec<AvailableBoard>, id: &str, enabled: bool)
    ensures
        final(boards)@.len() == old(boards)@.len(),
        forall|i: int| 0 <= i < old(boards)@.len() ==> (#[trigger] final(boards)@[i]).id == old(boards)@[i].id
            && final(boards)@[i].capabilities == old(boards)@[i].capabilities
            && final(boards)@[i].enabled == (if old(boards)@[i].id@ == id@ { enabled } else { old(boards)@[i].enabled }),
{
    let mut i: usize = 0;
    while i < boards.len()
        invariant
            i <= boards@.len(),
            boards@.len() == old(boards)@.len(),
            forall|k: int| 0 <= k < old(boards)@.len() ==> (#[trigger] boards@[k]).id == old(boards)@[k].id
                && boards@[k].capabilities == old(boards)@[k].capabilities
                && boards@[k].enabled == (if k < i && old(boards)@[k].id@ == id@ { enabled } else { old(boards)@[k].enabled }),
        decreases boards@.len() - i,
    {
        if same_text(boards[i].id.as_str(), id) {
            let mut b = boards[i].duplicate();
            b.enabled = enabled;
            boards.set(i, b);
        }
        i = i + 1;
    }
}


/// The configuration of one channel of a board. Scaling bounds, alarm limits, the
/// calibration offset and the manual value are in hundredths of the channel's unit;
/// the voltage range of an analog output is in millivolts.
#[derive(Debug, Clone)]
pub struct ChannelConfig {
    pub id: String,
    pub name: String,
    pub description: String,
    pub sensor_type: String,
    pub input_type: Option<String>,
    /// For a 0-10 V input: `rh`, `10k_transducer`, `ct` or `generic`.
    pub voltage_type: Option<String>,
    /// For a current transformer: `0-20A`, `0-50A` or `0-100A`.
    pub ct_scaling: Option<String>,
    pub scaling_min: i64,
    pub scaling_max: i64,
    pub units: String,
    pub enabled: bool,
    pub alarm_high: Option<i64>,
    pub alarm_low: Option<i64>,
    pub calibration_offset: i64,
    pub min_voltage: Option<u32>,
    pub max_voltage: Option<u32>,
    pub reverse_acting: Option<bool>,
    /// For a relay: whether it is normally closed (on when idle).
    pub normally_closed: Option<bool>,
    /// For a universal input: whether a fixed value stands in for the reading.
    pub manual_mode: Option<bool>,
    pub manual_value: Option<i64>,
}

/// The contents of a [`ChannelConfig`].
pub struct ChannelConfigView {
    pub id: Seq<char>,
    pub name: Seq<char>,
    pub description: Seq<char>,
    pub sensor_type: Seq<char>,
    pub input_type: Option<Seq<char>>,
    pub voltage_type: Option<Seq<char>>,
    pub ct_scaling: Option<Seq<char>>,
    pub scaling_min: i64,
    pub scaling_max: i64,
    pub units: Seq<char>,
    pub enabled: bool,
    pub alarm_high: Option<i64>,
    pub alarm_low: Option<i64>,
    pub calibration_offset: i64,
    pub min_voltage: Option<u32>,
    pub max_voltage: Option<u32>,
    pub reverse_acting: Option<bool>,
    pub normally_closed: Option<bool>,
    pub manual_mode: Option<bool>,
    pub manual_value: Option<i64>,
}

impl View for ChannelConfig {
    type V = ChannelConfigView;

    open spec fn view(&self) -> ChannelConfigView {
        ChannelConfigView {
            id: self.id@,
            name: self.name@,
            description: self.description@,
            sensor_type: self.sensor_type@,
            input_type: opt_view(self.input_type),
            voltage_type: opt_view(self.voltage_type),
            ct_scaling: opt_view(self.ct_scaling),
            scaling_min: self.scaling_min,
            scaling_max: self.scaling_max,
            units: self.units@,
            enabled: self.enabled,
            alarm_high: self.alarm_high,
            alarm_low: self.alarm_low,
            calibration_offset: self.calibration_offset,
            min_voltage: self.min_voltage,
            max_voltage: self.max_voltage,
            reverse_acting: self.reverse_acting,
            normally_closed: self.normally_closed,
            manual_mode: self.manual_mode,
            manual_value: self.manual_value,
        }
    }
}

/// The characters of an optional string slice.
pub open spec fn opt_str(o: Option<&str>) -> Option<Seq<char>> {
    match o {
        Some(s) => Some(s@),
        None => None,
    }
}

fn opt_owned(o: Option<&str>) -> (r: Option<String>)
    ensures
        opt_view(r) == opt_str(o),
{
    match o {
        Some(s) => Some(owned(s)),
        None => None,
    }
}

/// An enabled universal input, not calibrated, with no output settings.
pub open spec fn input_channel(
    id: Seq<char>,
    name: Seq<char>,
    description: Seq<char>,
    sensor_type: Seq<char>,
    input_type: Seq<char>,
    voltage_type: Option<Seq<char>>,
    ct_scaling: Option<Seq<char>>,
    scaling_min: i64,
    scaling_max: i64,
    units: Seq<char>,
    alarm_high: Option<i64>,
    alarm_low: Option<i64>,
    manual_mode: bool,
    manual_value: i64,
) -> ChannelConfigView {
    ChannelConfigView {
        id,
        name,
        description,
        sensor_type,
        input_type: Some(input_type),
        voltage_type,
        ct_scaling,
        scaling_min,
        scaling_max,
        units,
        enabled: true,
        alarm_high,
        alarm_low,
        calibration_offset: 0,
        min_voltage: None,
        max_voltage: None,
        reverse_acting: None,
        normally_closed: None,
        manual_mode: Some(manual_mode),
        manual_value: Some(manual_value),
    }
}

fn input(
    id: &str,
    name: &str,
    description: &str,
    sensor_type: &str,
    input_type: &str,
    voltage_type: Option<&str>,
    ct_scaling: Option<&str>,
    scaling_min: i64,
    scaling_max: i64,
    units: &str,
    alarm_high: Option<i64>,
    alarm_low: Option<i64>,
    manual_mode: bool,
    manual_value: i64,
) -> (c: ChannelConfig)
    ensures
        c@ == input_channel(id@, name@, description@, sensor_type@, input_type@, opt_str(voltage_type),
            opt_str(ct_scaling), scaling_min, scaling_max, units@, alarm_high, alarm_low, manual_mode, manual_value),
{
    ChannelConfig {
        id: owned(id),
        name: owned(name),
        description: owned(description),
        sensor_type: owned(sensor_type),
        input_type: Some(owned(input_type)),
        voltage_type: opt_owned(voltage_type),
        ct_scaling: opt_owned(ct_scaling),
        scaling_min,
        scaling_max,
        units: owned(units),
        enabled: true,
        alarm_high,
        alarm_low,
        calibration_offset: 0,
        min_voltage: None,
        max_voltage: None,
        reverse_acting: None,
        normally_closed: None,
        manual_mode: Some(manual_mode),
        manual_value: Some(manual_value),
    }
}

/// The universal inputs of the default configuration: supply and return air
/// temperature (10K thermistors, 32-122 °F), space humidity (0-10 V RH, 0-99 %), duct
/// static pressure (4-20 mA, 0-2 "WC), supply fan current (0-10 V CT, 0-50 A), outdoor
/// temperature (10K transducer, held at 95 °F by a manual override), and filter and
/// occupancy status (digital).
pub open spec fn default_universal_inputs() -> Seq<ChannelConfigView> {
    seq![
        input_channel("ui_1"@, "Supply Air Temp"@, "Supply air temperature sensor"@, "temperature"@, "resistance"@,
            None, None, 3200, 12200, "°F"@, Some(8500), Some(4500), false, 7200),
        input_channel("ui_2"@, "Return Air Temp"@, "Return air temperature sensor"@, "temperature"@, "resistance"@,
            None, None, 3200, 12200, "°F"@, Some(9000), Some(5000), false, 7500),
        input_channel("ui_3"@, "Space Humidity"@, "Space relative humidity sensor"@, "humidity"@, "voltage"@,
            Some("rh"@), None, 0, 9900, "%"@, Some(6000), Some(3000), false, 4500),
        input_channel("ui_4"@, "Static Pressure"@, "Duct static pressure sensor"@, "pressure"@, "current"@,
            None, None, 0, 200, "\"WC"@, Some(150), None, false, 50),
        input_channel("ui_5"@, "Motor Current"@, "Supply fan motor current"@, "current"@, "voltage"@,
            Some("ct"@), Some("0-50A"@), 0, 5000, "A"@, Some(4000), None, false, 1250),
        input_channel("ui_6"@, "Outdoor Temp"@, "Outdoor air temperature"@, "temperature"@, "voltage"@,
            Some("10k_transducer"@), None, 3200, 12200, "°F"@, None, None, true, 9500),
        input_channel("ui_7"@, "Filter Status"@, "Filter differential pressure switch"@, "status"@, "digital"@,
            None, None, 0, 100, ""@, None, None, false, 0),
        input_channel("ui_8"@, "Occupancy"@, "Space occupancy sensor"@, "status"@, "digital"@,
            None, None, 0, 100, ""@, None, None, false, 100),
    ]
}

/// The views of a list of channels.
pub open spec fn channels_view(v: Seq<ChannelConfig>) -> Seq<ChannelConfigView> {
    v.map_values(|c: ChannelConfig| c@)
}

/// The universal inputs of the default configuration.
pub fn init_universal_inputs() -> (v: Vec<ChannelConfig>)
    ensures
        channels_view(v@) == default_universal_inputs(),
{
    let v = vec![
        input("ui_1", "Supply Air Temp", "Supply air temperature sensor", "temperature", "resistance",
            None, None, 3200, 12200, "°F", Some(8500), Some(4500), false, 7200),
        input("ui_2", "Return Air Temp", "Return air temperature sensor", "temperature", "resistance",
            None, None, 3200, 12200, "°F", Some(9000), Some(5000), false, 7500),
        input("ui_3", "Space Humidity", "Space relative humidity sensor", "humidity", "voltage",
            Some("rh"), None, 0, 9900, "%", Some(6000), Some(3000), false, 4500),
        input("ui_4", "Static Pressure", "Duct static pressure sensor", "pressure", "current",
            None, None, 0, 200, "\"WC", Some(150), None, false, 50),
        input("ui_5", "Motor Current", "Supply fan motor current", "current", "voltage",
            Some("ct"), Some("0-50A"), 0, 5000, "A", Some(4000), None, false, 1250),
        input("ui_6", "Outdoor Temp", "Outdoor air temperature", "temperature", "voltage",
            Some("10k_transducer"), None, 3200, 12200, "°F", None, None, true, 9500),
        input("ui_7", "Filter Status", "Filter differential pressure switch", "status", "digital",
            None, None, 0, 100, "", None, None, false, 0),
        input("ui_8", "Occupancy", "Space occupancy sensor", "status", "digital",
            None, None, 0, 100, "", None, None, false, 100),
    ];
    assert(channels_view(v@) =~= default_universal_inputs());
    v
}


/// An enabled analog output driving 0-100 % over `min_voltage`..10 V (millivolts).
pub open spec fn analog_channel(
    id: Seq<char>,
    name: Seq<char>,
    description: Seq<char>,
    sensor_type: Seq<char>,
    min_voltage: u32,
    reverse_acting: bool,
) -> ChannelConfigView {
    ChannelConfigView {
        id,
        name,
        description,
        sensor_type,
        input_type: None,
        voltage_type: None,
        ct_scaling: None,
        scaling_min: 0,
        scaling_max: 10000,
        units: "%"@,
        enabled: true,
        alarm_high: None,
        alarm_low: None,
        calibration_offset: 0,
        min_voltage: Some(min_voltage),
        max_voltage: Some(10000),
        reverse_acting: Some(reverse_acting),
        normally_closed: None,
        manual_mode: None,
        manual_value: None,
    }
}

/// A switched output (relay or triac) with on/off scaling.
pub open spec fn switched_channel(
    id: Seq<char>,
    name: Seq<char>,
    description: Seq<char>,
    sensor_type: Seq<char>,
    enabled: bool,
    normally_closed: Option<bool>,
) -> ChannelConfigView {
    ChannelConfigView {
        id,
        name,
        description,
        sensor_type,
        input_type: None,
        voltage_type: None,
        ct_scaling: None,
        scaling_min: 0,
        scaling_max: 100,
        units: ""@,
        enabled,
        alarm_high: None,
        alarm_low: None,
        calibration_offset: 0,
        min_voltage: None,
        max_voltage: None,
        reverse_acting: None,
        normally_closed,
        manual_mode: None,
        manual_value: None,
    }
}

fn analog(id: &str, name: &str, description: &str, sensor_type: &str, min_voltage: u32, reverse_acting: bool) -> (c: ChannelConfig)
    ensures
        c@ == analog_channel(id@, name@, description@, sensor_type@, min_voltage, reverse_acting),
{
    ChannelConfig {
        id: owned(id),
        name: owned(name),
        description: owned(description),
        sensor_type: owned(sensor_type),
        input_type: None,
        voltage_type: None,
        ct_scaling: None,
        scaling_min: 0,
        scaling_max: 10000,
        units: owned("%"),
        enabled: true,
        alarm_high: None,
        alarm_low: None,
        calibration_offset: 0,
        min_voltage: Some(min_voltage),
        max_voltage: Some(10000),
        reverse_acting: Some(reverse_acting),
        normally_closed: None,
        manual_mode: None,
        manual_value: None,
    }
}

fn switched(id: &str, name: &str, description: &str, sensor_type: &str, enabled: bool, normally_closed: Option<bool>) -> (c: ChannelConfig)
    ensures
        c@ == switched_channel(id@, name@, description@, sensor_type@, enabled, normally_closed),
{
    ChannelConfig {
        id: owned(id),
        name: owned(name),
        description: owned(description),
        sensor_type: owned(sensor_type),
        input_type: None,
        voltage_type: None,
        ct_scaling: None,
        scaling_min: 0,
        scaling_max: 100,
        units: owned(""),
        enabled,
        alarm_high: None,
        alarm_low: None,
        calibration_offset: 0,
        min_voltage: None,
        max_voltage: None,
        reverse_acting: None,
        normally_closed,
        manual_mode: None,
        manual_value: None,
    }
}

/// The analog outputs of the default configuration: cooling valve and damper
/// (2-10 V), heating valve (0-10 V, reverse acting) and fan speed (0-10 V).
pub open spec fn default_analog_outputs() -> Seq<ChannelConfigView> {
    seq![
        analog_channel("ao_1"@, "Cooling Valve"@, "Chilled water valve position"@, "valve_position"@, 2000, false),
        analog_channel("ao_2"@, "Heating Valve"@, "Hot water valve position"@, "valve_position"@, 0, true),
        analog_channel("ao_3"@, "Damper Position"@, "Outside air damper position"@, "damper_position"@, 2000, false),
        analog_channel("ao_4"@, "VFD Speed"@, "Supply fan VFD speed command"@, "vfd_speed"@, 0, false),
    ]
}

/// The analog outputs of the default configuration.
pub fn init_analog_outputs() -> (v: Vec<ChannelConfig>)
    ensures
        channels_view(v@) == default_analog_outputs(),
{
    let v = vec![
        analog("ao_1", "Cooling Valve", "Chilled water valve position", "valve_position", 2000, false),
        analog("ao_2", "Heating Valve", "Hot water valve position", "valve_position", 0, true),
        analog("ao_3", "Damper Position", "Outside air damper position", "damper_position", 2000, false),
        analog("ao_4", "VFD Speed", "Supply fan VFD speed command", "vfd_speed", 0, false),
    ];
    assert(channels_view(v@) =~= default_analog_outputs());
    v
}

/// The relay channels a relay board starts with: both fans normally open, the compressor
/// and the alarm output normally closed. The MegaBAS has no relays, so its default
/// configuration holds none of them.
pub open spec fn default_relay_outputs() -> Seq<ChannelConfigView> {
    seq![
        switched_channel("ro_1"@, "Supply Fan"@, "Supply fan enable/disable"@, "relay"@, true, Some(false)),
        switched_channel("ro_2"@, "Return Fan"@, "Return fan enable/disable"@, "relay"@, true, Some(false)),
        switched_channel("ro_3"@, "Compressor 1"@, "Compressor stage 1"@, "relay"@, true, Some(true)),
        switched_channel("ro_4"@, "Alarm Output"@, "General alarm relay"@, "relay"@, true, Some(true)),
    ]
}

/// The relay channels a relay board starts with.
pub fn init_relay_outputs() -> (v: Vec<ChannelConfig>)
    ensures
        channels_view(v@) == default_relay_outputs(),
{
    let v = vec![
        switched("ro_1", "Supply Fan", "Supply fan enable/disable", "relay", true, Some(false)),
        switched("ro_2", "Return Fan", "Return fan enable/disable", "relay", true, Some(false)),
        switched("ro_3", "Compressor 1", "Compressor stage 1", "relay", true, Some(true)),
        switched("ro_4", "Alarm Output", "General alarm relay", "relay", true, Some(true)),
    ];
    assert(channels_view(v@) =~= default_relay_outputs());
    v
}

/// The triac outputs of the default configuration: two heat stages enabled, the
/// humidifier and the UV light disabled.
pub open spec fn default_triac_outputs() -> Seq<ChannelConfigView> {
    seq![
        switched_channel("to_1"@, "Stage Heat 1"@, "Electric heat stage 1"@, "triac"@, true, None),
        switched_channel("to_2"@, "Stage Heat 2"@, "Electric heat stage 2"@, "triac"@, true, None),
        switched_channel("to_3"@, "Humidifier"@, "Humidifier control"@, "triac"@, false, None),
        switched_channel("to_4"@, "UV Light"@, "UV sanitization light"@, "triac"@, false, None),
    ]
}

/// The triac outputs of the default configuration.
pub fn init_triac_outputs() -> (v: Vec<ChannelConfig>)
    ensures
        channels_view(v@) == default_triac_outputs(),
{
    let v = vec![
        switched("to_1", "Stage Heat 1", "Electric heat stage 1", "triac", true, None),
        switched("to_2", "Stage Heat 2", "Electric heat stage 2", "triac", true, None),
        switched("to_3", "Humidifier", "Humidifier control", "triac", false, None),
        switched("to_4", "UV Light", "UV sanitization light", "triac", false, None),
    ];
    assert(channels_view(v@) =~= default_triac_outputs());
    v
}


impl ChannelConfig {
    /// A copy of this channel.
    pub fn duplicate(&self) -> (r: ChannelConfig)
        ensures
            r@ == self@,
    {
        ChannelConfig {
            id: self.id.clone(),
            name: self.name.clone(),
            description: self.description.clone(),
            sensor_type: self.sensor_type.clone(),
            input_type: copy_opt(&self.input_type),
            voltage_type: copy_opt(&self.voltage_type),
            ct_scaling: copy_opt(&self.ct_scaling),
            scaling_min: self.scaling_min,
            scaling_max: self.scaling_max,
            units: self.units.clone(),
            enabled: self.enabled,
            alarm_high: self.alarm_high,
            alarm_low: self.alarm_low,
            calibration_offset: self.calibration_offset,
            min_voltage: self.min_voltage,
            max_voltage: self.max_voltage,
            reverse_acting: self.reverse_acting,
            normally_closed: self.normally_closed,
            manual_mode: self.manual_mode,
            manual_value: self.manual_value,
        }
    }
}

/// The kind of a channel, told by the prefix of its id.
#[derive(Debug, Clone, Copy, PartialEq, Eq, Structural)]
pub enum ChannelKind {
    UniversalInput,
    AnalogOutput,
    Relay,
    Triac,
}

/// The kind of the channel with id `id`: `ui_` for a universal input, `ao_` for an
/// analog output, `ro_` for a relay, `to_` for a triac; none for any other id.
pub open spec fn kind_of(id: Seq<char>) -> Option<ChannelKind> {
    if has_prefix(id, "ui_"@) {
        Some(ChannelKind::UniversalInput)
    } else if has_prefix(id, "ao_"@) {
        Some(ChannelKind::AnalogOutput)
    } else if has_prefix(id, "ro_"@) {
        Some(ChannelKind::Relay)
    } else if has_prefix(id, "to_"@) {
        Some(ChannelKind::Triac)
    } else {
        None
    }
}

/// The kind of the channel with id `id`.
pub fn channel_kind(id: &str) -> (k: Option<ChannelKind>)
    ensures
        k == kind_of(id@),
{
    if starts_with(id, "ui_") {
        Some(ChannelKind::UniversalInput)
    } else if starts_with(id, "ao_") {
        Some(ChannelKind::AnalogOutput)
    } else if starts_with(id, "ro_") {
        Some(ChannelKind::Relay)
    } else if starts_with(id, "to_") {
        Some(ChannelKind::Triac)
    } else {
        None
    }
}

/// The value held by `o`, or `d` when it holds none.
pub open spec fn or_else<T>(o: Option<T>, d: T) -> T {
    match o {
        Some(v) => v,
        None => d,
    }
}

/// The channel as the edit dialog holds it: each setting the dialog shows for the
/// channel gets a value when it had none. A 0-10 V input gets the `generic` voltage type,
/// and a current transformer the `0-20A` scaling; a universal input gets manual mode
/// off, and in manual mode the manual value 0; an analog output gets the range 0-10 V
/// (0 to 10000 mV), not reverse acting; a relay gets normally open.
pub open spec fn edit_defaults(c: ChannelConfigView) -> ChannelConfigView {
    let is_voltage = c.input_type == Some("voltage"@);
    let voltage_type = if is_voltage { Some(or_else(c.voltage_type, "generic"@)) } else { c.voltage_type };
    let ct_scaling = if is_voltage && voltage_type == Some("ct"@) {
        Some(or_else(c.ct_scaling, "0-20A"@))
    } else {
        c.ct_scaling
    };
    let is_input = has_prefix(c.id, "ui_"@);
    let manual_mode = if is_input { Some(or_else(c.manual_mode, false)) } else { c.manual_mode };
    let manual_value = if is_input && manual_mode == Some(true) {
        Some(or_else(c.manual_value, 0i64))
    } else {
        c.manual_value
    };
    let is_analog = has_prefix(c.id, "ao_"@);
    let is_relay = has_prefix(c.id, "ro_"@);
    ChannelConfigView {
        voltage_type,
        ct_scaling,
        manual_mode,
        manual_value,
        min_voltage: if is_analog { Some(or_else(c.min_voltage, 0u32)) } else { c.min_voltage },
        max_voltage: if is_analog { Some(or_else(c.max_voltage, 10000u32)) } else { c.max_voltage },
        reverse_acting: if is_analog { Some(or_else(c.reverse_acting, false)) } else { c.reverse_acting },
        normally_closed: if is_relay { Some(or_else(c.normally_closed, false)) } else { c.normally_closed },
        ..c
    }
}

fn holds_text(o: &Option<String>, t: &str) -> (r: bool)
    ensures
        r == (opt_view(*o) == Some(t@)),
{
    match o {
        Some(v) => same_text(v.as_str(), t),
        None => false,
    }
}

fn text_or(o: &Option<String>, d: &str) -> (r: String)
    ensures
        r@ == or_else(opt_view(*o), d@),
{
    match o {
        Some(v) => v.clone(),
        None => owned(d),
    }
}

/// The channel as the edit dialog holds it, with the defaults it fills in.
pub fn channel_edit_defaults(c: &ChannelConfig) -> (r: ChannelConfig)
    ensures
        r@ == edit_defaults(c@),
{
    let mut r = c.duplicate();
    let is_voltage = holds_text(&c.input_type, "voltage");
    if is_voltage {
        r.voltage_type = Some(text_or(&c.voltage_type, "generic"));
        if holds_text(&r.voltage_type, "ct") {
            r.ct_scaling = Some(text_or(&c.ct_scaling, "0-20A"));
        }
    }
    if starts_with(c.id.as_str(), "ui_") {
        let mode = match c.manual_mode { Some(m) => m, None => false };
        r.manual_mode = Some(mode);
        if mode {
            r.manual_value = Some(match c.manual_value { Some(v) => v, None => 0 });
        }
    }
    if starts_with(c.id.as_str(), "ao_") {
        r.min_voltage = Some(match c.min_voltage { Some(v) => v, None => 0 });
        r.max_voltage = Some(match c.max_voltage { Some(v) => v, None => 10000 });
        r.reverse_acting = Some(match c.reverse_acting { Some(v) => v, None => false });
    }
    if starts_with(c.id.as_str(), "ro_") {
        r.normally_closed = Some(match c.normally_closed { Some(v) => v, None => false });
    }
    r
}


/// A board's configuration: its name, where it stands, and its channels by kind.
#[derive(Debug, Clone)]
pub struct BoardChannelConfig {
    pub board_id: String,
    pub board_name: String,
    pub location: String,
    pub universal_inputs: Vec<ChannelConfig>,
    pub analog_outputs: Vec<ChannelConfig>,
    pub relay_outputs: Vec<ChannelConfig>,
    pub triac_outputs: Vec<ChannelConfig>,
}

/// The configuration of the MegaBAS board at start, with the default channels: eight
/// universal inputs, four analog outputs, four triac outputs and, as the board has none,
/// no relays.
pub fn create_default_config() -> (c: BoardChannelConfig)
    ensures
        c.board_id@ == "megabas_0"@,
        c.board_name@ == "MegaBAS Configuration"@,
        c.location@ == "Mechanical Room A"@,
        channels_view(c.universal_inputs@) == default_universal_inputs(),
        channels_view(c.analog_outputs@) == default_analog_outputs(),
        c.relay_outputs@.len() == 0,
        channels_view(c.triac_outputs@) == default_triac_outputs(),
{
    BoardChannelConfig {
        board_id: owned("megabas_0"),
        board_name: owned("MegaBAS Configuration"),
        location: owned("Mechanical Room A"),
        universal_inputs: init_universal_inputs(),
        analog_outputs: init_analog_outputs(),
        relay_outputs: Vec::new(),
        triac_outputs: init_triac_outputs(),
    }
}

/// `i` is the first position in `s` of a channel with id `id`.
pub open spec fn first_with_id(s: Seq<ChannelConfigView>, id: Seq<char>, i: int) -> bool {
    &&& 0 <= i < s.len()
    &&& s[i].id == id
    &&& forall|j: int| 0 <= j < i ==> s[j].id != id
}

/// The first position in `s` of a channel with id `id`, if any.
pub open spec fn channel_position(s: Seq<ChannelConfigView>, id: Seq<char>) -> Option<int> {
    if exists|i: int| first_with_id(s, id, i) {
        Some(choose|i: int| first_with_id(s, id, i))
    } else {
        None
    }
}

/// The first channel in `s` with id `id`, if any.
pub open spec fn channel_with_id(s: Seq<ChannelConfigView>, id: Seq<char>) -> Option<ChannelConfigView> {
    match channel_position(s, id) {
        Some(i) => Some(s[i]),
        None => None,
    }
}

/// `s` with the first channel that has the id of `c` replaced by `c`; `s` itself when
/// no channel has that id.
pub open spec fn saved_into(s: Seq<ChannelConfigView>, c: ChannelConfigView) -> Seq<ChannelConfigView> {
    match channel_position(s, c.id) {
        Some(i) => s.update(i, c),
        None => s,
    }
}

proof fn lemma_first_unique(s: Seq<ChannelConfigView>, id: Seq<char>, i: int, k: int)
    requires
        first_with_id(s, id, i),
        first_with_id(s, id, k),
    ensures
        i == k,
{
    if i < k {
        assert(s[i].id != id);
    } else if k < i {
        assert(s[k].id != id);
    }
}

proof fn lemma_position_is(s: Seq<ChannelConfigView>, id: Seq<char>, i: int)
    requires
        first_with_id(s, id, i),
    ensures
        channel_position(s, id) == Some(i),
{
    let k = choose|k: int| first_with_id(s, id, k);
    lemma_first_unique(s, id, i, k);
}

/// The first position in `v` of a channel with id `id` (`Iterator::position`).
fn find_channel(v: &Vec<ChannelConfig>, id: &str) -> (r: Option<usize>)
    ensures
        r matches Some(i) ==> first_with_id(channels_view(v@), id@, i as int),
        r is None ==> channel_position(channels_view(v@), id@) is None,
{
    let ghost s = channels_view(v@);
    let mut i: usize = 0;
    while i < v.len()
        invariant
            s == channels_view(v@),
            i <= v@.len(),
            forall|j: int| 0 <= j < i ==> s[j].id != id@,
        decreases v@.len() - i,
    {
        if same_text(v[i].id.as_str(), id) {
            return Some(i);
        }
        i = i + 1;
    }
    proof {
        if exists|k: int| first_with_id(s, id@, k) {
            let k = choose|k: int| first_with_id(s, id@, k);
            assert(s[k].id != id@);
        }
    }
    None
}

fn save_into(v: &mut Vec<ChannelConfig>, c: ChannelConfig)
    ensures
        channels_view(final(v)@) == saved_into(channels_view(old(v)@), c@),
{
    let ghost s = channels_view(v@);
    match find_channel(v, c.id.as_str()) {
        Some(i) => {
            proof {
                lemma_position_is(s, c@.id, i as int);
            }
            v.set(i, c);
            assert(channels_view(v@) =~= s.update(i as int, c@));
        },
        None => {},
    }
}

impl BoardChannelConfig {
    /// Saves an edited channel: in the list of the channel's kind, the first channel
    /// with the same id is replaced. Nothing changes when no channel of that kind has
    /// the id, or when the id names no kind.
    pub fn save_channel_edit(&mut self, channel: ChannelConfig)
        ensures
            final(self).board_id == old(self).board_id,
            final(self).board_name == old(self).board_name,
            final(self).location == old(self).location,
            channels_view(final(self).universal_inputs@) == if kind_of(channel@.id) == Some(ChannelKind::UniversalInput) {
                saved_into(channels_view(old(self).universal_inputs@), channel@)
            } else {
                channels_view(old(self).universal_inputs@)
            },
            channels_view(final(self).analog_outputs@) == if kind_of(channel@.id) == Some(ChannelKind::AnalogOutput) {
                saved_into(channels_view(old(self).analog_outputs@), channel@)
            } else {
                channels_view(old(self).analog_outputs@)
            },
            channels_view(final(self).relay_outputs@) == if kind_of(channel@.id) == Some(ChannelKind::Relay) {
                saved_into(channels_view(old(self).relay_outputs@), channel@)
            } else {
                channels_view(old(self).relay_outputs@)
            },
            channels_view(final(self).triac_outputs@) == if kind_of(channel@.id) == Some(ChannelKind::Triac) {
                saved_into(channels_view(old(self).triac_outputs@), channel@)
            } else {
                channels_view(old(self).triac_outputs@)
            },
    {
        match channel_kind(channel.id.as_str()) {
            Some(ChannelKind::UniversalInput) => save_into(&mut self.universal_inputs, channel),
            Some(ChannelKind::AnalogOutput) => save_into(&mut self.analog_outputs, channel),
            Some(ChannelKind::Relay) => save_into(&mut self.relay_outputs, channel),
            Some(ChannelKind::Triac) => save_into(&mut self.triac_outputs, channel),
            None => {},
        }
    }
}

/// Saving an edited channel into a list makes the list answer with it: looking up its id
/// gives the saved channel when the list held that id, the list stays as it was when it
/// did not, and every other id gives what it gave before.
pub proof fn law_saved_channel_reads_back(s: Seq<ChannelConfigView>, c: ChannelConfigView, other: Seq<char>)
    ensures
        channel_with_id(s, c.id) is Some ==> channel_with_id(saved_into(s, c), c.id) == Some(c),
        channel_with_id(s, c.id) is None ==> saved_into(s, c) == s,
        other != c.id ==> channel_with_id(saved_into(s, c), other) == channel_with_id(s, other),
{
    let t = saved_into(s, c);
    if let Some(i) = channel_position(s, c.id) {
        assert(first_with_id(s, c.id, i));
        assert(t == s.update(i, c));
        assert(first_with_id(t, c.id, i)) by {
            assert forall|j: int| 0 <= j < i implies t[j].id != c.id by {
                assert(s[j].id != c.id);
            }
        }
        lemma_position_is(t, c.id, i);
        if other != c.id {
            if exists|p: int| first_with_id(s, other, p) {
                let p = choose|p: int| first_with_id(s, other, p);
                lemma_position_is(s, other, p);
                assert(p != i);
                assert(first_with_id(t, other, p)) by {
                    assert forall|j: int| 0 <= j < p implies t[j].id != other by {
                        if j != i {
                            assert(s[j].id != other);
                        }
                    }
                }
                lemma_position_is(t, other, p);
            } else {
                if exists|q: int| first_with_id(t, other, q) {
                    let q = choose|q: int| first_with_id(t, other, q);
                    assert(q != i);
                    assert(first_with_id(s, other, q)) by {
                        assert forall|j: int| 0 <= j < q implies s[j].id != other by {
                            if j != i {
                                assert(t[j].id != other);
                            }
                        }
                    }
                }
            }
        }
    }
}

/// The statement that stores a board's configuration, as JSON, in the `board_states`
/// table, stamped with the time of the write.
pub open spec fn board_state_statement(board_id: Seq<char>, state_json: Seq<char>) -> Seq<char> {
    "INSERT OR REPLACE INTO board_states (board_id, state_json, updated_at) VALUES ('"@ + board_id + "', '"@
        + state_json + "', datetime('now'))"@
}

/// The statement that stores a board's configuration.
pub fn board_state_sql(board_id: &str, state_json: &str) -> (r: String)
    ensures
        r@ == board_state_statement(board_id@, state_json@),
{
    let mut r = owned("INSERT OR REPLACE INTO board_states (board_id, state_json, updated_at) VALUES ('");
    append_str(&mut r, board_id);
    append_str(&mut r, "', '");
    append_str(&mut r, state_json);
    append_str(&mut r, "', datetime('now'))");
    r
}

} // verus!
