//! Trend charts: the channels that can be charted and the chart settings.
use vstd::prelude::*;
use crate::text::{append_decimal, append_str, decimal, owned, same_text};
use crate::alarms::{copy_opt, opt_view};

verus! {

/// A channel that can be charted.
#[derive(Debug, Clone)]
pub struct Channel {
    pub channel_type: String,
    pub index: usize,
    pub name: String,
    pub enabled: bool,
    pub units: Option<String>,
}

/// The contents of a [`Channel`].
pub struct ChannelView {
    pub channel_type: Seq<char>,
    pub index: usize,
    pub name: Seq<char>,
    pub enabled: bool,
    pub units: Option<Seq<char>>,
}

impl View for Channel {
    type V = ChannelView;

    open spec fn view(&self) -> ChannelView {
        ChannelView {
            channel_type: self.channel_type@,
            index: self.index,
            name: self.name@,
            enabled: self.enabled,
            units: match self.units {
                Some(u) => Some(u@),
                None => None,
            },
        }
    }
}

/// An enabled channel.
pub open spec fn channel_of(t: Seq<char>, index: usize, name: Seq<char>, units: Seq<char>) -> ChannelView {
    ChannelView { channel_type: t, index, name, enabled: true, units: Some(units) }
}

/// The channels charted by default: three temperature inputs and two valve outputs.
pub open spec fn default_channels_view() -> Seq<ChannelView> {
    seq![
        channel_of("universal_input"@, 0, "Supply Air Temp"@, "°F"@),
        channel_of("universal_input"@, 1, "Return Air Temp"@, "°F"@),
        channel_of("universal_input"@, 2, "Outside Air Temp"@, "°F"@),
        channel_of("analog_output"@, 0, "Cooling Valve"@, "%"@),
        channel_of("analog_output"@, 1, "Heating Valve"@, "%"@),
    ]
}

fn channel(t: &str, index: usize, name: &str, units: &str) -> (c: Channel)
    ensures
        c@ == channel_of(t@, index, name@, units@),
{
    Channel { channel_type: owned(t), index, name: owned(name), enabled: true, units: Some(owned(units)) }
}

/// The channels charted by default.
pub fn default_channels() -> (v: Vec<Channel>)
    ensures
        v@.map_values(|c: Channel| c@) == default_channels_view(),
{
    let v = vec![
        channel("universal_input", 0, "Supply Air Temp", "°F"),
        channel("universal_input", 1, "Return Air Temp", "°F"),
        channel("universal_input", 2, "Outside Air Temp", "°F"),
        channel("analog_output", 0, "Cooling Valve", "%"),
        channel("analog_output", 1, "Heating Valve", "%"),
    ];
    assert(v@.map_values(|c: Channel| c@) =~= default_channels_view());
    v
}

/// `"{channel_type}:{index}"`, the key a chart selects a channel by.
pub fn channel_key(c: &Channel) -> (k: String)
    ensures
        k@ == c.channel_type@ + ":"@ + decimal(c.index as nat),
{
    let mut k = c.channel_type.clone();
    append_str(&mut k, ":");
    append_decimal(&mut k, c.index as u64);
    k
}

/// The chart settings.
#[derive(Debug, Clone)]
pub struct ChartSettings {
    pub selected_channel: Option<String>,
    pub selected_hours: u32,
    pub auto_refresh: bool,
    pub chart_type: String,
    pub export_format: String,
    pub comparison_channels: Vec<String>,
    pub show_comparison: bool,
    pub aggregation_interval: String,
}

/// The chart settings at start: the first input over the last 24 hours, as raw points
/// on a line chart, exported as CSV.
pub fn default_chart_settings() -> (s: ChartSettings)
    ensures
        s.selected_channel matches Some(c) && c@ == "universal_input:0"@,
        s.selected_hours == 24,
        !s.auto_refresh,
        s.chart_type@ == "line"@,
        s.export_format@ == "csv"@,
        s.comparison_channels@.len() == 0,
        !s.show_comparison,
        s.aggregation_interval@ == "raw"@,
{
    ChartSettings {
        selected_channel: Some(owned("universal_input:0")),
        selected_hours: 24,
        auto_refresh: false,
        chart_type: owned("line"),
        export_format: owned("csv"),
        comparison_channels: Vec::new(),
        show_comparison: false,
        aggregation_interval: owned("raw"),
    }
}


/// The number of points a trend over `hours` hours shows: one every five minutes, at
/// most 500.
pub open spec fn point_count(hours: int) -> int {
    if hours * 12 < 500 { hours * 12 } else { 500 }
}

/// The number of points a trend over `hours` hours shows.
pub fn trend_point_count(hours: u32) -> (n: u64)
    ensures
        n == point_count(hours as int),
{
    let h: u64 = hours as u64;
    if h * 12 < 500 { h * 12 } else { 500 }
}

/// How many minutes before the newest point point `i` of `n` lies: the points are five
/// minutes apart, the last one is the newest.
pub fn point_age_minutes(n: u64, i: u64) -> (m: u64)
    requires
        i < n,
        n <= 500,
    ensures
        m == (n - i - 1) * 5,
{
    (n - i - 1) * 5
}

/// The key a chart selects channel `c` by.
pub open spec fn key_of(c: ChannelView) -> Seq<char> {
    c.channel_type + ":"@ + decimal(c.index as nat)
}

/// `i` is the first position in `s` of a channel with key `key`.
pub open spec fn first_keyed(s: Seq<ChannelView>, key: Seq<char>, i: int) -> bool {
    &&& 0 <= i < s.len()
    &&& key_of(s[i]) == key
    &&& forall|j: int| 0 <= j < i ==> key_of(s[j]) != key
}

/// The first channel in `s` with key `key`, if any.
pub open spec fn keyed_channel(s: Seq<ChannelView>, key: Seq<char>) -> Option<ChannelView> {
    if exists|i: int| first_keyed(s, key, i) {
        Some(s[choose|i: int| first_keyed(s, key, i)])
    } else {
        None
    }
}

/// The first channel in `s` selected by `selected`, if any.
pub open spec fn selected_channel(s: Seq<ChannelView>, selected: Option<Seq<char>>) -> Option<ChannelView> {
    match selected {
        Some(key) => keyed_channel(s, key),
        None => None,
    }
}

/// The name and units a trend is shown with: those of the selected channel, or
/// `Unknown` with no units when no channel is selected or none has the selected key.
pub open spec fn trend_label(s: Seq<ChannelView>, selected: Option<Seq<char>>) -> (Seq<char>, Option<Seq<char>>) {
    match selected_channel(s, selected) {
        Some(c) => (c.name, c.units),
        None => ("Unknown"@, None),
    }
}

proof fn lemma_selected_is(s: Seq<ChannelView>, key: Seq<char>, i: int)
    requires
        first_keyed(s, key, i),
    ensures
        keyed_channel(s, key) == Some(s[i]),
{
    let c = choose|c: int| first_keyed(s, key, c);
    if c < i {
        assert(key_of(s[c]) != key);
    } else if i < c {
        assert(key_of(s[i]) != key);
    }
}

/// The name and units a trend of the selected channel is shown with.
pub fn trend_channel(channels: &Vec<Channel>, selected: &Option<String>) -> (r: (String, Option<String>))
    ensures
        (r.0@, opt_view(r.1)) == trend_label(channels@.map_values(|c: Channel| c@), opt_view(*selected)),
{
    let ghost s = channels@.map_values(|c: Channel| c@);
    match selected {
        Some(key) => {
            let mut i: usize = 0;
            while i < channels.len()
                invariant
                    s == channels@.map_values(|c: Channel| c@),
                    opt_view(*selected) == Some(key@),
                    i <= channels@.len(),
                    forall|j: int| 0 <= j < i ==> key_of(s[j]) != key@,
                decreases channels@.len() - i,
            {
                let k = channel_key(&channels[i]);
                if same_text(k.as_str(), key.as_str()) {
                    proof {
                        assert(s[i as int] == channels@[i as int]@);
                        lemma_selected_is(s, key@, i as int);
                    }
                    let name = channels[i].name.clone();
                    let units = copy_opt(&channels[i].units);
                    return (name, units);
                }
                i = i + 1;
            }
            proof {
                if exists|c: int| first_keyed(s, key@, c) {
                    let c = choose|c: int| first_keyed(s, key@, c);
                    assert(key_of(s[c]) != key@);
                }
            }
            (owned("Unknown"), None)
        },
        None => (owned("Unknown"), None),
    }
}

} // verus!
