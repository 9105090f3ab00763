//! Sequent Microsystems boards: what a scan reports, the commands sent to the firmware
//! interface, and the plan that switches every output off.
use vstd::prelude::*;
use crate::text::{
    append_chars, append_decimal, append_str, chars_of, decimal, digit, digit_char, has_prefix,
    owned, parse_unsigned, parsed_unsigned, push_char, same_text, starts_with,
};

verus! {

/// The board families the controller drives.
#[derive(Debug, Clone, Copy, PartialEq, Eq, Structural)]
pub enum BoardType {
    MegaBAS,
    Relay8,
    Relay16,
    UnivIn16,
    UOut16,
}

/// The name the firmware interface uses for a board family.
pub open spec fn board_type_text(t: BoardType) -> Seq<char> {
    match t {
        BoardType::MegaBAS => "megabas"@,
        BoardType::Relay8 => "8relay"@,
        BoardType::Relay16 => "16relay"@,
        BoardType::UnivIn16 => "16univin"@,
        BoardType::UOut16 => "16uout"@,
    }
}

/// The board family the firmware interface calls `s`.
pub open spec fn board_type_named(s: Seq<char>) -> Option<BoardType> {
    if s == "megabas"@ {
        Some(BoardType::MegaBAS)
    } else if s == "8relay"@ {
        Some(BoardType::Relay8)
    } else if s == "16relay"@ {
        Some(BoardType::Relay16)
    } else if s == "16univin"@ {
        Some(BoardType::UnivIn16)
    } else if s == "16uout"@ {
        Some(BoardType::UOut16)
    } else {
        None
    }
}

/// The variant name of a board family (its `Debug` form).
pub open spec fn board_type_label(t: BoardType) -> Seq<char> {
    match t {
        BoardType::MegaBAS => "MegaBAS"@,
        BoardType::Relay8 => "Relay8"@,
        BoardType::Relay16 => "Relay16"@,
        BoardType::UnivIn16 => "UnivIn16"@,
        BoardType::UOut16 => "UOut16"@,
    }
}

/// The firmware interface's name for a board family.
pub fn board_type_name(t: BoardType) -> (s: &'static str)
    ensures
        s@ == board_type_text(t),
{
    match t {
        BoardType::MegaBAS => "megabas",
        BoardType::Relay8 => "8relay",
        BoardType::Relay16 => "16relay",
        BoardType::UnivIn16 => "16univin",
        BoardType::UOut16 => "16uout",
    }
}

/// The board family named `s` by the firmware interface, if any.
pub fn parse_board_type(s: &str) -> (r: Option<BoardType>)
    ensures
        r == board_type_named(s@),
{
    if same_text(s, "megabas") {
        Some(BoardType::MegaBAS)
    } else if same_text(s, "8relay") {
        Some(BoardType::Relay8)
    } else if same_text(s, "16relay") {
        Some(BoardType::Relay16)
    } else if same_text(s, "16univin") {
        Some(BoardType::UnivIn16)
    } else if same_text(s, "16uout") {
        Some(BoardType::UOut16)
    } else {
        None
    }
}

/// Reading a family's interface name back gives the family.
pub proof fn law_board_type_round_trip(t: BoardType)
    ensures
        board_type_named(board_type_text(t)) == Some(t),
{
    reveal_strlit("megabas");
    reveal_strlit("8relay");
    reveal_strlit("16relay");
    reveal_strlit("16univin");
    reveal_strlit("16uout");
    assert("megabas"@.len() == 7);
    assert("8relay"@.len() == 6);
    assert("16relay"@.len() == 7);
    assert("16univin"@.len() == 8);
    assert("16uout"@.len() == 6);
    assert("megabas"@[0] != "16relay"@[0]);
    assert("8relay"@[0] != "16uout"@[0]);
}

/// A board found by a scan.
#[derive(Debug, Clone)]
pub struct BoardInfo {
    pub board_type: BoardType,
    pub stack_level: u8,
    pub name: String,
    pub version: String,
    pub status: String,
}

/// The contents of a [`BoardInfo`].
pub struct BoardView {
    pub board_type: BoardType,
    pub stack_level: u8,
    pub name: Seq<char>,
    pub version: Seq<char>,
    pub status: Seq<char>,
}

impl View for BoardInfo {
    type V = BoardView;

    open spec fn view(&self) -> BoardView {
        BoardView {
            board_type: self.board_type,
            stack_level: self.stack_level,
            name: self.name@,
            version: self.version@,
            status: self.status@,
        }
    }
}

impl BoardInfo {
    /// A copy of this board.
    pub fn duplicate(&self) -> (r: BoardInfo)
        ensures
            r@ == self@,
    {
        BoardInfo {
            board_type: self.board_type,
            stack_level: self.stack_level,
            name: self.name.clone(),
            version: self.version.clone(),
            status: self.status.clone(),
        }
    }
}

/// The state of one relay.
#[derive(Debug, Clone, Copy, PartialEq, Eq, Structural)]
pub struct RelayState {
    pub channel: u8,
    pub state: bool,
}

/// The state of one triac output.
#[derive(Debug, Clone, Copy, PartialEq, Eq, Structural)]
pub struct TriacState {
    pub channel: u8,
    pub state: bool,
}

/// The state of one dry contact input.
#[derive(Debug, Clone, Copy, PartialEq, Eq, Structural)]
pub struct ContactState {
    pub channel: u8,
    pub state: bool,
    pub counter: u32,
    pub edge_mode: u8,
}

/// One board as the interface's `scan` lists it; a field is `None` where the entry
/// lacks it or it has another JSON type.
#[derive(Debug, Clone)]
pub struct ScanEntry {
    pub board_type: Option<String>,
    pub stack: Option<u64>,
    pub name: Option<String>,
    pub version: Option<String>,
}

/// The view of an optional string.
pub open spec fn opt_text(o: Option<String>) -> Option<Seq<char>> {
    match o {
        Some(s) => Some(s@),
        None => None,
    }
}

/// The fields of a scan entry: family, stack, name and version.
pub type ScanEntryView = (Option<Seq<char>>, Option<u64>, Option<Seq<char>>, Option<Seq<char>>);

impl View for ScanEntry {
    type V = ScanEntryView;

    open spec fn view(&self) -> ScanEntryView {
        (opt_text(self.board_type), self.stack, opt_text(self.name), opt_text(self.version))
    }
}

/// The views of scan entries.
pub open spec fn entries_of_scan(v: Seq<ScanEntry>) -> Seq<ScanEntryView> {
    v.map_values(|e: ScanEntry| e@)
}

/// An optional text, or `default`.
pub open spec fn text_or(o: Option<Seq<char>>, default: Seq<char>) -> Seq<char> {
    match o {
        Some(s) => s,
        None => default,
    }
}

/// The board a scan entry describes, if its family is known: the stack level is the
/// entry's number truncated to a byte, a missing name or version reads `Unknown`.
pub open spec fn scanned_board(e: ScanEntryView) -> Option<BoardView> {
    match board_type_named(text_or(e.0, ""@)) {
        Some(t) => Some(
            BoardView {
                board_type: t,
                stack_level: (match e.1 {
                    Some(n) => n,
                    None => 0,
                } % 256) as u8,
                name: text_or(e.2, "Unknown"@),
                version: text_or(e.3, "Unknown"@),
                status: "Online"@,
            },
        ),
        None => None,
    }
}

/// The boards of a scan, in order, skipping entries of unknown families.
pub open spec fn scanned(es: Seq<ScanEntryView>) -> Seq<BoardView>
    decreases es.len(),
{
    if es.len() == 0 {
        Seq::empty()
    } else {
        match scanned_board(es.last()) {
            Some(b) => scanned(es.drop_last()).push(b),
            None => scanned(es.drop_last()),
        }
    }
}

/// The views of a list of boards.
pub open spec fn boards_view(v: Seq<BoardInfo>) -> Seq<BoardView> {
    v.map_values(|b: BoardInfo| b@)
}

fn text_or_default(o: &Option<String>, default: &str) -> (r: String)
    ensures
        r@ == text_or(opt_text(*o), default@),
{
    match o {
        Some(s) => s.clone(),
        None => owned(default),
    }
}

/// The board of one scan entry.
pub fn scan_entry_board(e: &ScanEntry) -> (r: Option<BoardInfo>)
    ensures
        match r {
            Some(b) => scanned_board(e@) == Some(b@),
            None => scanned_board(e@) is None,
        },
{
    let t = match &e.board_type {
        Some(s) => parse_board_type(s.as_str()),
        None => {
            proof {
                reveal_strlit("");
            }
            parse_board_type("")
        },
    };
    match t {
        Some(board_type) => {
            let n: u64 = match e.stack {
                Some(n) => n,
                None => 0,
            };
            let stack_level = (n % 256) as u8;
            Some(
                BoardInfo {
                    board_type,
                    stack_level,
                    name: text_or_default(&e.name, "Unknown"),
                    version: text_or_default(&e.version, "Unknown"),
                    status: owned("Online"),
                },
            )
        },
        None => None,
    }
}

/// The boards of a scan.
pub fn scan_result(entries: &Vec<ScanEntry>) -> (r: Vec<BoardInfo>)
    ensures
        boards_view(r@) == scanned(entries_of_scan(entries@)),
{
    let ghost ev = entries_of_scan(entries@);
    let mut r: Vec<BoardInfo> = Vec::new();
    let mut i: usize = 0;
    while i < entries.len()
        invariant
            ev == entries_of_scan(entries@),
            i <= entries@.len(),
            boards_view(r@) == scanned(ev.take(i as int)),
        decreases entries@.len() - i,
    {
        let ghost before = r@;
        assert(ev.take(i + 1).drop_last() =~= ev.take(i as int));
        assert(ev.take(i + 1).last() == entries@[i as int]@);
        match scan_entry_board(&entries[i]) {
            Some(b) => {
                r.push(b);
                assert(boards_view(r@) =~= boards_view(before).push(r@.last()@));
            },
            None => {},
        }
        i = i + 1;
    }
    assert(ev.take(entries@.len() as int) =~= ev);
    r
}

/// What to ask of the firmware interface.
#[derive(Debug, Clone, Copy, PartialEq, Eq, Structural)]
pub enum BoardCommand {
    /// List the connected boards.
    Scan,
    /// Read the whole status of a board.
    ReadStatus { board_type: BoardType, stack: u8 },
    /// Read one input of a 16-input board.
    ReadUniversalInput { stack: u8, channel: u8 },
    /// Switch a MegaBAS triac.
    SetTriac { stack: u8, triac: u8, on: bool },
    /// Set a MegaBAS 0-10 V output, in millivolts.
    SetAnalogOutput { stack: u8, channel: u8, millivolts: u16 },
    /// Switch a relay.
    SetRelay { board_type: BoardType, stack: u8, relay: u8, on: bool },
    /// Set a 16-output board's 0-10 V output, in millivolts.
    SetUniversalOutput { stack: u8, channel: u8, millivolts: u16 },
}

/// The fraction digits of a millivolt remainder `1..999`, without trailing zeros.
pub open spec fn fraction_digits(f: nat) -> Seq<char> {
    if f % 100 == 0 {
        seq![digit_char((f / 100) as int)]
    } else if f % 10 == 0 {
        seq![digit_char((f / 100) as int), digit_char(((f / 10) % 10) as int)]
    } else {
        seq![digit_char((f / 100) as int), digit_char(((f / 10) % 10) as int), digit_char((f % 10) as int)]
    }
}

/// A non-negative millivolt value written in volts, in the shortest decimal form
/// (`2500` is `2.5`, `10000` is `10`).
pub open spec fn unsigned_volts(mv: nat) -> Seq<char> {
    if mv % 1000 == 0 {
        decimal(mv / 1000)
    } else {
        decimal(mv / 1000) + seq!['.'] + fraction_digits(mv % 1000)
    }
}

/// A millivolt value written in volts.
pub open spec fn volts_text(mv: int) -> Seq<char> {
    if mv < 0 {
        seq!['-'] + unsigned_volts((-mv) as nat)
    } else {
        unsigned_volts(mv as nat)
    }
}

/// Appends `mv` millivolts, written in volts.
pub fn append_volts(out: &mut String, mv: i32)
    ensures
        final(out)@ == old(out)@ + volts_text(mv as int),
{
    let m: u32 = if mv < 0 {
        if mv == i32::MIN { 2147483648u32 } else { (-mv) as u32 }
    } else {
        mv as u32
    };
    if mv < 0 {
        push_char(out, '-');
    }
    let ghost mid = out@;
    append_decimal(out, (m / 1000) as u64);
    let f = m % 1000;
    if f != 0 {
        push_char(out, '.');
        push_char(out, digit((f / 100) as u64));
        if f % 100 != 0 {
            push_char(out, digit(((f / 10) % 10) as u64));
            if f % 10 != 0 {
                push_char(out, digit((f % 10) as u64));
            }
        }
    }
    assert(out@ =~= old(out)@ + volts_text(mv as int));
}

/// `1` for on, `0` for off.
pub open spec fn switch_text(on: bool) -> Seq<char> {
    if on { "1"@ } else { "0"@ }
}

/// The arguments the firmware interface takes for a command.
pub open spec fn command_words(c: BoardCommand) -> Seq<Seq<char>> {
    match c {
        BoardCommand::Scan => seq!["scan"@],
        BoardCommand::ReadStatus { board_type, stack } => seq!["status"@, board_type_text(board_type), decimal(stack as nat)],
        BoardCommand::ReadUniversalInput { stack, channel } => seq!["read_16univin"@, decimal(stack as nat), decimal(channel as nat)],
        BoardCommand::SetTriac { stack, triac, on } => seq!["set_output"@, decimal(stack as nat), "triac"@, decimal(triac as nat), switch_text(on)],
        BoardCommand::SetAnalogOutput { stack, channel, millivolts } => seq![
            "set_output"@,
            decimal(stack as nat),
            "analog"@,
            decimal(channel as nat),
            volts_text(millivolts as int),
        ],
        BoardCommand::SetRelay { board_type, stack, relay, on } => seq![
            "set_relay"@,
            board_type_text(board_type),
            decimal(stack as nat),
            decimal(relay as nat),
            switch_text(on),
        ],
        BoardCommand::SetUniversalOutput { stack, channel, millivolts } => seq![
            "set_16uout"@,
            decimal(stack as nat),
            decimal(channel as nat),
            volts_text(millivolts as int),
        ],
    }
}

fn decimal_text(n: u8) -> (s: String)
    ensures
        s@ == decimal(n as nat),
{
    let mut s = String::new();
    append_decimal(&mut s, n as u64);
    assert(s@ =~= decimal(n as nat));
    s
}

fn volts_string(mv: u16) -> (s: String)
    ensures
        s@ == volts_text(mv as int),
{
    let mut s = String::new();
    append_volts(&mut s, mv as i32);
    assert(s@ =~= volts_text(mv as int));
    s
}

fn switch_string(on: bool) -> (s: String)
    ensures
        s@ == switch_text(on),
{
    if on { owned("1") } else { owned("0") }
}

/// The views of a list of strings.
pub open spec fn words_view(v: Seq<String>) -> Seq<Seq<char>> {
    v.map_values(|s: String| s@)
}

/// The arguments to pass to the firmware interface for `c`.
pub fn command_args(c: BoardCommand) -> (r: Vec<String>)
    ensures
        words_view(r@) == command_words(c),
{
    let r = match c {
        BoardCommand::Scan => vec![owned("scan")],
        BoardCommand::ReadStatus { board_type, stack } => vec![
            owned("status"),
            owned(board_type_name(board_type)),
            decimal_text(stack),
        ],
        BoardCommand::ReadUniversalInput { stack, channel } => vec![
            owned("read_16univin"),
            decimal_text(stack),
            decimal_text(channel),
        ],
        BoardCommand::SetTriac { stack, triac, on } => vec![
            owned("set_output"),
            decimal_text(stack),
            owned("triac"),
            decimal_text(triac),
            switch_string(on),
        ],
        BoardCommand::SetAnalogOutput { stack, channel, millivolts } => vec![
            owned("set_output"),
            decimal_text(stack),
            owned("analog"),
            decimal_text(channel),
            volts_string(millivolts),
        ],
        BoardCommand::SetRelay { board_type, stack, relay, on } => vec![
            owned("set_relay"),
            owned(board_type_name(board_type)),
            decimal_text(stack),
            decimal_text(relay),
            switch_string(on),
        ],
        BoardCommand::SetUniversalOutput { stack, channel, millivolts } => vec![
            owned("set_16uout"),
            decimal_text(stack),
            decimal_text(channel),
            volts_string(millivolts),
        ],
    };
    assert(words_view(r@) =~= command_words(c));
    r
}

/// The firmware interface installed with the controller.
pub const PYTHON_INTERFACE: &'static str = "/opt/automata-nexus/firmware_interface.py";

/// The firmware interface of a development checkout.
pub const FALLBACK_INTERFACE: &'static str = "/home/Automata/Development/projects/Rust-SSD-Nexus-Controller/src/firmware_interface.py";

/// The firmware interface to run, given which of the two files exist: the installed one
/// first, else the development one.
pub fn interface_path(installed_exists: bool, fallback_exists: bool) -> (r: Result<&'static str, String>)
    ensures
        installed_exists ==> (r matches Ok(p) && p@ == PYTHON_INTERFACE@),
        !installed_exists && fallback_exists ==> (r matches Ok(p) && p@ == FALLBACK_INTERFACE@),
        !installed_exists && !fallback_exists ==> (r matches Err(e) && e@ == "Firmware interface not found at "@
            + PYTHON_INTERFACE@ + " or "@ + FALLBACK_INTERFACE@),
{
    if installed_exists {
        Ok(PYTHON_INTERFACE)
    } else if fallback_exists {
        Ok(FALLBACK_INTERFACE)
    } else {
        let mut e = owned("Firmware interface not found at ");
        append_str(&mut e, PYTHON_INTERFACE);
        append_str(&mut e, " or ");
        append_str(&mut e, FALLBACK_INTERFACE);
        Err(e)
    }
}

/// `text` followed by the decimal form of `n`.
fn with_number(text: &str, n: u8) -> (s: String)
    ensures
        s@ == text@ + decimal(n as nat),
{
    let mut s = owned(text);
    append_decimal(&mut s, n as u64);
    s
}

/// `"ch{channel}"`, the key of a channel in a board's status.
pub fn channel_key(channel: u8) -> (k: String)
    ensures
        k@ == "ch"@ + decimal(channel as nat),
{
    with_number("ch", channel)
}

/// `"{interface name}_{stack}"`, the key of a board's cached status.
pub fn status_key(board_type: BoardType, stack: u8) -> (k: String)
    ensures
        k@ == board_type_text(board_type) + "_"@ + decimal(stack as nat),
{
    let mut k = owned(board_type_name(board_type));
    append_str(&mut k, "_");
    append_decimal(&mut k, stack as u64);
    k
}

/// `"{variant name}_{stack}"`, the id of a board in the application state.
pub fn board_id(board_type: BoardType, stack: u8) -> (k: String)
    ensures
        k@ == board_type_label(board_type) + "_"@ + decimal(stack as nat),
{
    let mut k = owned(
        match board_type {
            BoardType::MegaBAS => "MegaBAS",
            BoardType::Relay8 => "Relay8",
            BoardType::Relay16 => "Relay16",
            BoardType::UnivIn16 => "UnivIn16",
            BoardType::UOut16 => "UOut16",
        },
    );
    append_str(&mut k, "_");
    append_decimal(&mut k, stack as u64);
    k
}

/// The channel a status key such as `ch3` names: `ch`, then a number that fits a byte.
pub open spec fn channel_of(key: Seq<char>) -> Option<u8> {
    if has_prefix(key, "ch"@) {
        match parsed_unsigned(key.skip(2), 255) {
            Some(n) => Some(n as u8),
            None => None,
        }
    } else {
        None
    }
}

/// The `(channel, on)` pairs of a status object's entries, in order, skipping keys that
/// name no channel; a value that is not a boolean reads as off.
pub open spec fn channel_states(es: Seq<(Seq<char>, Option<bool>)>) -> Seq<(u8, bool)>
    decreases es.len(),
{
    if es.len() == 0 {
        Seq::empty()
    } else {
        match channel_of(es.last().0) {
            Some(c) => channel_states(es.drop_last()).push(
                (
                    c,
                    match es.last().1 {
                        Some(b) => b,
                        None => false,
                    },
                ),
            ),
            None => channel_states(es.drop_last()),
        }
    }
}

/// The view of a status object's entries.
pub open spec fn entries_view(v: Seq<(String, Option<bool>)>) -> Seq<(Seq<char>, Option<bool>)> {
    v.map_values(|p: (String, Option<bool>)| (p.0@, p.1))
}

/// The channel a status key names, if any.
pub fn parse_channel_key(key: &str) -> (r: Option<u8>)
    ensures
        r == channel_of(key@),
{
    proof {
        reveal_strlit("ch");
    }
    if !starts_with(key, "ch") {
        return None;
    }
    let v = chars_of(key);
    let mut rest = String::new();
    append_chars(&mut rest, &v, 2, v.len());
    assert(rest@ =~= key@.skip(2));
    match parse_unsigned(rest.as_str(), 255) {
        Some(n) => Some(n as u8),
        None => None,
    }
}

fn parse_channel_states(entries: &Vec<(String, Option<bool>)>) -> (r: Vec<(u8, bool)>)
    ensures
        r@ == channel_states(entries_view(entries@)),
{
    let ghost ev = entries_view(entries@);
    let mut r: Vec<(u8, bool)> = Vec::new();
    let mut i: usize = 0;
    while i < entries.len()
        invariant
            ev == entries_view(entries@),
            i <= entries@.len(),
            r@ == channel_states(ev.take(i as int)),
        decreases entries@.len() - i,
    {
        assert(ev.take(i + 1).drop_last() =~= ev.take(i as int));
        assert(ev.take(i + 1).last() == ev[i as int]);
        match parse_channel_key(entries[i].0.as_str()) {
            Some(c) => {
                let on = match entries[i].1 {
                    Some(b) => b,
                    None => false,
                };
                r.push((c, on));
            },
            None => {},
        }
        i = i + 1;
    }
    assert(ev.take(entries@.len() as int) =~= ev);
    r
}

/// The relay states listed in a board status's `relays` object.
pub fn relay_states(entries: &Vec<(String, Option<bool>)>) -> (r: Vec<RelayState>)
    ensures
        r@.map_values(|s: RelayState| (s.channel, s.state)) == channel_states(entries_view(entries@)),
{
    let pairs = parse_channel_states(entries);
    let mut r: Vec<RelayState> = Vec::new();
    let mut i: usize = 0;
    while i < pairs.len()
        invariant
            i <= pairs@.len(),
            r@.len() == i,
            forall|j: int| 0 <= j < i ==> (#[trigger] r@[j]).channel == pairs@[j].0 && r@[j].state == pairs@[j].1,
        decreases pairs@.len() - i,
    {
        r.push(RelayState { channel: pairs[i].0, state: pairs[i].1 });
        i = i + 1;
    }
    assert(r@.map_values(|s: RelayState| (s.channel, s.state)) =~= pairs@);
    r
}

/// The triac states listed in a board status's `triacs` object.
pub fn triac_states(entries: &Vec<(String, Option<bool>)>) -> (r: Vec<TriacState>)
    ensures
        r@.map_values(|s: TriacState| (s.channel, s.state)) == channel_states(entries_view(entries@)),
{
    let pairs = parse_channel_states(entries);
    let mut r: Vec<TriacState> = Vec::new();
    let mut i: usize = 0;
    while i < pairs.len()
        invariant
            i <= pairs@.len(),
            r@.len() == i,
            forall|j: int| 0 <= j < i ==> (#[trigger] r@[j]).channel == pairs@[j].0 && r@[j].state == pairs@[j].1,
        decreases pairs@.len() - i,
    {
        r.push(TriacState { channel: pairs[i].0, state: pairs[i].1 });
        i = i + 1;
    }
    assert(r@.map_values(|s: TriacState| (s.channel, s.state)) =~= pairs@);
    r
}

/// A dry contact from the fields of its status entry: a missing state reads as open, a
/// missing counter or edge mode as zero, and the numbers are truncated to their widths.
pub fn contact_state(channel: u8, state: Option<bool>, counter: Option<u64>, edge_mode: Option<u64>) -> (c: ContactState)
    ensures
        c.channel == channel,
        c.state == match state {
            Some(b) => b,
            None => false,
        },
        c.counter == (match counter {
            Some(n) => n,
            None => 0,
        } % 0x1_0000_0000) as u32,
        c.edge_mode == (match edge_mode {
            Some(n) => n,
            None => 0,
        } % 256) as u8,
{
    let s = match state {
        Some(b) => b,
        None => false,
    };
    let n: u64 = match counter {
        Some(n) => n,
        None => 0,
    };
    let e: u64 = match edge_mode {
        Some(n) => n,
        None => 0,
    };
    ContactState { channel, state: s, counter: (n % 0x1_0000_0000) as u32, edge_mode: (e % 256) as u8 }
}

/// What the interface's `scan` printed, read as JSON: the fields `type`, `stack`, `name`
/// and `version` of each element of the array (each `None` where the element lacks it or
/// it has another JSON type), or the parser's error message when the text is no JSON
/// array.
pub uninterp spec fn scan_json(output: Seq<char>) -> Result<Seq<ScanEntryView>, Seq<char>>;

/// `serde_json::from_str::<Vec<serde_json::Value>>` of a scan's output, each element
/// taken by its four fields.
#[verifier::external_body]
fn parse_scan_output(output: &str) -> (r: Result<Vec<ScanEntry>, String>)
    ensures
        match r {
            Ok(v) => scan_json(output@) == Ok::<Seq<ScanEntryView>, Seq<char>>(entries_of_scan(v@)),
            Err(e) => scan_json(output@) == Err::<Seq<ScanEntryView>, Seq<char>>(e@),
        },
{
    let values: Vec<serde_json::Value> = serde_json::from_str(output).map_err(|e| e.to_string())?;
    Ok(values.iter().map(|v| ScanEntry {
        board_type: v["type"].as_str().map(|t| t.to_string()),
        stack: v["stack"].as_u64(),
        name: v["name"].as_str().map(|t| t.to_string()),
        version: v["version"].as_str().map(|t| t.to_string()),
    }).collect())
}

/// The parts of a board's status the controller reads: the `relays` and `triacs`
/// objects (each key with its value if it is a boolean) and the `contacts` object (each
/// key with its `state`, `counter` and `edge_mode`); `None` for a part that is missing or
/// no JSON object.
#[derive(Debug, Clone)]
pub struct BoardStatus {
    pub relays: Option<Vec<(String, Option<bool>)>>,
    pub triacs: Option<Vec<(String, Option<bool>)>>,
    pub contacts: Option<Vec<(String, Option<bool>, Option<u64>, Option<u64>)>>,
}

/// The view of a status object's entries, if there is the object.
pub open spec fn opt_entries_view(o: Option<Vec<(String, Option<bool>)>>) -> Option<Seq<(Seq<char>, Option<bool>)>> {
    match o {
        Some(v) => Some(entries_view(v@)),
        None => None,
    }
}

/// The contacts of a status, by view.
pub type ContactEntryView = (Seq<char>, Option<bool>, Option<u64>, Option<u64>);

/// The view of the contacts object's entries, if there is the object.
pub open spec fn opt_contacts_view(
    o: Option<Vec<(String, Option<bool>, Option<u64>, Option<u64>)>>,
) -> Option<Seq<ContactEntryView>> {
    match o {
        Some(v) => Some(v@.map_values(|c: (String, Option<bool>, Option<u64>, Option<u64>)| (c.0@, c.1, c.2, c.3))),
        None => None,
    }
}

impl View for BoardStatus {
    type V = (Option<Seq<(Seq<char>, Option<bool>)>>, Option<Seq<(Seq<char>, Option<bool>)>>, Option<Seq<ContactEntryView>>);

    open spec fn view(&self) -> Self::V {
        (opt_entries_view(self.relays), opt_entries_view(self.triacs), opt_contacts_view(self.contacts))
    }
}

/// What the interface's `status` printed, read as a JSON object: its `relays`, `triacs`
/// and `contacts` parts, or the parser's error message when the text is no JSON object.
pub uninterp spec fn status_json(output: Seq<char>) -> Result<(Option<Seq<(Seq<char>, Option<bool>)>>, Option<Seq<(Seq<char>, Option<bool>)>>, Option<Seq<ContactEntryView>>), Seq<char>>;

/// `serde_json::from_str::<serde_json::Map<String, serde_json::Value>>` of a status
/// output, taken by the parts the controller reads.
#[verifier::external_body]
fn parse_status_output(output: &str) -> (r: Result<BoardStatus, String>)
    ensures
        match r {
            Ok(st) => status_json(output@) == Ok::<_, Seq<char>>(st@),
            Err(e) => status_json(output@) is Err && status_json(output@)->Err_0 == e@,
        },
{
    let m: serde_json::Map<String, serde_json::Value> = serde_json::from_str(output).map_err(|e| e.to_string())?;
    let obj = |k: &str| m.get(k).and_then(|v| v.as_object());
    let flags = |k| obj(k).map(|o| o.iter().map(|(c, x)| (c.clone(), x.as_bool())).collect());
    let contacts = obj("contacts")
        .map(|o| o.iter().map(|(c, x)| (c.clone(), x["state"].as_bool(), x["counter"].as_u64(), x["edge_mode"].as_u64())).collect());
    Ok(BoardStatus { relays: flags("relays"), triacs: flags("triacs"), contacts })
}

/// The entries of an optional status object; none without the object.
pub open spec fn entries_or_none(o: Option<Seq<(Seq<char>, Option<bool>)>>) -> Seq<(Seq<char>, Option<bool>)> {
    match o {
        Some(es) => es,
        None => Seq::empty(),
    }
}

fn entries_or_empty(o: Option<Vec<(String, Option<bool>)>>) -> (r: Vec<(String, Option<bool>)>)
    ensures
        entries_view(r@) == entries_or_none(opt_entries_view(o)),
{
    match o {
        Some(v) => v,
        None => {
            let r: Vec<(String, Option<bool>)> = Vec::new();
            assert(entries_view(r@) =~= Seq::<(Seq<char>, Option<bool>)>::empty());
            r
        },
    }
}

/// The relay states a board's status output reports: the channels of its `relays`
/// object (none without it), or the parser's error for output that is no JSON object.
pub fn relay_states_of_output(output: &str) -> (r: Result<Vec<RelayState>, String>)
    ensures
        match status_json(output@) {
            Ok(st) => r matches Ok(v) && v@.map_values(|x: RelayState| (x.channel, x.state))
                == channel_states(entries_or_none(st.0)),
            Err(e) => r matches Err(m) && m@ == e,
        },
{
    match parse_status_output(output) {
        Ok(st) => Ok(relay_states(&entries_or_empty(st.relays))),
        Err(e) => Err(e),
    }
}

/// The triac states a MegaBAS's status output reports: the channels of its `triacs`
/// object (none without it), or the parser's error for output that is no JSON object.
pub fn triac_states_of_output(output: &str) -> (r: Result<Vec<TriacState>, String>)
    ensures
        match status_json(output@) {
            Ok(st) => r matches Ok(v) && v@.map_values(|x: TriacState| (x.channel, x.state))
                == channel_states(entries_or_none(st.1)),
            Err(e) => r matches Err(m) && m@ == e,
        },
{
    match parse_status_output(output) {
        Ok(st) => Ok(triac_states(&entries_or_empty(st.triacs))),
        Err(e) => Err(e),
    }
}

/// The fields of the contact entry with key `key`: the last one with that key, or none.
pub open spec fn contact_fields(cs: Seq<ContactEntryView>, key: Seq<char>) -> (Option<bool>, Option<u64>, Option<u64>)
    decreases cs.len(),
{
    if cs.len() == 0 {
        (None, None, None)
    } else if cs.last().0 == key {
        (cs.last().1, cs.last().2, cs.last().3)
    } else {
        contact_fields(cs.drop_last(), key)
    }
}

fn find_contact(cs: &Vec<(String, Option<bool>, Option<u64>, Option<u64>)>, key: &str) -> (r: (Option<bool>, Option<u64>, Option<u64>))
    ensures
        r == contact_fields(opt_contacts_view(Some(*cs))->Some_0, key@),
{
    let ghost cv = opt_contacts_view(Some(*cs))->Some_0;
    let mut r: (Option<bool>, Option<u64>, Option<u64>) = (None, None, None);
    let mut i: usize = 0;
    assert(cv.take(0) =~= Seq::<ContactEntryView>::empty());
    while i < cs.len()
        invariant
            cv == opt_contacts_view(Some(*cs))->Some_0,
            i <= cs@.len(),
            r == contact_fields(cv.take(i as int), key@),
        decreases cs@.len() - i,
    {
        assert(cv.take(i + 1).drop_last() =~= cv.take(i as int));
        assert(cv.take(i + 1).last() == (cs@[i as int].0@, cs@[i as int].1, cs@[i as int].2, cs@[i as int].3));
        if same_text(cs[i].0.as_str(), key) {
            r = (cs[i].1, cs[i].2, cs[i].3);
        }
        i = i + 1;
    }
    assert(cv.take(cs@.len() as int) =~= cv);
    r
}

/// The fields of the contact `key` in an optional contacts object; none without it.
pub open spec fn contact_in(o: Option<Seq<ContactEntryView>>, key: Seq<char>) -> (Option<bool>, Option<u64>, Option<u64>) {
    match o {
        Some(cs) => contact_fields(cs, key),
        None => (None, None, None),
    }
}

/// The dry contact on `channel` that a MegaBAS's status output reports: the fields of
/// its entry `ch{channel}` in the `contacts` object, read as [`contact_state`] reads
/// them; or the parser's error for output that is no JSON object.
pub fn contact_of_output(output: &str, channel: u8) -> (r: Result<ContactState, String>)
    ensures
        match status_json(output@) {
            Ok(st) => r matches Ok(c) && {
                let f = contact_in(st.2, "ch"@ + decimal(channel as nat));
                &&& c.channel == channel
                &&& c.state == match f.0 {
                    Some(b) => b,
                    None => false,
                }
                &&& c.counter == (match f.1 {
                    Some(n) => n,
                    None => 0,
                } % 0x1_0000_0000) as u32
                &&& c.edge_mode == (match f.2 {
                    Some(n) => n,
                    None => 0,
                } % 256) as u8
            },
            Err(e) => r matches Err(m) && m@ == e,
        },
{
    match parse_status_output(output) {
        Ok(st) => {
            let key = channel_key(channel);
            let f = match &st.contacts {
                Some(cs) => find_contact(cs, key.as_str()),
                None => (None, None, None),
            };
            Ok(contact_state(channel, f.0, f.1, f.2))
        },
        Err(e) => Err(e),
    }
}

/// The commands that switch off every output of one board: the MegaBAS triacs `1..=4`
/// and analog outputs `1..=4` (to 0 V), every relay of a relay board, and every output
/// of a 16-output board (to 0 V). A 16-input board has no outputs.
pub open spec fn stop_commands(b: BoardView) -> Seq<BoardCommand> {
    match b.board_type {
        BoardType::MegaBAS => Seq::new(4, |i: int| BoardCommand::SetTriac { stack: b.stack_level, triac: (i + 1) as u8, on: false })
            + Seq::new(4, |i: int| BoardCommand::SetAnalogOutput { stack: b.stack_level, channel: (i + 1) as u8, millivolts: 0 }),
        BoardType::Relay8 => Seq::new(8, |i: int| BoardCommand::SetRelay { board_type: BoardType::Relay8, stack: b.stack_level, relay: (i + 1) as u8, on: false }),
        BoardType::Relay16 => Seq::new(16, |i: int| BoardCommand::SetRelay { board_type: BoardType::Relay16, stack: b.stack_level, relay: (i + 1) as u8, on: false }),
        BoardType::UOut16 => Seq::new(16, |i: int| BoardCommand::SetUniversalOutput { stack: b.stack_level, channel: (i + 1) as u8, millivolts: 0 }),
        BoardType::UnivIn16 => Seq::empty(),
    }
}

/// The commands that switch off every output of every board, board by board.
pub open spec fn stop_plan(bs: Seq<BoardView>) -> Seq<BoardCommand>
    decreases bs.len(),
{
    if bs.len() == 0 {
        Seq::empty()
    } else {
        stop_plan(bs.drop_last()) + stop_commands(bs.last())
    }
}

fn push_stop_commands(out: &mut Vec<BoardCommand>, b: &BoardInfo)
    ensures
        final(out)@ == old(out)@ + stop_commands(b@),
{
    let stack = b.stack_level;
    match b.board_type {
        BoardType::MegaBAS => {
            let mut k: u8 = 0;
            while k < 4
                invariant
                    k <= 4,
                    out@ == old(out)@ + Seq::new(k as nat, |i: int| BoardCommand::SetTriac { stack, triac: (i + 1) as u8, on: false }),
                decreases 4 - k,
            {
                out.push(BoardCommand::SetTriac { stack, triac: k + 1, on: false });
                k = k + 1;
                assert(out@ =~= old(out)@ + Seq::new(k as nat, |i: int| BoardCommand::SetTriac { stack, triac: (i + 1) as u8, on: false }));
            }
            let ghost mid = out@;
            let mut k: u8 = 0;
            while k < 4
                invariant
                    k <= 4,
                    out@ == mid + Seq::new(k as nat, |i: int| BoardCommand::SetAnalogOutput { stack, channel: (i + 1) as u8, millivolts: 0 }),
                decreases 4 - k,
            {
                out.push(BoardCommand::SetAnalogOutput { stack, channel: k + 1, millivolts: 0 });
                k = k + 1;
                assert(out@ =~= mid + Seq::new(k as nat, |i: int| BoardCommand::SetAnalogOutput { stack, channel: (i + 1) as u8, millivolts: 0 }));
            }
            assert(out@ =~= old(out)@ + stop_commands(b@));
        },
        BoardType::Relay8 | BoardType::Relay16 => {
            let bt = b.board_type;
            let n: u8 = if bt == BoardType::Relay8 { 8 } else { 16 };
            let mut k: u8 = 0;
            while k < n
                invariant
                    k <= n,
                    n == 8 || n == 16,
                    out@ == old(out)@ + Seq::new(k as nat, |i: int| BoardCommand::SetRelay { board_type: bt, stack, relay: (i + 1) as u8, on: false }),
                decreases n - k,
            {
                out.push(BoardCommand::SetRelay { board_type: bt, stack, relay: k + 1, on: false });
                k = k + 1;
                assert(out@ =~= old(out)@ + Seq::new(k as nat, |i: int| BoardCommand::SetRelay { board_type: bt, stack, relay: (i + 1) as u8, on: false }));
            }
            assert(out@ =~= old(out)@ + stop_commands(b@));
        },
        BoardType::UOut16 => {
            let mut k: u8 = 0;
            while k < 16
                invariant
                    k <= 16,
                    out@ == old(out)@ + Seq::new(k as nat, |i: int| BoardCommand::SetUniversalOutput { stack, channel: (i + 1) as u8, millivolts: 0 }),
                decreases 16 - k,
            {
                out.push(BoardCommand::SetUniversalOutput { stack, channel: k + 1, millivolts: 0 });
                k = k + 1;
                assert(out@ =~= old(out)@ + Seq::new(k as nat, |i: int| BoardCommand::SetUniversalOutput { stack, channel: (i + 1) as u8, millivolts: 0 }));
            }
            assert(out@ =~= old(out)@ + stop_commands(b@));
        },
        BoardType::UnivIn16 => {
            assert(out@ =~= old(out)@ + stop_commands(b@));
        },
    }
}

/// A board as the application state lists it.
#[derive(Debug, Clone)]
pub struct Board {
    pub id: String,
    pub name: String,
    pub board_type: String,
    pub address: u8,
    pub port: Option<String>,
    pub is_connected: bool,
    pub firmware_version: Option<String>,
}

/// The application-state record of a scanned board: connected, on no serial port.
pub fn monitored_board(b: &BoardInfo) -> (r: Board)
    ensures
        r.id@ == board_type_label(b.board_type) + "_"@ + decimal(b.stack_level as nat),
        r.name@ == b.name@,
        r.board_type@ == board_type_label(b.board_type),
        r.address == b.stack_level,
        r.port is None,
        r.is_connected,
        r.firmware_version matches Some(v) && v@ == b.version@,
{
    let label = owned(
        match b.board_type {
            BoardType::MegaBAS => "MegaBAS",
            BoardType::Relay8 => "Relay8",
            BoardType::Relay16 => "Relay16",
            BoardType::UnivIn16 => "UnivIn16",
            BoardType::UOut16 => "UOut16",
        },
    );
    Board {
        id: board_id(b.board_type, b.stack_level),
        name: b.name.clone(),
        board_type: label,
        address: b.stack_level,
        port: None,
        is_connected: true,
        firmware_version: Some(b.version.clone()),
    }
}

/// The error for a channel outside a board's range.
fn invalid_channel(channel: u8) -> (e: String)
    ensures
        e@ == "Invalid channel: "@ + decimal(channel as nat),
{
    with_number("Invalid channel: ", channel)
}

/// The error for an output voltage outside 0-10 V.
fn voltage_out_of_range(millivolts: i32) -> (e: String)
    ensures
        e@ == "Voltage out of range: "@ + volts_text(millivolts as int),
{
    let mut e = owned("Voltage out of range: ");
    append_volts(&mut e, millivolts);
    e
}

/// The boards found by the last scan, and whether monitoring runs.
pub struct BoardManager {
    boards: Vec<BoardInfo>,
    monitoring_enabled: bool,
}

impl BoardManager {
    /// The boards found by the last scan.
    pub closed spec fn boards(&self) -> Seq<BoardView> {
        boards_view(self.boards@)
    }

    /// Whether background monitoring is on.
    pub closed spec fn monitoring(&self) -> bool {
        self.monitoring_enabled
    }

    /// A manager that knows no board yet, with monitoring on.
    pub fn new() -> (m: BoardManager)
        ensures
            m.boards() == Seq::<BoardView>::empty(),
            m.monitoring(),
    {
        let m = BoardManager { boards: Vec::new(), monitoring_enabled: true };
        assert(m.boards() =~= Seq::<BoardView>::empty());
        m
    }

    /// Stores and returns the boards of a scan.
    pub fn record_scan(&mut self, entries: &Vec<ScanEntry>) -> (r: Vec<BoardInfo>)
        ensures
            boards_view(r@) == scanned(entries_of_scan(entries@)),
            final(self).boards() == scanned(entries_of_scan(entries@)),
            final(self).monitoring() == old(self).monitoring(),
    {
        let boards = scan_result(entries);
        let r = self.get_boards_of(&boards);
        self.boards = boards;
        r
    }

    /// Reads what the interface's `scan` printed and, when it is a JSON array, stores and
    /// returns the boards it lists; otherwise the boards stay as they were and the
    /// parser's error is returned.
    pub fn record_scan_output(&mut self, output: &str) -> (r: Result<Vec<BoardInfo>, String>)
        ensures
            final(self).monitoring() == old(self).monitoring(),
            match scan_json(output@) {
                Ok(es) => r matches Ok(b) && boards_view(b@) == scanned(es) && final(self).boards()
                    == scanned(es),
                Err(e) => (r matches Err(m) && m@ == e) && final(self).boards() == old(self).boards(),
            },
    {
        match parse_scan_output(output) {
            Ok(entries) => Ok(self.record_scan(&entries)),
            Err(e) => Err(e),
        }
    }

    fn get_boards_of(&self, boards: &Vec<BoardInfo>) -> (r: Vec<BoardInfo>)
        ensures
            boards_view(r@) == boards_view(boards@),
    {
        let mut r: Vec<BoardInfo> = Vec::new();
        let mut i: usize = 0;
        while i < boards.len()
            invariant
                i <= boards@.len(),
                r@.len() == i,
                forall|j: int| 0 <= j < i ==> #[trigger] r@[j]@ == boards@[j]@,
            decreases boards@.len() - i,
        {
            r.push(boards[i].duplicate());
            i = i + 1;
        }
        assert(boards_view(r@) =~= boards_view(boards@));
        r
    }

    /// Copies of the boards found by the last scan.
    pub fn get_boards(&self) -> (r: Vec<BoardInfo>)
        ensures
            boards_view(r@) == self.boards(),
    {
        self.get_boards_of(&self.boards)
    }

    /// Whether background monitoring is on.
    pub fn monitoring_enabled(&self) -> (b: bool)
        ensures
            b == self.monitoring(),
    {
        self.monitoring_enabled
    }

    /// The command that lists the connected boards.
    pub fn scan_boards(&self) -> (c: BoardCommand)
        ensures
            c == BoardCommand::Scan,
    {
        BoardCommand::Scan
    }

    /// The command that reads MegaBAS analog input `channel` (`1..=8`), whose voltage is
    /// then found under `analog_inputs` in the board's status.
    pub fn read_analog_input(&self, stack: u8, channel: u8) -> (r: Result<BoardCommand, String>)
        ensures
            1 <= channel <= 8 ==> r == Ok::<BoardCommand, String>(BoardCommand::ReadStatus { board_type: BoardType::MegaBAS, stack }),
            !(1 <= channel <= 8) ==> (r matches Err(e) && e@ == "Invalid channel: "@ + decimal(channel as nat)),
    {
        if channel < 1 || channel > 8 {
            return Err(invalid_channel(channel));
        }
        Ok(BoardCommand::ReadStatus { board_type: BoardType::MegaBAS, stack })
    }

    /// The command that sets MegaBAS analog output `channel` (`1..=4`) to `millivolts`
    /// (0 to 10 V).
    pub fn write_analog_output(&self, stack: u8, channel: u8, millivolts: i32) -> (r: Result<BoardCommand, String>)
        ensures
            !(1 <= channel <= 4) ==> (r matches Err(e) && e@ == "Invalid channel: "@ + decimal(channel as nat)),
            1 <= channel <= 4 && !(0 <= millivolts <= 10000) ==> (r matches Err(e) && e@ == "Voltage out of range: "@
                + volts_text(millivolts as int)),
            1 <= channel <= 4 && 0 <= millivolts <= 10000 ==> r == Ok::<BoardCommand, String>(
                BoardCommand::SetAnalogOutput { stack, channel, millivolts: millivolts as u16 },
            ),
    {
        if channel < 1 || channel > 4 {
            return Err(invalid_channel(channel));
        }
        if millivolts < 0 || millivolts > 10000 {
            return Err(voltage_out_of_range(millivolts));
        }
        Ok(BoardCommand::SetAnalogOutput { stack, channel, millivolts: millivolts as u16 })
    }

    /// The command that switches relay `relay` of a relay board.
    pub fn set_relay(&self, board_type: BoardType, stack: u8, relay: u8, state: bool) -> (r: Result<BoardCommand, String>)
        ensures
            (board_type == BoardType::Relay8 || board_type == BoardType::Relay16) ==> r == Ok::<BoardCommand, String>(
                BoardCommand::SetRelay { board_type, stack, relay, on: state },
            ),
            !(board_type == BoardType::Relay8 || board_type == BoardType::Relay16) ==> (r matches Err(e) && e@
                == "Not a relay board"@),
    {
        match board_type {
            BoardType::Relay8 | BoardType::Relay16 => Ok(BoardCommand::SetRelay { board_type, stack, relay, on: state }),
            _ => Err(owned("Not a relay board")),
        }
    }

    /// The command that switches MegaBAS triac `triac` (`1..=4`).
    pub fn set_triac(&self, stack: u8, triac: u8, state: bool) -> (r: Result<BoardCommand, String>)
        ensures
            1 <= triac <= 4 ==> r == Ok::<BoardCommand, String>(BoardCommand::SetTriac { stack, triac, on: state }),
            !(1 <= triac <= 4) ==> (r matches Err(e) && e@ == "Invalid triac number: "@ + decimal(triac as nat)),
    {
        if triac < 1 || triac > 4 {
            return Err(with_number("Invalid triac number: ", triac));
        }
        Ok(BoardCommand::SetTriac { stack, triac, on: state })
    }

    /// The command that reads input `channel` (`1..=16`) of a 16-input board.
    pub fn read_universal_input(&self, stack: u8, channel: u8) -> (r: Result<BoardCommand, String>)
        ensures
            1 <= channel <= 16 ==> r == Ok::<BoardCommand, String>(BoardCommand::ReadUniversalInput { stack, channel }),
            !(1 <= channel <= 16) ==> (r matches Err(e) && e@ == "Invalid channel: "@ + decimal(channel as nat)),
    {
        if channel < 1 || channel > 16 {
            return Err(invalid_channel(channel));
        }
        Ok(BoardCommand::ReadUniversalInput { stack, channel })
    }

    /// The command that sets output `channel` (`1..=16`) of a 16-output board to
    /// `millivolts` (0 to 10 V).
    pub fn write_universal_output(&self, stack: u8, channel: u8, millivolts: i32) -> (r: Result<BoardCommand, String>)
        ensures
            !(1 <= channel <= 16) ==> (r matches Err(e) && e@ == "Invalid channel: "@ + decimal(channel as nat)),
            1 <= channel <= 16 && !(0 <= millivolts <= 10000) ==> (r matches Err(e) && e@ == "Voltage out of range: "@
                + volts_text(millivolts as int)),
            1 <= channel <= 16 && 0 <= millivolts <= 10000 ==> r == Ok::<BoardCommand, String>(
                BoardCommand::SetUniversalOutput { stack, channel, millivolts: millivolts as u16 },
            ),
    {
        if channel < 1 || channel > 16 {
            return Err(invalid_channel(channel));
        }
        if millivolts < 0 || millivolts > 10000 {
            return Err(voltage_out_of_range(millivolts));
        }
        Ok(BoardCommand::SetUniversalOutput { stack, channel, millivolts: millivolts as u16 })
    }

    /// The command that reads the whole status of a board.
    pub fn get_board_status(&self, board_type: BoardType, stack: u8) -> (c: BoardCommand)
        ensures
            c == (BoardCommand::ReadStatus { board_type, stack }),
    {
        BoardCommand::ReadStatus { board_type, stack }
    }

    /// The commands that switch off every output of every known board.
    pub fn emergency_stop(&self) -> (r: Vec<BoardCommand>)
        ensures
            r@ == stop_plan(self.boards()),
    {
        let ghost bs = self.boards();
        let mut r: Vec<BoardCommand> = Vec::new();
        let mut i: usize = 0;
        while i < self.boards.len()
            invariant
                bs == self.boards(),
                i <= self.boards@.len(),
                r@ == stop_plan(bs.take(i as int)),
            decreases self.boards@.len() - i,
        {
            assert(bs.take(i + 1).drop_last() =~= bs.take(i as int));
            assert(bs.take(i + 1).last() == self.boards@[i as int]@);
            push_stop_commands(&mut r, &self.boards[i]);
            i = i + 1;
        }
        assert(bs.take(self.boards@.len() as int) =~= bs);
        r
    }
}

/// A command switches its output off: relays and triacs off, 0-10 V outputs at 0 V.
pub open spec fn switches_off(c: BoardCommand) -> bool {
    match c {
        BoardCommand::SetTriac { on, .. } => !on,
        BoardCommand::SetRelay { on, .. } => !on,
        BoardCommand::SetAnalogOutput { millivolts, .. } => millivolts == 0,
        BoardCommand::SetUniversalOutput { millivolts, .. } => millivolts == 0,
        _ => false,
    }
}

/// Every command of the emergency stop switches an output off, on one of the known boards.
pub proof fn law_emergency_stop_switches_off(bs: Seq<BoardView>)
    ensures
        forall|i: int| 0 <= i < stop_plan(bs).len() ==> switches_off(#[trigger] stop_plan(bs)[i]),
    decreases bs.len(),
{
    if bs.len() > 0 {
        law_emergency_stop_switches_off(bs.drop_last());
        let p = stop_plan(bs.drop_last());
        let q = stop_commands(bs.last());
        assert forall|i: int| 0 <= i < stop_plan(bs).len() implies switches_off(#[trigger] stop_plan(bs)[i]) by {
            if i < p.len() {
                assert(stop_plan(bs)[i] == p[i]);
            } else {
                assert(stop_plan(bs)[i] == q[i - p.len()]);
            }
        }
    }
}

/// Every command a board's own stop list holds is in the plan of a list of boards
/// that contains the board.
proof fn lemma_plan_holds_board_commands(bs: Seq<BoardView>, k: int, c: BoardCommand)
    requires
        0 <= k < bs.len(),
        stop_commands(bs[k]).contains(c),
    ensures
        stop_plan(bs).contains(c),
    decreases bs.len(),
{
    let p = stop_plan(bs.drop_last());
    let q = stop_commands(bs.last());
    assert(stop_plan(bs) == p + q);
    if k == bs.len() - 1 {
        let j = choose|j: int| 0 <= j < q.len() && q[j] == c;
        assert((p + q)[p.len() + j] == c);
    } else {
        assert(bs.drop_last()[k] == bs[k]);
        lemma_plan_holds_board_commands(bs.drop_last(), k, c);
        let j = choose|j: int| 0 <= j < p.len() && p[j] == c;
        assert((p + q)[j] == c);
    }
}

/// Law: the emergency stop leaves no output on. For every known board and every output
/// channel it has (triacs and analog outputs 1 to 4 of a MegaBAS, relays 1 to 8 of an
/// 8-relay board, relays 1 to 16 of a 16-relay board, outputs 1 to 16 of a 16-output
/// board), the plan holds the command that switches that channel off on that board.
pub proof fn law_emergency_stop_covers_every_output(bs: Seq<BoardView>, k: int, ch: u8)
    requires
        0 <= k < bs.len(),
    ensures
        bs[k].board_type == BoardType::MegaBAS && 1 <= ch <= 4 ==> stop_plan(bs).contains(
            BoardCommand::SetTriac { stack: bs[k].stack_level, triac: ch, on: false },
        ) && stop_plan(bs).contains(
            BoardCommand::SetAnalogOutput { stack: bs[k].stack_level, channel: ch, millivolts: 0 },
        ),
        bs[k].board_type == BoardType::Relay8 && 1 <= ch <= 8 ==> stop_plan(bs).contains(
            BoardCommand::SetRelay { board_type: BoardType::Relay8, stack: bs[k].stack_level, relay: ch, on: false },
        ),
        bs[k].board_type == BoardType::Relay16 && 1 <= ch <= 16 ==> stop_plan(bs).contains(
            BoardCommand::SetRelay { board_type: BoardType::Relay16, stack: bs[k].stack_level, relay: ch, on: false },
        ),
        bs[k].board_type == BoardType::UOut16 && 1 <= ch <= 16 ==> stop_plan(bs).contains(
            BoardCommand::SetUniversalOutput { stack: bs[k].stack_level, channel: ch, millivolts: 0 },
        ),
{
    let b = bs[k];
    let q = stop_commands(b);
    let j = ch - 1;
    if b.board_type == BoardType::MegaBAS && 1 <= ch <= 4 {
        let t = BoardCommand::SetTriac { stack: b.stack_level, triac: ch, on: false };
        let a = BoardCommand::SetAnalogOutput { stack: b.stack_level, channel: ch, millivolts: 0 };
        assert(q[j] == t);
        assert(q[4 + j] == a);
        lemma_plan_holds_board_commands(bs, k, t);
        lemma_plan_holds_board_commands(bs, k, a);
    }
    if b.board_type == BoardType::Relay8 && 1 <= ch <= 8 {
        let c = BoardCommand::SetRelay { board_type: BoardType::Relay8, stack: b.stack_level, relay: ch, on: false };
        assert(q[j] == c);
        lemma_plan_holds_board_commands(bs, k, c);
    }
    if b.board_type == BoardType::Relay16 && 1 <= ch <= 16 {
        let c = BoardCommand::SetRelay { board_type: BoardType::Relay16, stack: b.stack_level, relay: ch, on: false };
        assert(q[j] == c);
        lemma_plan_holds_board_commands(bs, k, c);
    }
    if b.board_type == BoardType::UOut16 && 1 <= ch <= 16 {
        let c = BoardCommand::SetUniversalOutput { stack: b.stack_level, channel: ch, millivolts: 0 };
        assert(q[j] == c);
        lemma_plan_holds_board_commands(bs, k, c);
    }
}

} // verus!
