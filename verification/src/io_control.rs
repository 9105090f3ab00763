//! The I/O control panel's state: triac levels and relay boards with changes that wait
//! for "Apply", manual-override flags, and the PIN-guarded lock of temperature control.
use vstd::prelude::*;
use crate::text::{append_decimal, decimal, digit, digit_char, owned, push_char, same_text};

verus! {

/// How a universal input is wired.
#[derive(Debug, Clone, Copy, PartialEq, Eq, Structural)]
#[allow(non_camel_case_types)]
pub enum InputType {
    Voltage0_10V,
    Current4_20mA,
    RTD_10K,
    RTD_1K,
    Digital,
    CT_Current,
}

/// What the temperature controller regulates.
#[derive(Debug, Clone, Copy, PartialEq, Eq, Structural)]
pub enum TempControlMode {
    Space,
    SupplyAir,
    ReturnAir,
    SupplyWater,
    ReturnWater,
}

/// What the PIN dialog was opened for.
#[derive(Debug, Clone, Copy, PartialEq, Eq, Structural)]
pub enum PinAction {
    Lock,
    Unlock,
    Override,
}

/// The administrator PIN.
pub const ADMIN_PIN: &'static str = "Invertedskynet2$";

/// `n` copies of `v`.
fn filled<T: Copy>(n: usize, v: T) -> (r: Vec<T>)
    ensures
        r@ == Seq::new(n as nat, |i: int| v),
{
    let mut r: Vec<T> = Vec::new();
    let mut i: usize = 0;
    while i < n
        invariant
            i <= n,
            r@ == Seq::new(i as nat, |k: int| v),
        decreases n - i,
    {
        r.push(v);
        i = i + 1;
        assert(r@ =~= Seq::new(i as nat, |k: int| v));
    }
    r
}

/// A copy of a list of plain values.
fn copied<T: Copy>(v: &Vec<T>) -> (r: Vec<T>)
    ensures
        r@ == v@,
{
    let mut r: Vec<T> = Vec::new();
    let mut i: usize = 0;
    while i < v.len()
        invariant
            i <= v@.len(),
            r@ == v@.take(i as int),
        decreases v@.len() - i,
    {
        r.push(v[i]);
        i = i + 1;
        assert(r@ =~= v@.take(i as int));
    }
    assert(v@.take(v@.len() as int) =~= v@);
    r
}

/// A level in hundredths of a volt written in volts with two decimals: `250` is `2.50`.
pub open spec fn volts_2dp(c: nat) -> Seq<char> {
    decimal(c / 100) + seq!['.', digit_char(((c / 10) % 10) as int), digit_char((c % 10) as int)]
}

fn volts_2dp_text(cv: u16) -> (s: String)
    ensures
        s@ == volts_2dp(cv as nat),
{
    let c: u32 = cv as u32;
    let mut s = String::new();
    append_decimal(&mut s, (c / 100) as u64);
    push_char(&mut s, '.');
    push_char(&mut s, digit(((c / 10) % 10) as u64));
    push_char(&mut s, digit((c % 10) as u64));
    s
}

/// The name universal input `i` (from 0) starts with: `Input {i + 1}`.
pub open spec fn default_input_name(i: int) -> Seq<char> {
    "Input "@ + decimal((i + 1) as nat)
}

fn default_input_names() -> (v: Vec<String>)
    ensures
        v@.map_values(|n: String| n@) == Seq::new(8, |i: int| default_input_name(i)),
{
    let mut v: Vec<String> = Vec::new();
    let mut i: usize = 0;
    while i < 8
        invariant
            i <= 8,
            v@.len() == i,
            forall|j: int| 0 <= j < i ==> (#[trigger] v@[j])@ == default_input_name(j),
        decreases 8 - i,
    {
        let mut n = owned("Input ");
        append_decimal(&mut n, (i + 1) as u64);
        v.push(n);
        i = i + 1;
    }
    assert(v@.map_values(|n: String| n@) =~= Seq::new(8, |i: int| default_input_name(i)));
    v
}

/// The state of the I/O control panel: the MegaBAS's four triacs (0-100 %), the optional
/// 8- and 16-relay boards, and the values set but not yet applied.
pub struct IOControlPanel {
    triacs: Vec<u8>,
    pending_triacs: Vec<u8>,
    analog_outputs: Vec<u16>,
    pending_analog_outputs: Vec<u16>,
    has_pending_changes: bool,
    relay_board_8: Option<Vec<bool>>,
    pending_relay_8: Option<Vec<bool>>,
    relay_8_manual_modes: Option<Vec<bool>>,
    relay_board_16: Option<Vec<bool>>,
    pending_relay_16: Option<Vec<bool>>,
    relay_16_manual_modes: Option<Vec<bool>>,
    input_manual_modes: Vec<bool>,
    output_manual_modes: Vec<bool>,
    triac_manual_modes: Vec<bool>,
    temp_control_enabled: bool,
    temp_control_mode: TempControlMode,
    temp_control_locked: bool,
    locked_by: String,
    show_pin_dialog: bool,
    pin_action: PinAction,
    input_names: Vec<String>,
    editing_input: Option<usize>,
    editing_channel_name: String,
}

/// The distance between two levels.
pub open spec fn abs_diff(a: u16, b: u16) -> int {
    if a >= b { a - b } else { b - a }
}

/// The view of an optional list.
pub open spec fn opt_seq<T>(o: Option<Vec<T>>) -> Option<Seq<T>> {
    match o {
        Some(v) => Some(v@),
        None => None,
    }
}

/// `s` with the flag at `i` flipped.
pub open spec fn toggled(s: Seq<bool>, i: int) -> Seq<bool> {
    s.update(i, !s[i])
}

/// The parts of the panel's state, to say which of them an operation changes.
#[derive(Debug, Clone, Copy, PartialEq, Eq, Structural)]
pub enum PanelPart {
    Triacs,
    PendingTriacs,
    Analog,
    PendingAnalog,
    PendingFlag,
    Relays8,
    PendingRelays8,
    Manual8,
    Relays16,
    PendingRelays16,
    Manual16,
    ManualModes,
    Lock,
    TempControl,
    PinDialog,
    InputNames,
    NameEdit,
}

impl IOControlPanel {
    /// Applied triac levels.
    pub closed spec fn triac_levels(&self) -> Seq<u8> {
        self.triacs@
    }

    /// Triac levels set but not applied.
    pub closed spec fn pending_triac_levels(&self) -> Seq<u8> {
        self.pending_triacs@
    }

    /// Applied analog output levels, in hundredths of a volt.
    pub closed spec fn analog_levels(&self) -> Seq<u16> {
        self.analog_outputs@
    }

    /// Analog output levels set but not applied, in hundredths of a volt.
    pub closed spec fn pending_analog_levels(&self) -> Seq<u16> {
        self.pending_analog_outputs@
    }

    /// Whether the panel shows analog changes waiting for "Apply".
    pub closed spec fn pending_changes(&self) -> bool {
        self.has_pending_changes
    }

    /// The applied states of the 8-relay board, if it is present.
    pub closed spec fn relays_8(&self) -> Option<Seq<bool>> {
        opt_seq(self.relay_board_8)
    }

    /// The pending states of the 8-relay board.
    pub closed spec fn pending_relays_8(&self) -> Option<Seq<bool>> {
        opt_seq(self.pending_relay_8)
    }

    /// The manual-mode flags of the 8-relay board.
    pub closed spec fn relay_8_manual(&self) -> Option<Seq<bool>> {
        opt_seq(self.relay_8_manual_modes)
    }

    /// The applied states of the 16-relay board, if it is present.
    pub closed spec fn relays_16(&self) -> Option<Seq<bool>> {
        opt_seq(self.relay_board_16)
    }

    /// The pending states of the 16-relay board.
    pub closed spec fn pending_relays_16(&self) -> Option<Seq<bool>> {
        opt_seq(self.pending_relay_16)
    }

    /// The manual-mode flags of the 16-relay board.
    pub closed spec fn relay_16_manual(&self) -> Option<Seq<bool>> {
        opt_seq(self.relay_16_manual_modes)
    }

    /// Manual-override flags of the universal inputs, analog outputs and triacs.
    pub closed spec fn manual_modes(&self) -> (Seq<bool>, Seq<bool>, Seq<bool>) {
        (self.input_manual_modes@, self.output_manual_modes@, self.triac_manual_modes@)
    }

    /// Whether temperature control is locked, and by whom.
    pub closed spec fn lock(&self) -> (bool, Seq<char>) {
        (self.temp_control_locked, self.locked_by@)
    }

    /// Whether temperature control is on, and its mode.
    pub closed spec fn temp_control(&self) -> (bool, TempControlMode) {
        (self.temp_control_enabled, self.temp_control_mode)
    }

    /// The PIN dialog: whether it is open and what it is for.
    pub closed spec fn pin_dialog(&self) -> (bool, PinAction) {
        (self.show_pin_dialog, self.pin_action)
    }

    /// The names of the universal inputs.
    pub closed spec fn input_name_list(&self) -> Seq<Seq<char>> {
        self.input_names@.map_values(|n: String| n@)
    }

    /// The input whose name is being edited, and the name typed so far.
    pub closed spec fn name_edit(&self) -> (Option<usize>, Seq<char>) {
        (self.editing_input, self.editing_channel_name@)
    }

    /// `self` and `other` agree on every part of the panel outside `changed`.
    pub open spec fn same_except(&self, other: &IOControlPanel, changed: Set<PanelPart>) -> bool {
        &&& (!changed.contains(PanelPart::Triacs) ==> self.triac_levels() == other.triac_levels())
        &&& (!changed.contains(PanelPart::PendingTriacs) ==> self.pending_triac_levels()
            == other.pending_triac_levels())
        &&& (!changed.contains(PanelPart::Analog) ==> self.analog_levels() == other.analog_levels())
        &&& (!changed.contains(PanelPart::PendingAnalog) ==> self.pending_analog_levels()
            == other.pending_analog_levels())
        &&& (!changed.contains(PanelPart::PendingFlag) ==> self.pending_changes() == other.pending_changes())
        &&& (!changed.contains(PanelPart::Relays8) ==> self.relays_8() == other.relays_8())
        &&& (!changed.contains(PanelPart::PendingRelays8) ==> self.pending_relays_8() == other.pending_relays_8())
        &&& (!changed.contains(PanelPart::Manual8) ==> self.relay_8_manual() == other.relay_8_manual())
        &&& (!changed.contains(PanelPart::Relays16) ==> self.relays_16() == other.relays_16())
        &&& (!changed.contains(PanelPart::PendingRelays16) ==> self.pending_relays_16()
            == other.pending_relays_16())
        &&& (!changed.contains(PanelPart::Manual16) ==> self.relay_16_manual() == other.relay_16_manual())
        &&& (!changed.contains(PanelPart::ManualModes) ==> self.manual_modes() == other.manual_modes())
        &&& (!changed.contains(PanelPart::Lock) ==> self.lock() == other.lock())
        &&& (!changed.contains(PanelPart::TempControl) ==> self.temp_control() == other.temp_control())
        &&& (!changed.contains(PanelPart::PinDialog) ==> self.pin_dialog() == other.pin_dialog())
        &&& (!changed.contains(PanelPart::InputNames) ==> self.input_name_list() == other.input_name_list())
        &&& (!changed.contains(PanelPart::NameEdit) ==> self.name_edit() == other.name_edit())
    }

    /// The panel's lists have the sizes of the hardware: four triacs, eight inputs,
    /// four analog outputs, and each relay board's lists of its own size.
    pub closed spec fn wf(&self) -> bool {
        &&& self.triacs@.len() == 4
        &&& self.analog_outputs@.len() == 4
        &&& self.pending_analog_outputs@.len() == 4
        &&& self.pending_triacs@.len() == 4
        &&& self.input_manual_modes@.len() == 8
        &&& self.input_names@.len() == 8
        &&& (self.editing_input matches Some(i) ==> i < 8)
        &&& self.output_manual_modes@.len() == 4
        &&& self.triac_manual_modes@.len() == 4
        &&& match (self.relay_board_8, self.pending_relay_8, self.relay_8_manual_modes) {
            (None, None, None) => true,
            (Some(a), Some(b), Some(c)) => a@.len() == 8 && b@.len() == 8 && c@.len() == 8,
            _ => false,
        }
        &&& match (self.relay_board_16, self.pending_relay_16, self.relay_16_manual_modes) {
            (None, None, None) => true,
            (Some(a), Some(b), Some(c)) => a@.len() == 16 && b@.len() == 16 && c@.len() == 16,
            _ => false,
        }
    }

    /// The panel of a MegaBAS alone: triacs off, no relay board, no manual override,
    /// temperature control off in `Space` mode and unlocked, inputs named `Input 1` to
    /// `Input 8`, no name being edited.
    pub fn new() -> (p: IOControlPanel)
        ensures
            p.wf(),
            p.input_name_list() == Seq::new(8, |i: int| default_input_name(i)),
            p.name_edit() == (None::<usize>, Seq::<char>::empty()),
            p.triac_levels() == Seq::new(4, |i: int| 0u8),
            p.pending_triac_levels() == Seq::new(4, |i: int| 0u8),
            p.analog_levels() == Seq::new(4, |i: int| 0u16),
            p.pending_analog_levels() == Seq::new(4, |i: int| 0u16),
            !p.pending_changes(),
            p.relays_8() is None,
            p.relays_16() is None,
            p.manual_modes() == (Seq::new(8, |i: int| false), Seq::new(4, |i: int| false), Seq::new(4, |i: int| false)),
            p.lock() == (false, Seq::<char>::empty()),
            p.temp_control() == (false, TempControlMode::Space),
            p.pin_dialog() == (false, PinAction::Lock),
    {
        let p = IOControlPanel {
            triacs: filled(4, 0u8),
            pending_triacs: filled(4, 0u8),
            analog_outputs: filled(4, 0u16),
            pending_analog_outputs: filled(4, 0u16),
            has_pending_changes: false,
            relay_board_8: None,
            pending_relay_8: None,
            relay_8_manual_modes: None,
            relay_board_16: None,
            pending_relay_16: None,
            relay_16_manual_modes: None,
            input_manual_modes: filled(8, false),
            output_manual_modes: filled(4, false),
            triac_manual_modes: filled(4, false),
            temp_control_enabled: false,
            temp_control_mode: TempControlMode::Space,
            temp_control_locked: false,
            locked_by: String::new(),
            show_pin_dialog: false,
            pin_action: PinAction::Lock,
            input_names: default_input_names(),
            editing_input: None,
            editing_channel_name: String::new(),
        };
        assert(p.locked_by@ =~= Seq::<char>::empty());
        assert(p.editing_channel_name@ =~= Seq::<char>::empty());
        assert(p.input_names@.len() == p.input_names@.map_values(|n: String| n@).len());
        p
    }

    /// Adds a detected 8-relay board, all relays off; a board already present is kept.
    pub fn enable_8_relay_board(&mut self)
        requires
            old(self).wf(),
        ensures
            final(self).same_except(old(self), set![PanelPart::Relays8, PanelPart::PendingRelays8, PanelPart::Manual8]),
            final(self).wf(),
            old(self).relays_8() is None ==> final(self).relays_8() == Some(Seq::new(8, |i: int| false))
                && final(self).pending_relays_8() == Some(Seq::new(8, |i: int| false))
                && final(self).relay_8_manual() == Some(Seq::new(8, |i: int| false)),
            old(self).relays_8() is Some ==> final(self).relays_8() == old(self).relays_8()
                && final(self).pending_relays_8() == old(self).pending_relays_8()
                && final(self).relay_8_manual() == old(self).relay_8_manual(),
            final(self).relays_16() == old(self).relays_16(),
            final(self).pending_relays_16() == old(self).pending_relays_16(),
            final(self).triac_levels() == old(self).triac_levels(),
            final(self).pending_triac_levels() == old(self).pending_triac_levels(),
            final(self).lock() == old(self).lock(),
    {
        if self.relay_board_8.is_none() {
            self.relay_board_8 = Some(filled(8, false));
            self.pending_relay_8 = Some(filled(8, false));
            self.relay_8_manual_modes = Some(filled(8, false));
        }
    }

    /// Adds a detected 16-relay board, all relays off; a board already present is kept.
    pub fn enable_16_relay_board(&mut self)
        requires
            old(self).wf(),
        ensures
            final(self).same_except(old(self), set![PanelPart::Relays16, PanelPart::PendingRelays16, PanelPart::Manual16]),
            final(self).wf(),
            old(self).relays_16() is None ==> final(self).relays_16() == Some(Seq::new(16, |i: int| false))
                && final(self).pending_relays_16() == Some(Seq::new(16, |i: int| false))
                && final(self).relay_16_manual() == Some(Seq::new(16, |i: int| false)),
            old(self).relays_16() is Some ==> final(self).relays_16() == old(self).relays_16()
                && final(self).pending_relays_16() == old(self).pending_relays_16()
                && final(self).relay_16_manual() == old(self).relay_16_manual(),
            final(self).relays_8() == old(self).relays_8(),
            final(self).pending_relays_8() == old(self).pending_relays_8(),
            final(self).triac_levels() == old(self).triac_levels(),
            final(self).pending_triac_levels() == old(self).pending_triac_levels(),
            final(self).lock() == old(self).lock(),
    {
        if self.relay_board_16.is_none() {
            self.relay_board_16 = Some(filled(16, false));
            self.pending_relay_16 = Some(filled(16, false));
            self.relay_16_manual_modes = Some(filled(16, false));
        }
    }

    /// Flips the pending state of relay `i` of the 8-relay board, if the board is present.
    pub fn toggle_pending_relay_8(&mut self, i: usize)
        requires
            old(self).wf(),
            i < 8,
        ensures
            final(self).same_except(old(self), set![PanelPart::PendingRelays8]),
            final(self).wf(),
            final(self).pending_relays_8() == match old(self).pending_relays_8() {
                Some(p) => Some(toggled(p, i as int)),
                None => None,
            },
            final(self).relays_8() == old(self).relays_8(),
            final(self).relays_16() == old(self).relays_16(),
            final(self).pending_relays_16() == old(self).pending_relays_16(),
            final(self).triac_levels() == old(self).triac_levels(),
            final(self).pending_triac_levels() == old(self).pending_triac_levels(),
    {
        match &mut self.pending_relay_8 {
            Some(p) => {
                let v = p[i];
                p.set(i, !v);
            },
            None => {},
        }
    }

    /// Flips the pending state of relay `i` of the 16-relay board, if the board is present.
    pub fn toggle_pending_relay_16(&mut self, i: usize)
        requires
            old(self).wf(),
            i < 16,
        ensures
            final(self).same_except(old(self), set![PanelPart::PendingRelays16]),
            final(self).wf(),
            final(self).pending_relays_16() == match old(self).pending_relays_16() {
                Some(p) => Some(toggled(p, i as int)),
                None => None,
            },
            final(self).relays_16() == old(self).relays_16(),
            final(self).relays_8() == old(self).relays_8(),
            final(self).pending_relays_8() == old(self).pending_relays_8(),
            final(self).triac_levels() == old(self).triac_levels(),
            final(self).pending_triac_levels() == old(self).pending_triac_levels(),
    {
        match &mut self.pending_relay_16 {
            Some(p) => {
                let v = p[i];
                p.set(i, !v);
            },
            None => {},
        }
    }

    /// Sets the pending level of triac `i`.
    pub fn set_pending_triac(&mut self, i: usize, level: u8)
        requires
            old(self).wf(),
            i < 4,
        ensures
            final(self).same_except(old(self), set![PanelPart::PendingTriacs]),
            final(self).wf(),
            final(self).pending_triac_levels() == old(self).pending_triac_levels().update(i as int, level),
            final(self).triac_levels() == old(self).triac_levels(),
            final(self).relays_8() == old(self).relays_8(),
            final(self).pending_relays_8() == old(self).pending_relays_8(),
            final(self).relays_16() == old(self).relays_16(),
            final(self).pending_relays_16() == old(self).pending_relays_16(),
    {
        self.pending_triacs.set(i, level);
    }

    /// Some triac level is set but not applied.
    pub fn has_triac_changes(&self) -> (b: bool)
        requires
            self.wf(),
        ensures
            b == (self.pending_triac_levels() != self.triac_levels()),
    {
        let mut i: usize = 0;
        while i < 4
            invariant
                self.wf(),
                i <= 4,
                forall|k: int| 0 <= k < i ==> self.pending_triacs@[k] == self.triacs@[k],
            decreases 4 - i,
        {
            if self.pending_triacs[i] != self.triacs[i] {
                return true;
            }
            i = i + 1;
        }
        assert(self.pending_triacs@ =~= self.triacs@);
        false
    }

    /// Applies the pending triac levels.
    pub fn apply_triac_changes(&mut self)
        requires
            old(self).wf(),
        ensures
            final(self).same_except(old(self), set![PanelPart::Triacs]),
            final(self).wf(),
            final(self).triac_levels() == old(self).pending_triac_levels(),
            final(self).pending_triac_levels() == old(self).pending_triac_levels(),
            final(self).relays_8() == old(self).relays_8(),
            final(self).relays_16() == old(self).relays_16(),
            final(self).lock() == old(self).lock(),
    {
        self.triacs = copied(&self.pending_triacs);
    }

    /// Discards the pending triac levels.
    pub fn cancel_triac_changes(&mut self)
        requires
            old(self).wf(),
        ensures
            final(self).same_except(old(self), set![PanelPart::PendingTriacs]),
            final(self).wf(),
            final(self).pending_triac_levels() == old(self).triac_levels(),
            final(self).triac_levels() == old(self).triac_levels(),
            final(self).relays_8() == old(self).relays_8(),
            final(self).relays_16() == old(self).relays_16(),
            final(self).lock() == old(self).lock(),
    {
        self.pending_triacs = copied(&self.triacs);
    }

    /// The `megabas` arguments that set each triac to its pending level:
    /// `0 triac {n} {level}` for `n` in `1..=4`.
    pub fn triac_commands(&self) -> (c: Vec<Vec<String>>)
        requires
            self.wf(),
        ensures
            c@.len() == 4,
            forall|i: int| 0 <= i < 4 ==> (#[trigger] c@[i])@.map_values(|s: String| s@) == seq![
                "0"@,
                "triac"@,
                decimal((i + 1) as nat),
                decimal(self.pending_triac_levels()[i] as nat),
            ],
    {
        let mut c: Vec<Vec<String>> = Vec::new();
        let mut i: usize = 0;
        while i < 4
            invariant
                self.wf(),
                i <= 4,
                c@.len() == i,
                forall|k: int| 0 <= k < i ==> (#[trigger] c@[k])@.map_values(|s: String| s@) == seq![
                    "0"@,
                    "triac"@,
                    decimal((k + 1) as nat),
                    decimal(self.pending_triac_levels()[k] as nat),
                ],
            decreases 4 - i,
        {
            let mut n = String::new();
            append_decimal(&mut n, (i + 1) as u64);
            let mut level = String::new();
            append_decimal(&mut level, self.pending_triacs[i] as u64);
            let args = vec![owned("0"), owned("triac"), n, level];
            assert(args@.map_values(|s: String| s@) =~= seq![
                "0"@,
                "triac"@,
                decimal((i + 1) as nat),
                decimal(self.pending_triac_levels()[i as int] as nat),
            ]);
            c.push(args);
            i = i + 1;
        }
        c
    }

    /// The arguments of the `megabas` commands that set the four analog outputs to
    /// their pending levels: stack 0, `aout`, the output from 1, the level in volts with
    /// two decimals.
    pub fn analog_commands(&self) -> (c: Vec<Vec<String>>)
        requires
            self.wf(),
        ensures
            c@.len() == 4,
            forall|i: int| 0 <= i < 4 ==> (#[trigger] c@[i])@.map_values(|s: String| s@) == seq![
                "0"@,
                "aout"@,
                decimal((i + 1) as nat),
                volts_2dp(self.pending_analog_levels()[i] as nat),
            ],
    {
        let mut c: Vec<Vec<String>> = Vec::new();
        let mut i: usize = 0;
        while i < 4
            invariant
                self.wf(),
                i <= 4,
                c@.len() == i,
                forall|k: int| 0 <= k < i ==> (#[trigger] c@[k])@.map_values(|s: String| s@) == seq![
                    "0"@,
                    "aout"@,
                    decimal((k + 1) as nat),
                    volts_2dp(self.pending_analog_levels()[k] as nat),
                ],
            decreases 4 - i,
        {
            let mut n = String::new();
            append_decimal(&mut n, (i + 1) as u64);
            let level = volts_2dp_text(self.pending_analog_outputs[i]);
            let args = vec![owned("0"), owned("aout"), n, level];
            assert(args@.map_values(|s: String| s@) =~= seq![
                "0"@,
                "aout"@,
                decimal((i + 1) as nat),
                volts_2dp(self.pending_analog_levels()[i as int] as nat),
            ]);
            c.push(args);
            i = i + 1;
        }
        c
    }

    /// Sets the pending level of analog output `i` (0 to 10 V, in hundredths of a volt,
    /// the precision the command writes); the panel then shows pending changes.
    pub fn set_pending_analog(&mut self, i: usize, centivolts: u16)
        requires
            old(self).wf(),
            i < 4,
            centivolts <= 1000,
        ensures
            final(self).same_except(old(self), set![PanelPart::PendingAnalog, PanelPart::PendingFlag]),
            final(self).wf(),
            final(self).pending_analog_levels() == old(self).pending_analog_levels().update(i as int, centivolts),
            final(self).analog_levels() == old(self).analog_levels(),
            final(self).pending_changes(),
            final(self).triac_levels() == old(self).triac_levels(),
            final(self).pending_triac_levels() == old(self).pending_triac_levels(),
    {
        self.pending_analog_outputs.set(i, centivolts);
        self.has_pending_changes = true;
    }

    /// Marks pending changes when some pending analog level differs from the applied
    /// one by more than 0.01 V; an existing mark stays.
    pub fn refresh_pending_changes(&mut self)
        requires
            old(self).wf(),
        ensures
            final(self).same_except(old(self), set![PanelPart::PendingFlag]),
            final(self).wf(),
            final(self).pending_changes() == (old(self).pending_changes() || exists|k: int| 0 <= k < 4
                && #[trigger] abs_diff(old(self).pending_analog_levels()[k], old(self).analog_levels()[k]) > 1),
            final(self).analog_levels() == old(self).analog_levels(),
            final(self).pending_analog_levels() == old(self).pending_analog_levels(),
            final(self).triac_levels() == old(self).triac_levels(),
            final(self).pending_triac_levels() == old(self).pending_triac_levels(),
    {
        let mut i: usize = 0;
        while i < 4
            invariant
                self.wf(),
                i <= 4,
                self.analog_outputs == old(self).analog_outputs,
                self.pending_analog_outputs == old(self).pending_analog_outputs,
                self.triacs == old(self).triacs,
                self.pending_triacs == old(self).pending_triacs,
                self.same_except(old(self), set![PanelPart::PendingFlag]),
                self.has_pending_changes == (old(self).has_pending_changes || exists|k: int| 0 <= k < i
                    && #[trigger] abs_diff(self.pending_analog_outputs@[k], self.analog_outputs@[k]) > 1),
            decreases 4 - i,
        {
            let p = self.pending_analog_outputs[i];
            let a = self.analog_outputs[i];
            let d = if p >= a { p - a } else { a - p };
            assert(d as int == abs_diff(self.pending_analog_outputs@[i as int], self.analog_outputs@[i as int]));
            let ghost pv = self.pending_analog_outputs@;
            let ghost av = self.analog_outputs@;
            if d > 1 {
                self.has_pending_changes = true;
                assert(abs_diff(self.pending_analog_outputs@[i as int], self.analog_outputs@[i as int]) > 1);
            } else {
                assert forall|k: int| 0 <= k < i + 1 && #[trigger] abs_diff(pv[k], av[k]) > 1 implies 0 <= k < i by {
                    if k == i {
                        assert(abs_diff(pv[i as int], av[i as int]) <= 1);
                    }
                }
            }
            i = i + 1;
        }
        let ghost pv = old(self).pending_analog_levels();
        let ghost av = old(self).analog_levels();
        assert(self.pending_analog_outputs@ == pv && self.analog_outputs@ == av);
        proof {
            if self.has_pending_changes && !old(self).has_pending_changes {
                let k = choose|k: int| 0 <= k < 4 && #[trigger] abs_diff(self.pending_analog_outputs@[k], self.analog_outputs@[k]) > 1;
                assert(abs_diff(pv[k], av[k]) > 1);
            }
        }
    }

    /// "Apply Changes": the pending analog levels and triac levels both take effect, and
    /// no change is pending.
    pub fn apply_changes(&mut self)
        requires
            old(self).wf(),
        ensures
            final(self).same_except(old(self), set![PanelPart::Analog, PanelPart::Triacs, PanelPart::PendingFlag]),
            final(self).wf(),
            final(self).analog_levels() == old(self).pending_analog_levels(),
            final(self).pending_analog_levels() == old(self).pending_analog_levels(),
            final(self).triac_levels() == old(self).pending_triac_levels(),
            final(self).pending_triac_levels() == old(self).pending_triac_levels(),
            !final(self).pending_changes(),
            final(self).relays_8() == old(self).relays_8(),
            final(self).relays_16() == old(self).relays_16(),
            final(self).lock() == old(self).lock(),
    {
        self.analog_outputs = copied(&self.pending_analog_outputs);
        self.triacs = copied(&self.pending_triacs);
        self.has_pending_changes = false;
    }

    /// "Cancel": the pending analog levels go back to the applied ones; triac levels are
    /// left as they are.
    pub fn cancel_changes(&mut self)
        requires
            old(self).wf(),
        ensures
            final(self).same_except(old(self), set![PanelPart::PendingAnalog, PanelPart::PendingFlag]),
            final(self).wf(),
            final(self).pending_analog_levels() == old(self).analog_levels(),
            final(self).analog_levels() == old(self).analog_levels(),
            final(self).triac_levels() == old(self).triac_levels(),
            final(self).pending_triac_levels() == old(self).pending_triac_levels(),
            !final(self).pending_changes(),
            final(self).lock() == old(self).lock(),
    {
        self.pending_analog_outputs = copied(&self.analog_outputs);
        self.has_pending_changes = false;
    }

    /// The applied analog levels, in hundredths of a volt.
    pub fn analog_outputs(&self) -> (v: &Vec<u16>)
        ensures
            v@ == self.analog_levels(),
    {
        &self.analog_outputs
    }

    /// The pending analog levels, in hundredths of a volt.
    pub fn pending_analog_outputs(&self) -> (v: &Vec<u16>)
        ensures
            v@ == self.pending_analog_levels(),
    {
        &self.pending_analog_outputs
    }

    /// Whether changes wait for "Apply".
    pub fn has_pending_changes(&self) -> (b: bool)
        ensures
            b == self.pending_changes(),
    {
        self.has_pending_changes
    }

    /// Sets the manual-override flag of universal input `i`.
    pub fn set_input_manual(&mut self, i: usize, on: bool)
        requires
            old(self).wf(),
            i < 8,
        ensures
            final(self).same_except(old(self), set![PanelPart::ManualModes]),
            final(self).wf(),
            final(self).manual_modes() == (
                old(self).manual_modes().0.update(i as int, on),
                old(self).manual_modes().1,
                old(self).manual_modes().2,
            ),
    {
        self.input_manual_modes.set(i, on);
    }

    /// Chooses what temperature control regulates, and whether it is on.
    pub fn set_temp_control(&mut self, enabled: bool, mode: TempControlMode)
        requires
            old(self).wf(),
        ensures
            final(self).same_except(old(self), set![PanelPart::TempControl]),
            final(self).wf(),
            final(self).temp_control() == (enabled, mode),
            final(self).lock() == old(self).lock(),
    {
        self.temp_control_enabled = enabled;
        self.temp_control_mode = mode;
    }

    /// Opens the PIN dialog to unlock temperature control when it is locked, and to
    /// lock it otherwise.
    pub fn request_lock_toggle(&mut self)
        requires
            old(self).wf(),
        ensures
            final(self).same_except(old(self), set![PanelPart::PinDialog]),
            final(self).wf(),
            final(self).pin_dialog() == (true, if old(self).lock().0 { PinAction::Unlock } else { PinAction::Lock }),
            final(self).lock() == old(self).lock(),
    {
        self.show_pin_dialog = true;
        self.pin_action = if self.temp_control_locked { PinAction::Unlock } else { PinAction::Lock };
    }

    /// Confirms the PIN dialog with `pin`. While the dialog is open, the administrator PIN
    /// carries out the action (lock by `Admin`, unlock, or nothing for an override) and
    /// closes the dialog; another PIN, or a closed dialog, changes nothing. Returns whether
    /// the PIN was accepted.
    pub fn confirm_pin(&mut self, pin: &str) -> (accepted: bool)
        requires
            old(self).wf(),
        ensures
            final(self).same_except(old(self), set![PanelPart::Lock, PanelPart::PinDialog]),
            final(self).wf(),
            accepted == (old(self).pin_dialog().0 && pin@ == ADMIN_PIN@),
            !accepted ==> final(self).lock() == old(self).lock() && final(self).pin_dialog() == old(self).pin_dialog(),
            accepted ==> final(self).pin_dialog() == (false, old(self).pin_dialog().1),
            accepted && old(self).pin_dialog().1 == PinAction::Lock ==> final(self).lock() == (true, "Admin"@),
            accepted && old(self).pin_dialog().1 == PinAction::Unlock ==> final(self).lock() == (false, Seq::<char>::empty()),
            accepted && old(self).pin_dialog().1 == PinAction::Override ==> final(self).lock() == old(self).lock(),
            final(self).triac_levels() == old(self).triac_levels(),
            final(self).pending_triac_levels() == old(self).pending_triac_levels(),
            final(self).temp_control() == old(self).temp_control(),
    {
        if !self.show_pin_dialog || !same_text(pin, ADMIN_PIN) {
            return false;
        }
        match self.pin_action {
            PinAction::Lock => {
                self.temp_control_locked = true;
                self.locked_by = owned("Admin");
            },
            PinAction::Unlock => {
                self.temp_control_locked = false;
                self.locked_by = String::new();
                assert(self.locked_by@ =~= Seq::<char>::empty());
            },
            PinAction::Override => {},
        }
        self.show_pin_dialog = false;
        true
    }

    /// Closes the PIN dialog without acting.
    pub fn cancel_pin(&mut self)
        requires
            old(self).wf(),
        ensures
            final(self).same_except(old(self), set![PanelPart::PinDialog]),
            final(self).wf(),
            final(self).pin_dialog() == (false, old(self).pin_dialog().1),
            final(self).lock() == old(self).lock(),
    {
        self.show_pin_dialog = false;
    }
}

impl IOControlPanel {
    /// Starts editing the name of universal input `i`, from its current name; an index
    /// past the inputs changes nothing.
    pub fn begin_name_edit(&mut self, i: usize)
        requires
            old(self).wf(),
        ensures
            final(self).same_except(old(self), set![PanelPart::NameEdit]),
            final(self).wf(),
            final(self).input_name_list() == old(self).input_name_list(),
            i < 8 ==> final(self).name_edit() == (Some(i), old(self).input_name_list()[i as int]),
            i >= 8 ==> final(self).name_edit() == old(self).name_edit(),
    {
        if i < self.input_names.len() {
            self.editing_channel_name = self.input_names[i].clone();
            self.editing_input = Some(i);
        }
    }

    /// Replaces the name typed so far.
    pub fn set_editing_name(&mut self, name: &str)
        requires
            old(self).wf(),
        ensures
            final(self).same_except(old(self), set![PanelPart::NameEdit]),
            final(self).wf(),
            final(self).input_name_list() == old(self).input_name_list(),
            final(self).name_edit() == (old(self).name_edit().0, name@),
    {
        self.editing_channel_name = owned(name);
    }

    /// Ends the edit and gives the input the name typed (on "✓" or when the field loses
    /// focus); without an edit under way nothing changes.
    pub fn commit_name_edit(&mut self)
        requires
            old(self).wf(),
        ensures
            final(self).same_except(old(self), set![PanelPart::InputNames, PanelPart::NameEdit]),
            final(self).wf(),
            final(self).name_edit().0 is None,
            final(self).input_name_list() == match old(self).name_edit().0 {
                Some(i) => old(self).input_name_list().update(i as int, old(self).name_edit().1),
                None => old(self).input_name_list(),
            },
    {
        if let Some(i) = self.editing_input {
            let name = self.editing_channel_name.clone();
            self.input_names.set(i, name);
            assert(self.input_names@.map_values(|n: String| n@) =~= old(self).input_name_list().update(
                i as int,
                old(self).name_edit().1,
            ));
        }
        self.editing_input = None;
    }

    /// Ends the edit and keeps the input's name (on "✗").
    pub fn cancel_name_edit(&mut self)
        requires
            old(self).wf(),
        ensures
            final(self).same_except(old(self), set![PanelPart::NameEdit]),
            final(self).wf(),
            final(self).input_name_list() == old(self).input_name_list(),
            final(self).name_edit() == (None::<usize>, old(self).name_edit().1),
    {
        self.editing_input = None;
    }

    /// The names of the universal inputs.
    pub fn input_names(&self) -> (v: &Vec<String>)
        ensures
            v@.map_values(|n: String| n@) == self.input_name_list(),
    {
        &self.input_names
    }

    /// The applied triac levels.
    pub fn triacs(&self) -> (v: &Vec<u8>)
        ensures
            v@ == self.triac_levels(),
    {
        &self.triacs
    }

    /// The triac levels set but not applied.
    pub fn pending_triacs(&self) -> (v: &Vec<u8>)
        ensures
            v@ == self.pending_triac_levels(),
    {
        &self.pending_triacs
    }

    /// The applied states of the 8-relay board, if present.
    pub fn relay_board_8(&self) -> (v: &Option<Vec<bool>>)
        ensures
            opt_seq(*v) == self.relays_8(),
    {
        &self.relay_board_8
    }

    /// The pending states of the 8-relay board, if present.
    pub fn pending_relay_8(&self) -> (v: &Option<Vec<bool>>)
        ensures
            opt_seq(*v) == self.pending_relays_8(),
    {
        &self.pending_relay_8
    }

    /// The applied states of the 16-relay board, if present.
    pub fn relay_board_16(&self) -> (v: &Option<Vec<bool>>)
        ensures
            opt_seq(*v) == self.relays_16(),
    {
        &self.relay_board_16
    }

    /// The pending states of the 16-relay board, if present.
    pub fn pending_relay_16(&self) -> (v: &Option<Vec<bool>>)
        ensures
            opt_seq(*v) == self.pending_relays_16(),
    {
        &self.pending_relay_16
    }

    /// Whether temperature control is locked.
    pub fn temp_control_locked(&self) -> (b: bool)
        ensures
            b == self.lock().0,
    {
        self.temp_control_locked
    }

    /// Who locked temperature control (empty when unlocked by the PIN).
    pub fn locked_by(&self) -> (s: &String)
        ensures
            s@ == self.lock().1,
    {
        &self.locked_by
    }

    /// Whether the PIN dialog is open, and what for.
    pub fn pin_dialog_state(&self) -> (r: (bool, PinAction))
        ensures
            r == self.pin_dialog(),
    {
        (self.show_pin_dialog, self.pin_action)
    }

    /// Whether temperature control is on, and its mode.
    pub fn temp_control_state(&self) -> (r: (bool, TempControlMode))
        ensures
            r == self.temp_control(),
    {
        (self.temp_control_enabled, self.temp_control_mode)
    }
}

/// Flipping a pending relay twice restores it.
pub proof fn law_toggle_twice(s: Seq<bool>, i: int)
    requires
        0 <= i < s.len(),
    ensures
        toggled(toggled(s, i), i) == s,
{
    assert(toggled(toggled(s, i), i) =~= s);
}

} // verus!
