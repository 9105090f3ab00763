//! Refrigerant diagnostics: where a pressure is measured, the kind of expansion device,
//! how severe a fault is, and the bounded history of diagnoses.
use vstd::prelude::*;
use crate::text::{append_decimal, append_str, decimal, owned};

verus! {

/// Where a pressure transducer sits in the refrigerant circuit.
#[derive(Debug, Clone, PartialEq, Eq)]
pub enum PressureLocation {
    Suction,
    Discharge,
    Liquid,
    Other(String),
}

/// The expansion device of a system.
#[derive(Debug, Clone, Copy, PartialEq, Eq, Structural)]
pub enum SystemType {
    TXV,
    FixedOrifice,
    EEV,
}

/// How serious a diagnosed fault is.
#[derive(Debug, Clone, Copy, PartialEq, Eq, Structural)]
pub enum Severity {
    Critical,
    Major,
    Minor,
    Info,
}

/// The number of diagnoses the engine keeps.
pub const MAX_HISTORY: usize = 1000;

/// The history after appending `x`: the oldest entry goes when the history would exceed
/// `max`.
pub open spec fn bounded_push<T>(h: Seq<T>, x: T, max: nat) -> Seq<T> {
    if h.push(x).len() > max {
        h.push(x).skip(1)
    } else {
        h.push(x)
    }
}

/// Appends `x` to `history`, dropping the oldest entry when the history would then hold
/// more than `max` entries.
pub fn push_bounded<T>(history: &mut Vec<T>, x: T, max: usize)
    ensures
        final(history)@ == bounded_push(old(history)@, x, max as nat),
{
    history.push(x);
    if history.len() > max {
        history.remove(0);
        assert(history@ =~= bounded_push(old(history)@, x, max as nat));
    }
}

/// A history kept within its bound stays within it, keeps its order, and ends with the
/// newest entry.
pub proof fn law_history_stays_bounded<T>(h: Seq<T>, x: T, max: nat)
    requires
        h.len() <= max,
    ensures
        bounded_push(h, x, max).len() <= max,
        h.len() < max ==> bounded_push(h, x, max) == h.push(x),
        max > 0 ==> bounded_push(h, x, max).last() == x,
{
}

/// The error for a channel without a configured transducer.
pub fn transducer_not_configured(channel: u8) -> (e: String)
    ensures
        e@ == "Transducer on channel "@ + decimal(channel as nat) + " not configured"@,
{
    let mut e = owned("Transducer on channel ");
    append_decimal(&mut e, channel as u64);
    append_str(&mut e, " not configured");
    e
}

/// The error for a refrigerant missing from the database.
pub fn unknown_refrigerant(name: &str) -> (e: String)
    ensures
        e@ == "Unknown refrigerant: "@ + name@,
{
    let mut e = owned("Unknown refrigerant: ");
    append_str(&mut e, name);
    e
}

} // verus!
