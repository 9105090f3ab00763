//! Alarm monitoring for critical HVAC equipment: detection against configured
//! limits, acknowledgment, clearing and history.
//!
//! Point values and limits are fixed-point numbers in hundredths of the
//! engineering unit (`4500` stands for `45.00` psi); times are Unix seconds.
use vstd::prelude::*;
use crate::text::{append_signed_decimal, decimal, owned, same_text, signed_decimal, append_str, append_decimal, digit, digit_char, push_char};

verus! {

/// How urgent an alarm is.
#[derive(Debug, Clone, Copy, PartialEq, Eq, Structural)]
pub enum AlarmSeverity {
    Critical,
    High,
    Medium,
    Low,
    Info,
}

/// What kind of fault an alarm reports.
#[derive(Debug, Clone, Copy, PartialEq, Eq, Structural)]
pub enum AlarmType {
    HighPressure,
    LowPressure,
    HighTemperature,
    LowTemperature,
    SensorFailure,
    CommunicationLoss,
    EquipmentFault,
    SafetyInterlock,
    MaintenanceDue,
    VibrationHigh,
    RefrigerantLeak,
    PowerFailure,
    ControlFailure,
}

/// The condition under which a point value raises an alarm
/// (limits in hundredths of the point's unit).
#[derive(Debug, Clone, Copy, PartialEq, Eq, Structural)]
pub enum AlarmCondition {
    HighLimit { value: i64 },
    LowLimit { value: i64 },
    OutOfRange { min: i64, max: i64 },
    RateOfChange { max_change_per_min: i64 },
    Boolean { expected: bool },
    Deviation { from_setpoint: i64 },
    Equipment { fault_code: u32 },
}

/// A configured alarm.
#[derive(Debug, Clone)]
pub struct AlarmDefinition {
    pub id: String,
    pub name: String,
    pub alarm_type: AlarmType,
    pub severity: AlarmSeverity,
    pub enabled: bool,
    pub point_name: String,
    pub condition: AlarmCondition,
    /// Seconds the condition must hold before the alarm is raised.
    pub delay_seconds: u32,
    pub auto_reset: bool,
    pub require_acknowledgment: bool,
    pub notification_enabled: bool,
    pub email_recipients: Vec<String>,
}

/// An alarm that has been raised and not yet retired.
#[derive(Debug, Clone)]
pub struct ActiveAlarm {
    pub id: String,
    pub definition_id: String,
    pub name: String,
    pub alarm_type: AlarmType,
    pub severity: AlarmSeverity,
    pub triggered_at: i64,
    pub value: i64,
    pub threshold: i64,
    pub message: String,
    pub location: String,
    pub equipment: Option<String>,
    pub acknowledged: bool,
    pub acknowledged_by: Option<String>,
    pub acknowledged_at: Option<i64>,
    pub cleared: bool,
    pub cleared_at: Option<i64>,
    pub duration_seconds: u64,
    pub occurrence_count: u32,
}

/// A record of an alarm that cleared or was acknowledged after clearing.
#[derive(Debug, Clone)]
pub struct AlarmHistory {
    pub alarm_id: String,
    pub name: String,
    pub severity: AlarmSeverity,
    pub triggered_at: i64,
    pub cleared_at: Option<i64>,
    pub duration_seconds: u64,
    pub max_value: i64,
    pub acknowledged: bool,
    pub acknowledged_by: Option<String>,
    pub notes: Option<String>,
}

/// Number of alarms raised so far, per severity.
#[derive(Debug, Clone, Copy, PartialEq, Eq, Structural)]
pub struct AlarmCounts {
    pub critical: u32,
    pub high: u32,
    pub medium: u32,
    pub low: u32,
    pub info: u32,
}

/// The mathematical content of an [`AlarmDefinition`].
pub struct DefinitionView {
    pub id: Seq<char>,
    pub name: Seq<char>,
    pub alarm_type: AlarmType,
    pub severity: AlarmSeverity,
    pub enabled: bool,
    pub point_name: Seq<char>,
    pub condition: AlarmCondition,
    pub delay_seconds: u32,
    pub auto_reset: bool,
    pub require_acknowledgment: bool,
    pub notification_enabled: bool,
    pub email_recipients: Seq<Seq<char>>,
}

/// The mathematical content of an [`ActiveAlarm`].
pub struct ActiveView {
    pub id: Seq<char>,
    pub definition_id: Seq<char>,
    pub name: Seq<char>,
    pub alarm_type: AlarmType,
    pub severity: AlarmSeverity,
    pub triggered_at: i64,
    pub value: i64,
    pub threshold: i64,
    pub message: Seq<char>,
    pub location: Seq<char>,
    pub equipment: Option<Seq<char>>,
    pub acknowledged: bool,
    pub acknowledged_by: Option<Seq<char>>,
    pub acknowledged_at: Option<i64>,
    pub cleared: bool,
    pub cleared_at: Option<i64>,
    pub duration_seconds: u64,
    pub occurrence_count: u32,
}

/// The mathematical content of an [`AlarmHistory`] record.
pub struct HistoryView {
    pub alarm_id: Seq<char>,
    pub name: Seq<char>,
    pub severity: AlarmSeverity,
    pub triggered_at: i64,
    pub cleared_at: Option<i64>,
    pub duration_seconds: u64,
    pub max_value: i64,
    pub acknowledged: bool,
    pub acknowledged_by: Option<Seq<char>>,
    pub notes: Option<Seq<char>>,
}

/// The characters of an optional string.
pub open spec fn opt_view(o: Option<String>) -> Option<Seq<char>> {
    match o {
        Some(s) => Some(s@),
        None => None,
    }
}

impl View for AlarmDefinition {
    type V = DefinitionView;

    open spec fn view(&self) -> DefinitionView {
        DefinitionView {
            id: self.id@,
            name: self.name@,
            alarm_type: self.alarm_type,
            severity: self.severity,
            enabled: self.enabled,
            point_name: self.point_name@,
            condition: self.condition,
            delay_seconds: self.delay_seconds,
            auto_reset: self.auto_reset,
            require_acknowledgment: self.require_acknowledgment,
            notification_enabled: self.notification_enabled,
            email_recipients: self.email_recipients@.map_values(|s: String| s@),
        }
    }
}

impl View for ActiveAlarm {
    type V = ActiveView;

    open spec fn view(&self) -> ActiveView {
        ActiveView {
            id: self.id@,
            definition_id: self.definition_id@,
            name: self.name@,
            alarm_type: self.alarm_type,
            severity: self.severity,
            triggered_at: self.triggered_at,
            value: self.value,
            threshold: self.threshold,
            message: self.message@,
            location: self.location@,
            equipment: opt_view(self.equipment),
            acknowledged: self.acknowledged,
            acknowledged_by: opt_view(self.acknowledged_by),
            acknowledged_at: self.acknowledged_at,
            cleared: self.cleared,
            cleared_at: self.cleared_at,
            duration_seconds: self.duration_seconds,
            occurrence_count: self.occurrence_count,
        }
    }
}

impl View for AlarmHistory {
    type V = HistoryView;

    open spec fn view(&self) -> HistoryView {
        HistoryView {
            alarm_id: self.alarm_id@,
            name: self.name@,
            severity: self.severity,
            triggered_at: self.triggered_at,
            cleared_at: self.cleared_at,
            duration_seconds: self.duration_seconds,
            max_value: self.max_value,
            acknowledged: self.acknowledged,
            acknowledged_by: opt_view(self.acknowledged_by),
            notes: opt_view(self.notes),
        }
    }
}

/// The views of a sequence of definitions.
pub open spec fn definitions_view(s: Seq<AlarmDefinition>) -> Seq<DefinitionView> {
    s.map_values(|d: AlarmDefinition| d@)
}

/// The views of a sequence of active alarms.
pub open spec fn actives_view(s: Seq<ActiveAlarm>) -> Seq<ActiveView> {
    s.map_values(|a: ActiveAlarm| a@)
}

/// The views of a sequence of history records.
pub open spec fn histories_view(s: Seq<AlarmHistory>) -> Seq<HistoryView> {
    s.map_values(|h: AlarmHistory| h@)
}

/// A copy of an optional string.
pub fn copy_opt(o: &Option<String>) -> (r: Option<String>)
    ensures
        opt_view(r) == opt_view(*o),
{
    match o {
        Some(s) => Some(s.clone()),
        None => None,
    }
}

/// A copy of a list of strings.
pub fn copy_strings(v: &Vec<String>) -> (r: Vec<String>)
    ensures
        r@.map_values(|s: String| s@) == v@.map_values(|s: String| s@),
{
    let mut r: Vec<String> = Vec::new();
    let mut i: usize = 0;
    while i < v.len()
        invariant
            i <= v@.len(),
            r@.len() == i,
            forall|j: int| 0 <= j < i ==> #[trigger] r@[j]@ == v@[j]@,
        decreases v@.len() - i,
    {
        r.push(v[i].clone());
        i = i + 1;
    }
    assert(r@.map_values(|s: String| s@) =~= v@.map_values(|s: String| s@));
    r
}

impl AlarmDefinition {
    /// A copy of this definition.
    pub fn duplicate(&self) -> (r: AlarmDefinition)
        ensures
            r@ == self@,
    {
        AlarmDefinition {
            id: self.id.clone(),
            name: self.name.clone(),
            alarm_type: self.alarm_type,
            severity: self.severity,
            enabled: self.enabled,
            point_name: self.point_name.clone(),
            condition: self.condition,
            delay_seconds: self.delay_seconds,
            auto_reset: self.auto_reset,
            require_acknowledgment: self.require_acknowledgment,
            notification_enabled: self.notification_enabled,
            email_recipients: copy_strings(&self.email_recipients),
        }
    }
}

impl ActiveAlarm {
    /// A copy of this alarm.
    pub fn duplicate(&self) -> (r: ActiveAlarm)
        ensures
            r@ == self@,
    {
        ActiveAlarm {
            id: self.id.clone(),
            definition_id: self.definition_id.clone(),
            name: self.name.clone(),
            alarm_type: self.alarm_type,
            severity: self.severity,
            triggered_at: self.triggered_at,
            value: self.value,
            threshold: self.threshold,
            message: self.message.clone(),
            location: self.location.clone(),
            equipment: copy_opt(&self.equipment),
            acknowledged: self.acknowledged,
            acknowledged_by: copy_opt(&self.acknowledged_by),
            acknowledged_at: self.acknowledged_at,
            cleared: self.cleared,
            cleared_at: self.cleared_at,
            duration_seconds: self.duration_seconds,
            occurrence_count: self.occurrence_count,
        }
    }
}

impl AlarmHistory {
    /// A copy of this record.
    pub fn duplicate(&self) -> (r: AlarmHistory)
        ensures
            r@ == self@,
    {
        AlarmHistory {
            alarm_id: self.alarm_id.clone(),
            name: self.name.clone(),
            severity: self.severity,
            triggered_at: self.triggered_at,
            cleared_at: self.cleared_at,
            duration_seconds: self.duration_seconds,
            max_value: self.max_value,
            acknowledged: self.acknowledged,
            acknowledged_by: copy_opt(&self.acknowledged_by),
            notes: copy_opt(&self.notes),
        }
    }
}


/// `|v|`.
pub open spec fn abs_int(v: int) -> int {
    if v < 0 { -v } else { v }
}

/// A point value (in hundredths) meets an alarm condition.
pub open spec fn condition_holds(c: AlarmCondition, value: int) -> bool {
    match c {
        AlarmCondition::HighLimit { value: limit } => value > limit,
        AlarmCondition::LowLimit { value: limit } => value < limit,
        AlarmCondition::OutOfRange { min, max } => value < min || value > max,
        AlarmCondition::Deviation { from_setpoint } => abs_int(value) > from_setpoint,
        _ => false,
    }
}

/// The limit shown with an alarm: the limit of a high or low limit, otherwise zero.
pub open spec fn display_threshold(c: AlarmCondition) -> i64 {
    match c {
        AlarmCondition::HighLimit { value } => value,
        AlarmCondition::LowLimit { value } => value,
        _ => 0,
    }
}

/// A value in hundredths written with two decimals, as `{:.2}` writes it.
pub open spec fn centi_text(v: int) -> Seq<char> {
    let a = abs_int(v);
    (if v < 0 { seq!['-'] } else { Seq::<char>::empty() }) + decimal((a / 100) as nat) + seq![
        '.',
        digit_char((a % 100) / 10),
        digit_char(a % 10),
    ]
}

/// `"{name}: {point} = {value:.2} (threshold: {threshold:.2})"`.
pub open spec fn alarm_message(name: Seq<char>, point: Seq<char>, value: int, threshold: int) -> Seq<
    char,
> {
    name + ": "@ + point + " = "@ + centi_text(value) + " (threshold: "@ + centi_text(threshold)
        + ")"@
}

/// `"{definition id}_{timestamp}"`.
pub open spec fn alarm_id(def_id: Seq<char>, now: i64) -> Seq<char> {
    def_id + "_"@ + signed_decimal(now as int)
}

/// The alarm that definition `d` raises for `point` at value `value` and time `now`.
pub open spec fn raised_alarm(d: DefinitionView, point: Seq<char>, value: i64, now: i64) -> ActiveView {
    ActiveView {
        id: alarm_id(d.id, now),
        definition_id: d.id,
        name: d.name,
        alarm_type: d.alarm_type,
        severity: d.severity,
        triggered_at: now,
        value,
        threshold: display_threshold(d.condition),
        message: alarm_message(d.name, point, value as int, display_threshold(d.condition) as int),
        location: "Main Building"@,
        equipment: Some("HVAC System"@),
        acknowledged: false,
        acknowledged_by: None,
        acknowledged_at: None,
        cleared: false,
        cleared_at: None,
        duration_seconds: 0,
        occurrence_count: 1,
    }
}

/// Seconds from `from` to `to`, taken as an unsigned count the way `as u64` does.
pub open spec fn elapsed(from: i64, to: i64) -> u64 {
    (to as int - from as int) as u64
}

/// Alarm `a` marked cleared at time `now`.
pub open spec fn cleared_alarm(a: ActiveView, now: i64) -> ActiveView {
    ActiveView {
        cleared: true,
        cleared_at: Some(now),
        duration_seconds: elapsed(a.triggered_at, now),
        ..a
    }
}

/// The history record written for alarm `a`.
pub open spec fn history_entry(a: ActiveView) -> HistoryView {
    HistoryView {
        alarm_id: a.id,
        name: a.name,
        severity: a.severity,
        triggered_at: a.triggered_at,
        cleared_at: a.cleared_at,
        duration_seconds: a.duration_seconds,
        max_value: a.value,
        acknowledged: a.acknowledged,
        acknowledged_by: a.acknowledged_by,
        notes: None,
    }
}

/// Counts after one more alarm of severity `sev`.
pub open spec fn bump(c: AlarmCounts, sev: AlarmSeverity) -> AlarmCounts {
    match sev {
        AlarmSeverity::Critical => AlarmCounts { critical: c.critical.wrapping_add(1), ..c },
        AlarmSeverity::High => AlarmCounts { high: c.high.wrapping_add(1), ..c },
        AlarmSeverity::Medium => AlarmCounts { medium: c.medium.wrapping_add(1), ..c },
        AlarmSeverity::Low => AlarmCounts { low: c.low.wrapping_add(1), ..c },
        AlarmSeverity::Info => AlarmCounts { info: c.info.wrapping_add(1), ..c },
    }
}

/// The count kept for severity `sev`.
pub open spec fn count_of(c: AlarmCounts, sev: AlarmSeverity) -> u32 {
    match sev {
        AlarmSeverity::Critical => c.critical,
        AlarmSeverity::High => c.high,
        AlarmSeverity::Medium => c.medium,
        AlarmSeverity::Low => c.low,
        AlarmSeverity::Info => c.info,
    }
}

/// The alarm-tracking part of a monitor's state.
pub struct MonitorState {
    pub active: Seq<ActiveView>,
    pub history: Seq<HistoryView>,
    pub counts: AlarmCounts,
}

/// Some active alarm belongs to definition `def_id`.
pub open spec fn has_active(active: Seq<ActiveView>, def_id: Seq<char>) -> bool {
    exists|k: int| 0 <= k < active.len() && #[trigger] active[k].definition_id == def_id
}

/// `k` is the first position of an active alarm of definition `def_id`.
pub open spec fn is_first_of_definition(active: Seq<ActiveView>, def_id: Seq<char>, k: int) -> bool {
    &&& 0 <= k < active.len()
    &&& active[k].definition_id == def_id
    &&& forall|j: int| 0 <= j < k ==> #[trigger] active[j].definition_id != def_id
}

/// The first position of an active alarm of definition `def_id`.
pub open spec fn first_of_definition(active: Seq<ActiveView>, def_id: Seq<char>) -> int {
    choose|k: int| is_first_of_definition(active, def_id, k)
}

/// `k` is the first position of an active alarm with identifier `id`.
pub open spec fn is_first_with_id(active: Seq<ActiveView>, id: Seq<char>, k: int) -> bool {
    &&& 0 <= k < active.len()
    &&& active[k].id == id
    &&& forall|j: int| 0 <= j < k ==> #[trigger] active[j].id != id
}

/// The first position of an active alarm with identifier `id`.
pub open spec fn first_with_id(active: Seq<ActiveView>, id: Seq<char>) -> int {
    choose|k: int| is_first_with_id(active, id, k)
}

/// When the condition of a definition started to hold: the start of its running timer,
/// or `now` when no timer runs.
pub open spec fn timer_start(since: Option<i64>, now: i64) -> int {
    match since {
        Some(t) => t as int,
        None => now as int,
    }
}

/// The condition of `d`, holding since the timer `since` (or since `now`), has held for
/// its whole delay at time `now`.
pub open spec fn delay_elapsed(d: DefinitionView, since: Option<i64>, now: i64) -> bool {
    now - timer_start(since, now) >= d.delay_seconds
}

/// What one definition does with a point reading: the new state, the alarm it raises, if
/// any, and the definition's new timer. The timer holds the time since which the condition
/// has held without an alarm; an alarm is raised only once the condition has held for the
/// definition's delay.
pub open spec fn step(
    st: MonitorState,
    d: DefinitionView,
    since: Option<i64>,
    point: Seq<char>,
    value: i64,
    now: i64,
) -> (MonitorState, Seq<ActiveView>, Option<i64>) {
    if !d.enabled || d.point_name != point {
        (st, Seq::empty(), since)
    } else if condition_holds(d.condition, value as int) {
        if has_active(st.active, d.id) {
            (st, Seq::empty(), since)
        } else if delay_elapsed(d, since, now) {
            let a = raised_alarm(d, point, value, now);
            (
                MonitorState {
                    active: st.active.push(a),
                    history: st.history,
                    counts: bump(st.counts, d.severity),
                },
                seq![a],
                None,
            )
        } else {
            (
                st,
                Seq::empty(),
                match since {
                    Some(t) => Some(t),
                    None => Some(now),
                },
            )
        }
    } else if d.auto_reset && has_active(st.active, d.id) {
        let k = first_of_definition(st.active, d.id);
        let a = st.active[k];
        if a.cleared {
            (st, Seq::empty(), None)
        } else {
            let c = cleared_alarm(a, now);
            (
                MonitorState {
                    active: if !d.require_acknowledgment || c.acknowledged {
                        st.active.remove(k)
                    } else {
                        st.active.update(k, c)
                    },
                    history: st.history.push(history_entry(c)),
                    counts: st.counts,
                },
                Seq::empty(),
                None,
            )
        }
    } else {
        (st, Seq::empty(), None)
    }
}

/// The definitions in `defs`, taken in order, applied to one point reading; `timers[i]`
/// is the timer of `defs[i]`. Gives the new state, the alarms raised and the new timers.
pub open spec fn run(
    st: MonitorState,
    defs: Seq<DefinitionView>,
    timers: Seq<Option<i64>>,
    point: Seq<char>,
    value: i64,
    now: i64,
) -> (MonitorState, Seq<ActiveView>, Seq<Option<i64>>)
    decreases defs.len(),
{
    if defs.len() == 0 {
        (st, Seq::empty(), Seq::empty())
    } else {
        let (s1, t1, m1) = run(st, defs.drop_last(), timers.drop_last(), point, value, now);
        let (s2, t2, m2) = step(s1, defs.last(), timers.last(), point, value, now);
        (s2, t1 + t2, m1.push(m2))
    }
}

/// `n` definitions without running timers.
pub open spec fn no_timers(n: nat) -> Seq<Option<i64>> {
    Seq::new(n, |i: int| None)
}

/// Definition identifiers are pairwise distinct.
pub open spec fn distinct_definition_ids(defs: Seq<DefinitionView>) -> bool {
    forall|i: int, j: int|
        0 <= i < defs.len() && 0 <= j < defs.len() && i != j ==> #[trigger] defs[i].id
            != #[trigger] defs[j].id
}

/// At most one active alarm per definition.
pub open spec fn one_alarm_per_definition(active: Seq<ActiveView>) -> bool {
    forall|i: int, j: int|
        0 <= i < active.len() && 0 <= j < active.len() && i != j ==> #[trigger] active[i].definition_id
            != #[trigger] active[j].definition_id
}

/// Appends `v` in hundredths with two decimals.
pub fn append_centi(out: &mut String, v: i64)
    ensures
        final(out)@ == old(out)@ + centi_text(v as int),
{
    if v < 0 {
        push_char(out, '-');
    }
    let a: u64 = if v == i64::MIN { 9223372036854775808u64 } else if v < 0 { (-v) as u64 } else { v as u64 };
    assert(a as int == abs_int(v as int));
    append_decimal(out, a / 100);
    push_char(out, '.');
    push_char(out, digit((a % 100) / 10));
    push_char(out, digit(a % 10));
    assert(final(out)@ =~= old(out)@ + centi_text(v as int));
}


/// Whether `value` (in hundredths) meets condition `c`.
pub fn check_condition(c: &AlarmCondition, value: i64) -> (r: bool)
    ensures
        r == condition_holds(*c, value as int),
        *c matches AlarmCondition::HighLimit { value: l } ==> (r <==> value > l),
        *c matches AlarmCondition::LowLimit { value: l } ==> (r <==> value < l),
        *c matches AlarmCondition::OutOfRange { min, max } ==> (r <==> (value < min || value > max)),
        *c matches AlarmCondition::Deviation { from_setpoint: d } ==> (r <==> (value > d || value < -d)),
        *c matches AlarmCondition::RateOfChange { .. } ==> !r,
        *c matches AlarmCondition::Boolean { .. } ==> !r,
        *c matches AlarmCondition::Equipment { .. } ==> !r,
{
    match c {
        AlarmCondition::HighLimit { value: limit } => value > *limit,
        AlarmCondition::LowLimit { value: limit } => value < *limit,
        AlarmCondition::OutOfRange { min, max } => value < *min || value > *max,
        AlarmCondition::Deviation { from_setpoint } => {
            if value < 0 {
                (value as i128) < -(*from_setpoint as i128)
            } else {
                value > *from_setpoint
            }
        },
        _ => false,
    }
}

/// The limit shown with an alarm raised under condition `c`.
fn threshold_of(c: &AlarmCondition) -> (t: i64)
    ensures
        t == display_threshold(*c),
{
    match c {
        AlarmCondition::HighLimit { value } => *value,
        AlarmCondition::LowLimit { value } => *value,
        _ => 0,
    }
}

/// The alarm that `d` raises for `point` at `value` and time `now`.
fn make_alarm(d: &AlarmDefinition, point: &str, value: i64, now: i64) -> (a: ActiveAlarm)
    ensures
        a@ == raised_alarm(d@, point@, value, now),
{
    let threshold = threshold_of(&d.condition);
    let mut id = d.id.clone();
    append_str(&mut id, "_");
    append_signed_decimal(&mut id, now);
    let mut message = d.name.clone();
    append_str(&mut message, ": ");
    append_str(&mut message, point);
    append_str(&mut message, " = ");
    append_centi(&mut message, value);
    append_str(&mut message, " (threshold: ");
    append_centi(&mut message, threshold);
    append_str(&mut message, ")");
    let a = ActiveAlarm {
        id,
        definition_id: d.id.clone(),
        name: d.name.clone(),
        alarm_type: d.alarm_type,
        severity: d.severity,
        triggered_at: now,
        value,
        threshold,
        message,
        location: owned("Main Building"),
        equipment: Some(owned("HVAC System")),
        acknowledged: false,
        acknowledged_by: None,
        acknowledged_at: None,
        cleared: false,
        cleared_at: None,
        duration_seconds: 0,
        occurrence_count: 1,
    };
    assert(a@.message =~= alarm_message(d@.name, point@, value as int, threshold as int));
    assert(a@.id =~= alarm_id(d@.id, now));
    a
}

/// Two first positions of the same definition coincide.
pub proof fn lemma_first_of_definition(active: Seq<ActiveView>, def_id: Seq<char>, k: int)
    requires
        is_first_of_definition(active, def_id, k),
    ensures
        first_of_definition(active, def_id) == k,
        has_active(active, def_id),
{
    let c = first_of_definition(active, def_id);
    assert(is_first_of_definition(active, def_id, c));
    if c < k {
        assert(active[c].definition_id != def_id);
    } else if k < c {
        assert(active[k].definition_id != def_id);
    }
}

/// Two first positions of the same identifier coincide.
pub proof fn lemma_first_with_id(active: Seq<ActiveView>, id: Seq<char>, k: int)
    requires
        is_first_with_id(active, id, k),
    ensures
        first_with_id(active, id) == k,
{
    let c = first_with_id(active, id);
    assert(is_first_with_id(active, id, c));
    if c < k {
        assert(active[c].id != id);
    } else if k < c {
        assert(active[k].id != id);
    }
}

/// The first active alarm of definition `def_id`, if there is one.
fn find_definition_alarm(active: &Vec<ActiveAlarm>, def_id: &str) -> (r: Option<usize>)
    ensures
        r matches Some(k) ==> is_first_of_definition(actives_view(active@), def_id@, k as int),
        r is None ==> !has_active(actives_view(active@), def_id@),
{
    let ghost av = actives_view(active@);
    let mut i: usize = 0;
    while i < active.len()
        invariant
            av == actives_view(active@),
            i <= active@.len(),
            forall|j: int| 0 <= j < i ==> #[trigger] av[j].definition_id != def_id@,
        decreases active@.len() - i,
    {
        if same_text(active[i].definition_id.as_str(), def_id) {
            return Some(i);
        }
        i = i + 1;
    }
    assert forall|k: int| 0 <= k < av.len() implies #[trigger] av[k].definition_id != def_id@ by {}
    None
}

/// The first active alarm with identifier `id`, if there is one.
fn find_alarm_by_id(active: &Vec<ActiveAlarm>, id: &str) -> (r: Option<usize>)
    ensures
        r matches Some(k) ==> is_first_with_id(actives_view(active@), id@, k as int),
        r is None ==> forall|k: int|
            0 <= k < active@.len() ==> #[trigger] actives_view(active@)[k].id != id@,
{
    let ghost av = actives_view(active@);
    let mut i: usize = 0;
    while i < active.len()
        invariant
            av == actives_view(active@),
            i <= active@.len(),
            forall|j: int| 0 <= j < i ==> #[trigger] av[j].id != id@,
        decreases active@.len() - i,
    {
        if same_text(active[i].id.as_str(), id) {
            return Some(i);
        }
        i = i + 1;
    }
    None
}

/// The history record written for `a`.
fn history_of(a: &ActiveAlarm) -> (h: AlarmHistory)
    ensures
        h@ == history_entry(a@),
{
    AlarmHistory {
        alarm_id: a.id.clone(),
        name: a.name.clone(),
        severity: a.severity,
        triggered_at: a.triggered_at,
        cleared_at: a.cleared_at,
        duration_seconds: a.duration_seconds,
        max_value: a.value,
        acknowledged: a.acknowledged,
        acknowledged_by: copy_opt(&a.acknowledged_by),
        notes: None,
    }
}

/// Adds one to the count of severity `sev`.
fn bump_counts(c: &mut AlarmCounts, sev: AlarmSeverity)
    ensures
        *final(c) == bump(*old(c), sev),
{
    match sev {
        AlarmSeverity::Critical => c.critical = c.critical.wrapping_add(1),
        AlarmSeverity::High => c.high = c.high.wrapping_add(1),
        AlarmSeverity::Medium => c.medium = c.medium.wrapping_add(1),
        AlarmSeverity::Low => c.low = c.low.wrapping_add(1),
        AlarmSeverity::Info => c.info = c.info.wrapping_add(1),
    }
}

/// `to - from` seconds, converted with `as u64`.
fn elapsed_seconds(from: i64, to: i64) -> (r: u64)
    ensures
        r == elapsed(from, to),
{
    let d: i128 = to as i128 - from as i128;
    #[verifier::truncate]
    (d as u64)
}

/// Applies one definition, whose timer is `since`, to a point reading.
fn apply_definition(
    active: &mut Vec<ActiveAlarm>,
    history: &mut Vec<AlarmHistory>,
    counts: &mut AlarmCounts,
    since: &mut Option<i64>,
    d: &AlarmDefinition,
    point: &str,
    value: i64,
    now: i64,
) -> (raised: Option<ActiveAlarm>)
    ensures
        ({
            let (st, t, tm) = step(
                MonitorState {
                    active: actives_view(old(active)@),
                    history: histories_view(old(history)@),
                    counts: *old(counts),
                },
                d@,
                *old(since),
                point@,
                value,
                now,
            );
            &&& actives_view(final(active)@) == st.active
            &&& histories_view(final(history)@) == st.history
            &&& *final(counts) == st.counts
            &&& *final(since) == tm
            &&& t == match raised {
                Some(a) => seq![a@],
                None => Seq::<ActiveView>::empty(),
            }
        }),
{
    let ghost st0 = MonitorState {
        active: actives_view(active@),
        history: histories_view(history@),
        counts: *counts,
    };
    if !d.enabled || !same_text(d.point_name.as_str(), point) {
        return None;
    }
    if check_condition(&d.condition, value) {
        match find_definition_alarm(active, d.id.as_str()) {
            Some(k) => {
                proof {
                    lemma_first_of_definition(actives_view(active@), d.id@, k as int);
                }
                None
            },
            None => {
                let start: i64 = match *since {
                    Some(t) => t,
                    None => now,
                };
                let waited: i128 = now as i128 - start as i128;
                if waited >= d.delay_seconds as i128 {
                    let a = make_alarm(d, point, value, now);
                    let stored = a.duplicate();
                    active.push(stored);
                    bump_counts(counts, d.severity);
                    *since = None;
                    assert(actives_view(active@) =~= st0.active.push(a@));
                    Some(a)
                } else {
                    *since = Some(start);
                    None
                }
            },
        }
    } else {
        *since = None;
        if d.auto_reset {
            match find_definition_alarm(active, d.id.as_str()) {
                None => None,
                Some(k) => {
                    proof {
                        lemma_first_of_definition(actives_view(active@), d.id@, k as int);
                    }
                    if active[k].cleared {
                        None
                    } else {
                        let mut c = active[k].duplicate();
                        c.cleared = true;
                        c.cleared_at = Some(now);
                        c.duration_seconds = elapsed_seconds(c.triggered_at, now);
                        assert(c@ == cleared_alarm(st0.active[k as int], now));
                        let h = history_of(&c);
                        history.push(h);
                        assert(histories_view(history@) =~= st0.history.push(history_entry(c@)));
                        if !d.require_acknowledgment || c.acknowledged {
                            active.remove(k);
                            assert(actives_view(active@) =~= st0.active.remove(k as int));
                        } else {
                            active.set(k, c);
                            assert(actives_view(active@) =~= st0.active.update(
                                k as int,
                                cleared_alarm(st0.active[k as int], now),
                            ));
                        }
                        None
                    }
                },
            }
        } else {
            None
        }
    }
}


/// Watches point readings against alarm definitions and keeps the active alarms,
/// their history and per-severity counts.
pub struct AlarmMonitor {
    definitions: Vec<AlarmDefinition>,
    active_alarms: Vec<ActiveAlarm>,
    alarm_history: Vec<AlarmHistory>,
    alarm_counts: AlarmCounts,
    condition_since: Vec<Option<i64>>,
    monitoring_enabled: bool,
}

impl AlarmMonitor {
    /// The configured definitions, in the order they are evaluated.
    pub closed spec fn definitions(&self) -> Seq<DefinitionView> {
        definitions_view(self.definitions@)
    }

    /// Active alarms, history and counts.
    pub closed spec fn state(&self) -> MonitorState {
        MonitorState {
            active: actives_view(self.active_alarms@),
            history: histories_view(self.alarm_history@),
            counts: self.alarm_counts,
        }
    }

    /// The timer of each definition, by position: the time since which its condition has
    /// held without raising an alarm, if it has.
    pub closed spec fn timers(&self) -> Seq<Option<i64>> {
        self.condition_since@
    }

    /// Whether readings are evaluated at all.
    pub closed spec fn monitoring(&self) -> bool {
        self.monitoring_enabled
    }

    /// Definition identifiers are distinct, each definition has one timer and at most one
    /// active alarm.
    pub closed spec fn wf(&self) -> bool {
        &&& distinct_definition_ids(definitions_view(self.definitions@))
        &&& self.condition_since@.len() == self.definitions@.len()
        &&& one_alarm_per_definition(actives_view(self.active_alarms@))
    }

    /// A well-formed monitor has distinct definition identifiers, one timer per
    /// definition and at most one active alarm per definition.
    pub proof fn lemma_wf(&self)
        requires
            self.wf(),
        ensures
            distinct_definition_ids(self.definitions()),
            self.timers().len() == self.definitions().len(),
            one_alarm_per_definition(self.state().active),
    {
    }

    /// Evaluates a reading of `point_name` against every enabled definition for that
    /// point: raises an alarm for a definition once its condition has held for the
    /// definition's delay, and clears auto-reset alarms whose condition is gone.
    /// Returns the alarms raised by this reading.
    pub fn process_point(&mut self, point_name: &str, value: i64, now: i64) -> (res: Result<
        Vec<ActiveAlarm>,
        String,
    >)
        requires
            old(self).wf(),
        ensures
            final(self).wf(),
            final(self).definitions() == old(self).definitions(),
            final(self).monitoring() == old(self).monitoring(),
            !old(self).monitoring() ==> final(self).state() == old(self).state()
                && final(self).timers() == old(self).timers() && (res matches Ok(v) && v@.len()
                == 0),
            old(self).monitoring() ==> ({
                let (st, t, tm) = run(
                    old(self).state(),
                    old(self).definitions(),
                    old(self).timers(),
                    point_name@,
                    value,
                    now,
                );
                &&& final(self).state() == st
                &&& final(self).timers() == tm
                &&& res matches Ok(v) && actives_view(v@) == t
            }),
    {
        let mut triggered: Vec<ActiveAlarm> = Vec::new();
        if !self.monitoring_enabled {
            return Ok(triggered);
        }
        let ghost st0 = self.state();
        let ghost tm0 = self.timers();
        let ghost defs = self.definitions();
        let n = self.definitions.len();
        let mut i: usize = 0;
        assert(defs.take(0) =~= Seq::<DefinitionView>::empty());
        assert(self.condition_since@.take(0) =~= Seq::<Option<i64>>::empty());
        while i < n
            invariant
                n == self.definitions@.len(),
                n == self.condition_since@.len(),
                n == tm0.len(),
                defs == self.definitions(),
                defs.len() == n,
                i <= n,
                self.monitoring_enabled,
                distinct_definition_ids(defs),
                one_alarm_per_definition(self.state().active),
                forall|j: int| i <= j < n ==> self.condition_since@[j] == tm0[j],
                ({
                    let (st, t, tm) = run(st0, defs.take(i as int), tm0.take(i as int), point_name@, value, now);
                    &&& self.state() == st
                    &&& actives_view(triggered@) == t
                    &&& self.condition_since@.take(i as int) == tm
                }),
            decreases n - i,
        {
            let ghost before = self.state();
            let ghost before_timers = self.condition_since@;
            let ghost tv = actives_view(triggered@);
            let mut since = self.condition_since[i];
            let raised = apply_definition(
                &mut self.active_alarms,
                &mut self.alarm_history,
                &mut self.alarm_counts,
                &mut since,
                &self.definitions[i],
                point_name,
                value,
                now,
            );
            self.condition_since.set(i, since);
            proof {
                lemma_step_keeps_one_alarm(before, defs[i as int], tm0[i as int], point_name@, value, now);
                assert(defs.take(i + 1).drop_last() =~= defs.take(i as int));
                assert(defs.take(i + 1).last() == defs[i as int]);
                assert(tm0.take(i + 1).drop_last() =~= tm0.take(i as int));
                assert(tm0.take(i + 1).last() == tm0[i as int]);
                assert(self.condition_since@.take(i + 1) =~= before_timers.take(i as int).push(since));
            }
            match raised {
                Some(a) => {
                    triggered.push(a);
                    assert(actives_view(triggered@) =~= tv + seq![a@]);
                },
                None => {
                    assert(actives_view(triggered@) =~= tv + Seq::<ActiveView>::empty());
                },
            }
            i = i + 1;
        }
        assert(defs.take(n as int) =~= defs);
        assert(tm0.take(n as int) =~= tm0);
        assert(self.condition_since@.take(n as int) =~= self.condition_since@);
        Ok(triggered)
    }

    /// A monitor holding the standard alarm definitions, with monitoring on and no alarms.
    pub fn new() -> (m: AlarmMonitor)
        ensures
            m.wf(),
            m.monitoring(),
            m.definitions() == default_definitions(),
            m.timers() == no_timers(default_definitions().len()),
            m.state() == (MonitorState {
                active: Seq::empty(),
                history: Seq::empty(),
                counts: zero_counts(),
            }),
    {
        let defs = default_definition_list();
        let mut timers: Vec<Option<i64>> = Vec::new();
        while timers.len() < defs.len()
            invariant
                timers@ == no_timers(timers@.len()),
                timers@.len() <= defs@.len(),
            decreases defs@.len() - timers@.len(),
        {
            timers.push(None);
            assert(timers@ =~= no_timers(timers@.len()));
        }
        let m = AlarmMonitor {
            definitions: defs,
            active_alarms: Vec::new(),
            alarm_history: Vec::new(),
            alarm_counts: AlarmCounts { critical: 0, high: 0, medium: 0, low: 0, info: 0 },
            condition_since: timers,
            monitoring_enabled: true,
        };
        assert(actives_view(m.active_alarms@) =~= Seq::<ActiveView>::empty());
        assert(histories_view(m.alarm_history@) =~= Seq::<HistoryView>::empty());
        m
    }

    /// Marks the first active alarm with identifier `alarm_id` as acknowledged by `user`
    /// at time `now`; an alarm that has already cleared moves to the history, leaving the
    /// active alarms.
    pub fn acknowledge_alarm(&mut self, alarm_id: &str, user: &str, now: i64) -> (res: Result<
        (),
        String,
    >)
        requires
            old(self).wf(),
        ensures
            final(self).wf(),
            final(self).definitions() == old(self).definitions(),
            final(self).monitoring() == old(self).monitoring(),
            final(self).state().counts == old(self).state().counts,
            final(self).timers() == old(self).timers(),
            !has_alarm_id(old(self).state().active, alarm_id@) ==> (res matches Err(e) && e@
                == "Alarm not found"@) && final(self).state() == old(self).state(),
            has_alarm_id(old(self).state().active, alarm_id@) ==> ({
                let k = first_with_id(old(self).state().active, alarm_id@);
                let a = acknowledged_alarm(old(self).state().active[k], user@, now);
                &&& res is Ok
                &&& final(self).state().active == if a.cleared {
                    old(self).state().active.remove(k)
                } else {
                    old(self).state().active.update(k, a)
                }
                &&& final(self).state().history == if a.cleared {
                    old(self).state().history.push(history_entry(a))
                } else {
                    old(self).state().history
                }
            }),
    {
        let ghost st0 = self.state();
        match find_alarm_by_id(&self.active_alarms, alarm_id) {
            None => {
                assert(!has_alarm_id(st0.active, alarm_id@));
                Err(owned("Alarm not found"))
            },
            Some(k) => {
                proof {
                    lemma_first_with_id(st0.active, alarm_id@, k as int);
                }
                let mut a = self.active_alarms[k].duplicate();
                a.acknowledged = true;
                a.acknowledged_by = Some(owned(user));
                a.acknowledged_at = Some(now);
                assert(a@ == acknowledged_alarm(st0.active[k as int], user@, now));
                if a.cleared {
                    let h = history_of(&a);
                    self.alarm_history.push(h);
                    assert(histories_view(self.alarm_history@) =~= st0.history.push(history_entry(a@)));
                    self.active_alarms.remove(k);
                    assert(actives_view(self.active_alarms@) =~= st0.active.remove(k as int));
                    assert forall|i: int, j: int|
                        0 <= i < self.state().active.len() && 0 <= j < self.state().active.len() && i != j implies #[trigger] self.state().active[i].definition_id
                        != #[trigger] self.state().active[j].definition_id by {
                        let i0 = if i < k { i } else { i + 1 };
                        let j0 = if j < k { j } else { j + 1 };
                        assert(self.state().active[i] == st0.active[i0]);
                        assert(self.state().active[j] == st0.active[j0]);
                    }
                } else {
                    self.active_alarms.set(k, a);
                    assert(actives_view(self.active_alarms@) =~= st0.active.update(k as int, a@));
                    assert forall|i: int, j: int|
                        0 <= i < self.state().active.len() && 0 <= j < self.state().active.len() && i != j implies #[trigger] self.state().active[i].definition_id
                        != #[trigger] self.state().active[j].definition_id by {
                        assert(self.state().active[i].definition_id == st0.active[i].definition_id);
                        assert(self.state().active[j].definition_id == st0.active[j].definition_id);
                    }
                }
                Ok(())
            },
        }
    }

    /// Copies of all active alarms.
    pub fn get_active_alarms(&self) -> (v: Vec<ActiveAlarm>)
        ensures
            actives_view(v@) == self.state().active,
    {
        let mut v: Vec<ActiveAlarm> = Vec::new();
        let mut i: usize = 0;
        while i < self.active_alarms.len()
            invariant
                i <= self.active_alarms@.len(),
                actives_view(v@) == actives_view(self.active_alarms@).take(i as int),
            decreases self.active_alarms@.len() - i,
        {
            let ghost before = actives_view(v@);
            let a = self.active_alarms[i].duplicate();
            v.push(a);
            assert(actives_view(v@) =~= before.push(a@));
            assert(actives_view(self.active_alarms@).take(i + 1) =~= actives_view(
                self.active_alarms@,
            ).take(i as int).push(self.active_alarms@[i as int]@));
            i = i + 1;
        }
        assert(actives_view(self.active_alarms@).take(i as int) =~= actives_view(self.active_alarms@));
        v
    }

    /// Copies of the active alarms of severity `severity`, in order.
    pub fn get_alarms_by_severity(&self, severity: AlarmSeverity) -> (v: Vec<ActiveAlarm>)
        ensures
            actives_view(v@) == self.state().active.filter(|a: ActiveView| a.severity == severity),
    {
        let ghost all = actives_view(self.active_alarms@);
        let mut v: Vec<ActiveAlarm> = Vec::new();
        let mut i: usize = 0;
        while i < self.active_alarms.len()
            invariant
                all == actives_view(self.active_alarms@),
                i <= self.active_alarms@.len(),
                actives_view(v@) == all.take(i as int).filter(|a: ActiveView| a.severity == severity),
            decreases self.active_alarms@.len() - i,
        {
            proof {
                reveal_with_fuel(Seq::<_>::filter, 1);
                assert(all.take(i + 1).drop_last() =~= all.take(i as int));
            }
            if self.active_alarms[i].severity == severity {
                v.push(self.active_alarms[i].duplicate());
            }
            i = i + 1;
            assert(actives_view(v@) =~= all.take(i as int).filter(|a: ActiveView| a.severity == severity));
        }
        assert(all.take(i as int) =~= all);
        v
    }

    /// The last `limit` history records (all of them if there are fewer), oldest first.
    pub fn get_alarm_history(&self, limit: usize) -> (v: Vec<AlarmHistory>)
        ensures
            histories_view(v@) == self.state().history.skip(
                self.state().history.len() - min_nat(limit as nat, self.state().history.len()),
            ),
    {
        let len = self.alarm_history.len();
        let start = if len > limit { len - limit } else { 0 };
        let ghost all = histories_view(self.alarm_history@);
        let mut v: Vec<AlarmHistory> = Vec::new();
        let mut i: usize = start;
        while i < len
            invariant
                len == self.alarm_history@.len(),
                all == histories_view(self.alarm_history@),
                start <= i <= len,
                histories_view(v@) == all.subrange(start as int, i as int),
            decreases len - i,
        {
            let ghost before = histories_view(v@);
            let h = self.alarm_history[i].duplicate();
            v.push(h);
            assert(histories_view(v@) =~= before.push(h@));
            assert(all.subrange(start as int, i + 1) =~= all.subrange(start as int, i as int).push(
                all[i as int],
            ));
            i = i + 1;
        }
        assert(all.subrange(start as int, len as int) =~= all.skip(start as int));
        v
    }

    /// How many alarms of each severity have been raised since the last reset.
    pub fn get_alarm_counts(&self) -> (c: AlarmCounts)
        ensures
            c == self.state().counts,
    {
        self.alarm_counts
    }

    /// Drops every active alarm and resets the counts; the history is kept.
    pub fn clear_all_alarms(&mut self)
        requires
            old(self).wf(),
        ensures
            final(self).wf(),
            final(self).definitions() == old(self).definitions(),
            final(self).monitoring() == old(self).monitoring(),
            final(self).timers() == old(self).timers(),
            final(self).state() == (MonitorState {
                active: Seq::empty(),
                history: old(self).state().history,
                counts: zero_counts(),
            }),
    {
        self.active_alarms = Vec::new();
        self.alarm_counts = AlarmCounts { critical: 0, high: 0, medium: 0, low: 0, info: 0 };
        assert(actives_view(self.active_alarms@) =~= Seq::<ActiveView>::empty());
    }

    /// Turns evaluation of readings on or off.
    pub fn set_monitoring_enabled(&mut self, enabled: bool)
        requires
            old(self).wf(),
        ensures
            final(self).wf(),
            final(self).monitoring() == enabled,
            final(self).definitions() == old(self).definitions(),
            final(self).timers() == old(self).timers(),
            final(self).state() == old(self).state(),
    {
        self.monitoring_enabled = enabled;
    }

    /// Adds `definition`, replacing any definition with the same identifier.
    pub fn add_alarm_definition(&mut self, definition: AlarmDefinition) -> (res: Result<(), String>)
        requires
            old(self).wf(),
        ensures
            final(self).wf(),
            res is Ok,
            final(self).definitions() == insert_definition(old(self).definitions(), definition@),
            final(self).timers() == if has_definition(old(self).definitions(), definition@.id) {
                old(self).timers().update(
                    definition_index(old(self).definitions(), definition@.id),
                    None,
                )
            } else {
                old(self).timers().push(None)
            },
            final(self).monitoring() == old(self).monitoring(),
            final(self).state() == old(self).state(),
    {
        let ghost defs0 = self.definitions();
        match find_definition(&self.definitions, definition.id.as_str()) {
            Some(k) => {
                proof {
                    lemma_definition_index(defs0, definition@.id, k as int);
                }
                self.definitions.set(k, definition);
                self.condition_since.set(k, None);
                assert(self.definitions() =~= defs0.update(k as int, definition@));
                assert forall|i: int, j: int|
                    0 <= i < self.definitions().len() && 0 <= j < self.definitions().len() && i
                        != j implies #[trigger] self.definitions()[i].id != #[trigger] self.definitions()[j].id by {
                    if i != k && j != k {
                        assert(self.definitions()[i] == defs0[i]);
                        assert(self.definitions()[j] == defs0[j]);
                    } else if i == k {
                        assert(defs0[j].id != defs0[k as int].id);
                    } else {
                        assert(defs0[i].id != defs0[k as int].id);
                    }
                }
            },
            None => {
                self.definitions.push(definition);
                self.condition_since.push(None);
                assert(self.definitions() =~= defs0.push(definition@));
            },
        }
        Ok(())
    }

    /// Removes the definition with identifier `id`.
    pub fn remove_alarm_definition(&mut self, id: &str) -> (res: Result<(), String>)
        requires
            old(self).wf(),
        ensures
            final(self).wf(),
            final(self).monitoring() == old(self).monitoring(),
            final(self).state() == old(self).state(),
            !has_definition(old(self).definitions(), id@) ==> (res matches Err(e) && e@
                == "Definition not found"@) && final(self).definitions() == old(self).definitions(),
            !has_definition(old(self).definitions(), id@) ==> final(self).timers() == old(
                self,
            ).timers(),
            has_definition(old(self).definitions(), id@) ==> res is Ok && final(self).definitions()
                == old(self).definitions().remove(definition_index(old(self).definitions(), id@))
                && final(self).timers() == old(self).timers().remove(
                definition_index(old(self).definitions(), id@),
            ),
    {
        let ghost defs0 = self.definitions();
        match find_definition(&self.definitions, id) {
            None => Err(owned("Definition not found")),
            Some(k) => {
                proof {
                    lemma_definition_index(defs0, id@, k as int);
                }
                self.definitions.remove(k);
                self.condition_since.remove(k);
                assert(self.definitions() =~= defs0.remove(k as int));
                assert forall|i: int, j: int|
                    0 <= i < self.definitions().len() && 0 <= j < self.definitions().len() && i
                        != j implies #[trigger] self.definitions()[i].id != #[trigger] self.definitions()[j].id by {
                    let i0 = if i < k { i } else { i + 1 };
                    let j0 = if j < k { j } else { j + 1 };
                    assert(self.definitions()[i] == defs0[i0]);
                    assert(self.definitions()[j] == defs0[j0]);
                }
                Ok(())
            },
        }
    }

    /// A copy of the definition with identifier `id`, if one is configured.
    pub fn definition(&self, id: &str) -> (r: Option<AlarmDefinition>)
        requires
            self.wf(),
        ensures
            !has_definition(self.definitions(), id@) ==> r is None,
            has_definition(self.definitions(), id@) ==> (r matches Some(d) && d@
                == self.definitions()[definition_index(self.definitions(), id@)]),
    {
        match find_definition(&self.definitions, id) {
            None => None,
            Some(k) => {
                proof {
                    lemma_definition_index(self.definitions(), id@, k as int);
                }
                Some(self.definitions[k].duplicate())
            },
        }
    }
}

/// One step keeps at most one active alarm per definition.
proof fn lemma_step_keeps_one_alarm(
    st: MonitorState,
    d: DefinitionView,
    since: Option<i64>,
    point: Seq<char>,
    value: i64,
    now: i64,
)
    requires
        one_alarm_per_definition(st.active),
    ensures
        one_alarm_per_definition(step(st, d, since, point, value, now).0.active),
{
    let s2 = step(st, d, since, point, value, now).0;
    if d.enabled && d.point_name == point {
        if condition_holds(d.condition, value as int) {
            if !has_active(st.active, d.id) && delay_elapsed(d, since, now) {
                let a = raised_alarm(d, point, value, now);
                assert forall|i: int, j: int|
                    0 <= i < s2.active.len() && 0 <= j < s2.active.len() && i != j implies #[trigger] s2.active[i].definition_id
                    != #[trigger] s2.active[j].definition_id by {
                    if i == st.active.len() {
                        assert(st.active[j].definition_id != d.id);
                    } else if j == st.active.len() {
                        assert(st.active[i].definition_id != d.id);
                    }
                }
            }
        } else if d.auto_reset && has_active(st.active, d.id) {
            let k = first_of_definition(st.active, d.id);
            let w = choose|w: int| 0 <= w < st.active.len() && #[trigger] st.active[w].definition_id == d.id;
            assert(is_first_of_definition(st.active, d.id, k)) by {
                lemma_has_first(st.active, d.id, w);
            }
            let a = st.active[k];
            if !a.cleared {
                let c = cleared_alarm(a, now);
                if !d.require_acknowledgment || c.acknowledged {
                    assert forall|i: int, j: int|
                        0 <= i < s2.active.len() && 0 <= j < s2.active.len() && i != j implies #[trigger] s2.active[i].definition_id
                        != #[trigger] s2.active[j].definition_id by {
                        let i0 = if i < k { i } else { i + 1 };
                        let j0 = if j < k { j } else { j + 1 };
                        assert(s2.active[i] == st.active[i0]);
                        assert(s2.active[j] == st.active[j0]);
                    }
                } else {
                    assert forall|i: int, j: int|
                        0 <= i < s2.active.len() && 0 <= j < s2.active.len() && i != j implies #[trigger] s2.active[i].definition_id
                        != #[trigger] s2.active[j].definition_id by {
                        assert(s2.active[i].definition_id == st.active[i].definition_id);
                        assert(s2.active[j].definition_id == st.active[j].definition_id);
                    }
                }
            }
        }
    }
}

/// If some alarm belongs to `def_id`, a first one exists.
proof fn lemma_has_first(active: Seq<ActiveView>, def_id: Seq<char>, w: int)
    requires
        0 <= w < active.len(),
        active[w].definition_id == def_id,
    ensures
        exists|k: int| is_first_of_definition(active, def_id, k),
    decreases w,
{
    if forall|j: int| 0 <= j < w ==> #[trigger] active[j].definition_id != def_id {
        assert(is_first_of_definition(active, def_id, w));
    } else {
        let v = choose|j: int| 0 <= j < w && #[trigger] active[j].definition_id == def_id;
        lemma_has_first(active, def_id, v);
    }
}


/// `min(a, b)`.
pub open spec fn min_nat(a: nat, b: nat) -> nat {
    if a < b { a } else { b }
}

/// All counts zero.
pub open spec fn zero_counts() -> AlarmCounts {
    AlarmCounts { critical: 0, high: 0, medium: 0, low: 0, info: 0 }
}

/// Some active alarm has identifier `id`.
pub open spec fn has_alarm_id(active: Seq<ActiveView>, id: Seq<char>) -> bool {
    exists|k: int| 0 <= k < active.len() && #[trigger] active[k].id == id
}

/// Alarm `a` acknowledged by `user` at time `now`.
pub open spec fn acknowledged_alarm(a: ActiveView, user: Seq<char>, now: i64) -> ActiveView {
    ActiveView { acknowledged: true, acknowledged_by: Some(user), acknowledged_at: Some(now), ..a }
}

/// Some definition has identifier `id`.
pub open spec fn has_definition(defs: Seq<DefinitionView>, id: Seq<char>) -> bool {
    exists|k: int| 0 <= k < defs.len() && #[trigger] defs[k].id == id
}

/// The position of the definition with identifier `id`.
pub open spec fn definition_index(defs: Seq<DefinitionView>, id: Seq<char>) -> int {
    choose|k: int| 0 <= k < defs.len() && #[trigger] defs[k].id == id
}

/// The definitions after adding `d`: it replaces the definition with its identifier, or is appended.
pub open spec fn insert_definition(defs: Seq<DefinitionView>, d: DefinitionView) -> Seq<DefinitionView> {
    if has_definition(defs, d.id) {
        defs.update(definition_index(defs, d.id), d)
    } else {
        defs.push(d)
    }
}

/// With distinct identifiers, the position of an identifier is unique.
proof fn lemma_definition_index(defs: Seq<DefinitionView>, id: Seq<char>, k: int)
    requires
        distinct_definition_ids(defs),
        0 <= k < defs.len(),
        defs[k].id == id,
    ensures
        has_definition(defs, id),
        definition_index(defs, id) == k,
{
    let c = definition_index(defs, id);
    assert(0 <= c < defs.len() && defs[c].id == id);
    if c != k {
        assert(defs[c].id != defs[k].id);
    }
}

/// The position of the definition with identifier `id`, if any.
fn find_definition(defs: &Vec<AlarmDefinition>, id: &str) -> (r: Option<usize>)
    ensures
        r matches Some(k) ==> k < defs@.len() && definitions_view(defs@)[k as int].id == id@,
        r is None ==> !has_definition(definitions_view(defs@), id@),
{
    let ghost dv = definitions_view(defs@);
    let mut i: usize = 0;
    while i < defs.len()
        invariant
            dv == definitions_view(defs@),
            i <= defs@.len(),
            forall|j: int| 0 <= j < i ==> #[trigger] dv[j].id != id@,
        decreases defs@.len() - i,
    {
        if same_text(defs[i].id.as_str(), id) {
            return Some(i);
        }
        i = i + 1;
    }
    None
}


/// The standard definitions every monitor starts with.
pub open spec fn default_definitions() -> Seq<DefinitionView> {
    seq![
        DefinitionView {
            id: "high_discharge_pressure"@,
            name: "High Discharge Pressure"@,
            alarm_type: AlarmType::HighPressure,
            severity: AlarmSeverity::Critical,
            enabled: true,
            point_name: "discharge_pressure"@,
            condition: AlarmCondition::HighLimit { value: 45000 },
            delay_seconds: 5,
            auto_reset: false,
            require_acknowledgment: true,
            notification_enabled: true,
            email_recipients: seq!["devops@automatacontrols.com"@],
        },
        DefinitionView {
            id: "low_suction_pressure"@,
            name: "Low Suction Pressure"@,
            alarm_type: AlarmType::LowPressure,
            severity: AlarmSeverity::Critical,
            enabled: true,
            point_name: "suction_pressure"@,
            condition: AlarmCondition::LowLimit { value: 2000 },
            delay_seconds: 10,
            auto_reset: false,
            require_acknowledgment: true,
            notification_enabled: true,
            email_recipients: seq!["devops@automatacontrols.com"@],
        },
        DefinitionView {
            id: "high_discharge_temp"@,
            name: "High Discharge Temperature"@,
            alarm_type: AlarmType::HighTemperature,
            severity: AlarmSeverity::Critical,
            enabled: true,
            point_name: "discharge_temp"@,
            condition: AlarmCondition::HighLimit { value: 22500 },
            delay_seconds: 5,
            auto_reset: false,
            require_acknowledgment: true,
            notification_enabled: true,
            email_recipients: seq!["devops@automatacontrols.com"@],
        },
        DefinitionView {
            id: "vibration_high"@,
            name: "High Vibration"@,
            alarm_type: AlarmType::VibrationHigh,
            severity: AlarmSeverity::High,
            enabled: true,
            point_name: "vibration_velocity"@,
            condition: AlarmCondition::HighLimit { value: 710 },
            delay_seconds: 30,
            auto_reset: true,
            require_acknowledgment: true,
            notification_enabled: true,
            email_recipients: seq!["devops@automatacontrols.com"@],
        },
        DefinitionView {
            id: "low_superheat"@,
            name: "Low Superheat"@,
            alarm_type: AlarmType::LowTemperature,
            severity: AlarmSeverity::High,
            enabled: true,
            point_name: "superheat"@,
            condition: AlarmCondition::LowLimit { value: 500 },
            delay_seconds: 60,
            auto_reset: true,
            require_acknowledgment: false,
            notification_enabled: true,
            email_recipients: seq!["devops@automatacontrols.com"@],
        },
        DefinitionView {
            id: "high_runtime"@,
            name: "Extended Runtime"@,
            alarm_type: AlarmType::MaintenanceDue,
            severity: AlarmSeverity::Medium,
            enabled: true,
            point_name: "compressor_runtime"@,
            condition: AlarmCondition::HighLimit { value: 8640000 },
            delay_seconds: 0,
            auto_reset: false,
            require_acknowledgment: true,
            notification_enabled: false,
            email_recipients: Seq::empty(),
        },
        DefinitionView {
            id: "efficiency_low"@,
            name: "Low Efficiency"@,
            alarm_type: AlarmType::EquipmentFault,
            severity: AlarmSeverity::Low,
            enabled: true,
            point_name: "efficiency_score"@,
            condition: AlarmCondition::LowLimit { value: 7000 },
            delay_seconds: 300,
            auto_reset: true,
            require_acknowledgment: false,
            notification_enabled: false,
            email_recipients: Seq::empty(),
        },
    ]
}

/// A definition with the standard recipient list (`devops@automatacontrols.com`) or none.
fn standard_definition(
    id: &str,
    name: &str,
    alarm_type: AlarmType,
    severity: AlarmSeverity,
    point_name: &str,
    condition: AlarmCondition,
    delay_seconds: u32,
    auto_reset: bool,
    require_acknowledgment: bool,
    notification_enabled: bool,
    notify_devops: bool,
) -> (d: AlarmDefinition)
    ensures
        d@ == (DefinitionView {
            id: id@,
            name: name@,
            alarm_type,
            severity,
            enabled: true,
            point_name: point_name@,
            condition,
            delay_seconds,
            auto_reset,
            require_acknowledgment,
            notification_enabled,
            email_recipients: if notify_devops {
                seq!["devops@automatacontrols.com"@]
            } else {
                Seq::empty()
            },
        }),
{
    let mut recipients: Vec<String> = Vec::new();
    if notify_devops {
        recipients.push(owned("devops@automatacontrols.com"));
    }
    let d = AlarmDefinition {
        id: owned(id),
        name: owned(name),
        alarm_type,
        severity,
        enabled: true,
        point_name: owned(point_name),
        condition,
        delay_seconds,
        auto_reset,
        require_acknowledgment,
        notification_enabled,
        email_recipients: recipients,
    };
    assert(d@.email_recipients =~= (if notify_devops {
        seq!["devops@automatacontrols.com"@]
    } else {
        Seq::<Seq<char>>::empty()
    }));
    d
}

/// The standard definition identifiers are pairwise distinct.
proof fn lemma_default_ids_distinct()
    ensures
        distinct_definition_ids(default_definitions()),
{
    let ds = default_definitions();
    reveal_strlit("high_discharge_pressure");
    reveal_strlit("low_suction_pressure");
    reveal_strlit("high_discharge_temp");
    reveal_strlit("vibration_high");
    reveal_strlit("low_superheat");
    reveal_strlit("high_runtime");
    reveal_strlit("efficiency_low");
    assert(ds[0].id.len() == 23);
    assert(ds[1].id.len() == 20);
    assert(ds[2].id.len() == 19);
    assert(ds[3].id.len() == 14);
    assert(ds[4].id.len() == 13);
    assert(ds[5].id.len() == 12);
    assert(ds[6].id.len() == 14);
    assert(ds[3].id[0] != ds[6].id[0]);
    assert forall|i: int, j: int|
        0 <= i < ds.len() && 0 <= j < ds.len() && i != j implies #[trigger] ds[i].id != #[trigger] ds[j].id by {
        if (i == 3 && j == 6) || (i == 6 && j == 3) {
            assert(ds[i].id[0] != ds[j].id[0]);
        } else {
            assert(ds[i].id.len() != ds[j].id.len());
        }
    }
}

/// The standard definitions, built.
fn default_definition_list() -> (v: Vec<AlarmDefinition>)
    ensures
        definitions_view(v@) == default_definitions(),
        distinct_definition_ids(definitions_view(v@)),
{
    let mut v: Vec<AlarmDefinition> = Vec::new();
    let d = standard_definition(
        "high_discharge_pressure",
        "High Discharge Pressure",
        AlarmType::HighPressure,
        AlarmSeverity::Critical,
        "discharge_pressure",
        AlarmCondition::HighLimit { value: 45000 },
        5,
        false,
        true,
        true,
        true,
    );
    v.push(d);
    let d = standard_definition(
        "low_suction_pressure",
        "Low Suction Pressure",
        AlarmType::LowPressure,
        AlarmSeverity::Critical,
        "suction_pressure",
        AlarmCondition::LowLimit { value: 2000 },
        10,
        false,
        true,
        true,
        true,
    );
    v.push(d);
    let d = standard_definition(
        "high_discharge_temp",
        "High Discharge Temperature",
        AlarmType::HighTemperature,
        AlarmSeverity::Critical,
        "discharge_temp",
        AlarmCondition::HighLimit { value: 22500 },
        5,
        false,
        true,
        true,
        true,
    );
    v.push(d);
    let d = standard_definition(
        "vibration_high",
        "High Vibration",
        AlarmType::VibrationHigh,
        AlarmSeverity::High,
        "vibration_velocity",
        AlarmCondition::HighLimit { value: 710 },
        30,
        true,
        true,
        true,
        true,
    );
    v.push(d);
    let d = standard_definition(
        "low_superheat",
        "Low Superheat",
        AlarmType::LowTemperature,
        AlarmSeverity::High,
        "superheat",
        AlarmCondition::LowLimit { value: 500 },
        60,
        true,
        false,
        true,
        true,
    );
    v.push(d);
    let d = standard_definition(
        "high_runtime",
        "Extended Runtime",
        AlarmType::MaintenanceDue,
        AlarmSeverity::Medium,
        "compressor_runtime",
        AlarmCondition::HighLimit { value: 8640000 },
        0,
        false,
        true,
        false,
        false,
    );
    v.push(d);
    let d = standard_definition(
        "efficiency_low",
        "Low Efficiency",
        AlarmType::EquipmentFault,
        AlarmSeverity::Low,
        "efficiency_score",
        AlarmCondition::LowLimit { value: 7000 },
        300,
        true,
        false,
        false,
        false,
    );
    v.push(d);
    assert(definitions_view(v@) =~= default_definitions());
    proof {
        lemma_default_ids_distinct();
    }
    proof {
        reveal_strlit("high_discharge_pressure");
        reveal_strlit("low_suction_pressure");
        reveal_strlit("high_discharge_temp");
        reveal_strlit("vibration_high");
        reveal_strlit("low_superheat");
        reveal_strlit("high_runtime");
        reveal_strlit("efficiency_low");
    }
    v
}


/// Counts after raising the alarms `t`, in order.
pub open spec fn bump_all(c: AlarmCounts, t: Seq<ActiveView>) -> AlarmCounts
    decreases t.len(),
{
    if t.len() == 0 {
        c
    } else {
        bump(bump_all(c, t.drop_last()), t.last().severity)
    }
}

/// Every enabled definition in `defs` for `point` whose condition `value` meets either has
/// an active alarm or a running timer whose delay has not run out at `now`.
pub open spec fn covered(
    active: Seq<ActiveView>,
    timers: Seq<Option<i64>>,
    defs: Seq<DefinitionView>,
    point: Seq<char>,
    value: i64,
    now: i64,
) -> bool {
    forall|m: int|
        0 <= m < defs.len() && (#[trigger] defs[m]).enabled && defs[m].point_name == point
            && condition_holds(defs[m].condition, value as int) ==> has_active(active, defs[m].id)
            || (timers[m] is Some && !delay_elapsed(defs[m], timers[m], now))
}

/// A step for another definition keeps the alarm of definition `id`.
proof fn lemma_step_keeps_active(
    st: MonitorState,
    d: DefinitionView,
    since: Option<i64>,
    point: Seq<char>,
    value: i64,
    now: i64,
    id: Seq<char>,
)
    requires
        has_active(st.active, id),
        d.id != id,
    ensures
        has_active(step(st, d, since, point, value, now).0.active, id),
{
    let s2 = step(st, d, since, point, value, now).0;
    let w = choose|w: int| 0 <= w < st.active.len() && #[trigger] st.active[w].definition_id == id;
    if d.enabled && d.point_name == point {
        if condition_holds(d.condition, value as int) {
            if !has_active(st.active, d.id) && delay_elapsed(d, since, now) {
                assert(s2.active[w] == st.active[w]);
            }
        } else if d.auto_reset && has_active(st.active, d.id) {
            let k = first_of_definition(st.active, d.id);
            let w0 = choose|w: int| 0 <= w < st.active.len() && #[trigger] st.active[w].definition_id == d.id;
            assert(is_first_of_definition(st.active, d.id, k)) by {
                lemma_has_first(st.active, d.id, w0);
            }
            let a = st.active[k];
            if !a.cleared {
                let c = cleared_alarm(a, now);
                assert(w != k);
                if !d.require_acknowledgment || c.acknowledged {
                    let w2 = if w < k { w } else { w - 1 };
                    assert(s2.active[w2] == st.active[w]);
                } else {
                    assert(s2.active[w].definition_id == st.active[w].definition_id);
                }
            }
        }
    }
}

/// Running definitions none of which is `id` keeps the alarm of definition `id`.
proof fn lemma_run_keeps_active(
    st: MonitorState,
    defs: Seq<DefinitionView>,
    timers: Seq<Option<i64>>,
    point: Seq<char>,
    value: i64,
    now: i64,
    id: Seq<char>,
)
    requires
        has_active(st.active, id),
        forall|m: int| 0 <= m < defs.len() ==> (#[trigger] defs[m]).id != id,
    ensures
        has_active(run(st, defs, timers, point, value, now).0.active, id),
    decreases defs.len(),
{
    if defs.len() > 0 {
        let init = defs.drop_last();
        assert forall|m: int| 0 <= m < init.len() implies (#[trigger] init[m]).id != id by {
            assert(init[m] == defs[m]);
        }
        lemma_run_keeps_active(st, init, timers.drop_last(), point, value, now, id);
        let s1 = run(st, init, timers.drop_last(), point, value, now).0;
        assert(defs[defs.len() - 1].id != id);
        lemma_step_keeps_active(s1, defs.last(), timers.last(), point, value, now, id);
    }
}

/// A run gives one timer per definition.
proof fn lemma_run_timers_len(
    st: MonitorState,
    defs: Seq<DefinitionView>,
    timers: Seq<Option<i64>>,
    point: Seq<char>,
    value: i64,
    now: i64,
)
    ensures
        run(st, defs, timers, point, value, now).2.len() == defs.len(),
    decreases defs.len(),
{
    if defs.len() > 0 {
        lemma_run_timers_len(st, defs.drop_last(), timers.drop_last(), point, value, now);
    }
}

/// Identifiers of a prefix of distinct definitions are distinct too.
proof fn lemma_distinct_init(defs: Seq<DefinitionView>)
    requires
        distinct_definition_ids(defs),
        defs.len() > 0,
    ensures
        distinct_definition_ids(defs.drop_last()),
        forall|m: int| 0 <= m < defs.len() - 1 ==> (#[trigger] defs.drop_last()[m]).id != defs.last().id,
{
    let init = defs.drop_last();
    assert forall|i: int, j: int|
        0 <= i < init.len() && 0 <= j < init.len() && i != j implies #[trigger] init[i].id
        != #[trigger] init[j].id by {
        assert(init[i] == defs[i] && init[j] == defs[j]);
    }
    assert forall|m: int| 0 <= m < defs.len() - 1 implies (#[trigger] defs.drop_last()[m]).id != defs.last().id by {
        assert(init[m] == defs[m]);
        assert(defs[m].id != defs[defs.len() - 1].id);
    }
}

/// After a reading, every definition whose condition it meets has an alarm or a timer
/// whose delay has not run out.
proof fn lemma_run_covers(
    st: MonitorState,
    defs: Seq<DefinitionView>,
    timers: Seq<Option<i64>>,
    point: Seq<char>,
    value: i64,
    now: i64,
)
    requires
        distinct_definition_ids(defs),
    ensures
        ({
            let (s, t, tm) = run(st, defs, timers, point, value, now);
            covered(s.active, tm, defs, point, value, now)
        }),
    decreases defs.len(),
{
    if defs.len() > 0 {
        let init = defs.drop_last();
        lemma_distinct_init(defs);
        lemma_run_covers(st, init, timers.drop_last(), point, value, now);
        lemma_run_timers_len(st, init, timers.drop_last(), point, value, now);
        let (s1, t1, m1) = run(st, init, timers.drop_last(), point, value, now);
        let d = defs.last();
        let (s2, t2, m2) = step(s1, d, timers.last(), point, value, now);
        let tm = m1.push(m2);
        assert forall|m: int|
            0 <= m < defs.len() && (#[trigger] defs[m]).enabled && defs[m].point_name == point
                && condition_holds(defs[m].condition, value as int) implies has_active(s2.active, defs[m].id)
                || (tm[m] is Some && !delay_elapsed(defs[m], tm[m], now)) by {
            if m < init.len() {
                assert(init[m] == defs[m]);
                assert(tm[m] == m1[m]);
                if has_active(s1.active, defs[m].id) {
                    assert(init[m].id != d.id);
                    lemma_step_keeps_active(s1, d, timers.last(), point, value, now, defs[m].id);
                }
            } else {
                assert(defs[m] == d);
                assert(tm[m] == m2);
                if !has_active(s1.active, d.id) && delay_elapsed(d, timers.last(), now) {
                    assert(s2.active[s1.active.len() as int].definition_id == d.id);
                }
            }
        }
    }
}

/// Running definitions over a state that already covers them, at the same time or an
/// earlier one, raises nothing.
proof fn lemma_run_on_covered(
    st: MonitorState,
    defs: Seq<DefinitionView>,
    timers: Seq<Option<i64>>,
    point: Seq<char>,
    value: i64,
    now: i64,
)
    requires
        distinct_definition_ids(defs),
        timers.len() == defs.len(),
        covered(st.active, timers, defs, point, value, now),
    ensures
        run(st, defs, timers, point, value, now).1 == Seq::<ActiveView>::empty(),
    decreases defs.len(),
{
    if defs.len() > 0 {
        let init = defs.drop_last();
        let ti = timers.drop_last();
        lemma_distinct_init(defs);
        assert forall|m: int|
            0 <= m < init.len() && (#[trigger] init[m]).enabled && init[m].point_name == point
                && condition_holds(init[m].condition, value as int) implies has_active(st.active, init[m].id)
                || (ti[m] is Some && !delay_elapsed(init[m], ti[m], now)) by {
            assert(init[m] == defs[m]);
            assert(ti[m] == timers[m]);
        }
        lemma_run_on_covered(st, init, ti, point, value, now);
        let s1 = run(st, init, ti, point, value, now).0;
        let d = defs.last();
        let last = defs.len() - 1;
        assert(defs[last] == d);
        if d.enabled && d.point_name == point && condition_holds(d.condition, value as int) {
            if has_active(st.active, d.id) {
                lemma_run_keeps_active(st, init, ti, point, value, now, d.id);
            }
        }
        assert(run(st, defs, timers, point, value, now).1 =~= Seq::<ActiveView>::empty());
    }
}

/// Law: a reading raises each alarm at most once. Evaluating the same reading of the
/// same point again, with no time passed since, raises no alarm.
pub proof fn law_repeated_reading_raises_nothing(
    st: MonitorState,
    defs: Seq<DefinitionView>,
    timers: Seq<Option<i64>>,
    point: Seq<char>,
    value: i64,
    first: i64,
    second: i64,
)
    requires
        distinct_definition_ids(defs),
        second <= first,
    ensures
        ({
            let (s1, t1, m1) = run(st, defs, timers, point, value, first);
            run(s1, defs, m1, point, value, second).1 == Seq::<ActiveView>::empty()
        }),
{
    lemma_run_covers(st, defs, timers, point, value, first);
    lemma_run_timers_len(st, defs, timers, point, value, first);
    let (s1, t1, m1) = run(st, defs, timers, point, value, first);
    assert forall|m: int|
        0 <= m < defs.len() && (#[trigger] defs[m]).enabled && defs[m].point_name == point
            && condition_holds(defs[m].condition, value as int) implies has_active(s1.active, defs[m].id)
            || (m1[m] is Some && !delay_elapsed(defs[m], m1[m], second)) by {}
    lemma_run_on_covered(s1, defs, m1, point, value, second);
}

/// Law: no alarm is raised before its delay. Every alarm a reading raises belongs to an
/// enabled definition for that point whose condition the reading meets, and which has
/// held for the definition's whole delay: since the start of its timer, or since this
/// reading when no timer runs (so a definition with a delay and no running timer raises
/// nothing).
pub proof fn law_alarm_waits_for_delay(
    st: MonitorState,
    defs: Seq<DefinitionView>,
    timers: Seq<Option<i64>>,
    point: Seq<char>,
    value: i64,
    now: i64,
)
    requires
        timers.len() == defs.len(),
    ensures
        ({
            let t = run(st, defs, timers, point, value, now).1;
            forall|k: int|
                #![trigger t[k]]
                0 <= k < t.len() ==> exists|m: int|
                    0 <= m < defs.len() && (#[trigger] defs[m]).id == t[k].definition_id
                        && defs[m].enabled && defs[m].point_name == point && condition_holds(
                        defs[m].condition,
                        value as int,
                    ) && delay_elapsed(defs[m], timers[m], now)
        }),
    decreases defs.len(),
{
    if defs.len() > 0 {
        let init = defs.drop_last();
        let ti = timers.drop_last();
        law_alarm_waits_for_delay(st, init, ti, point, value, now);
        let (s1, t1, m1) = run(st, init, ti, point, value, now);
        let d = defs.last();
        let last = defs.len() - 1;
        let (s2, t2, m2) = step(s1, d, timers.last(), point, value, now);
        let t = t1 + t2;
        assert forall|k: int| #![trigger t[k]] 0 <= k < t.len() implies exists|m: int|
            0 <= m < defs.len() && (#[trigger] defs[m]).id == t[k].definition_id
                && defs[m].enabled && defs[m].point_name == point && condition_holds(
                defs[m].condition,
                value as int,
            ) && delay_elapsed(defs[m], timers[m], now) by {
            if k < t1.len() {
                let m = choose|m: int|
                    0 <= m < init.len() && (#[trigger] init[m]).id == t1[k].definition_id
                        && init[m].enabled && init[m].point_name == point && condition_holds(
                        init[m].condition,
                        value as int,
                    ) && delay_elapsed(init[m], ti[m], now);
                assert(init[m] == defs[m]);
                assert(ti[m] == timers[m]);
                assert(t[k] == t1[k]);
            } else {
                assert(t[k] == t2[k - t1.len()]);
                assert(defs[last] == d);
                assert(timers[last] == timers.last());
                assert(t2.len() > 0);
                assert(t[k].definition_id == d.id);
                assert(defs[last].id == t[k].definition_id);
            }
        }
    }
}

/// Law: a timer runs only while the condition holds, and keeps its start. After a reading,
/// each enabled definition for that point whose condition the reading does not meet has no
/// running timer, and a running timer of one whose condition it meets started when the
/// timer passed in did, or at this reading. The timers of other definitions do not change.
pub proof fn law_timer_runs_while_condition_holds(
    st: MonitorState,
    defs: Seq<DefinitionView>,
    timers: Seq<Option<i64>>,
    point: Seq<char>,
    value: i64,
    now: i64,
)
    requires
        timers.len() == defs.len(),
    ensures
        ({
            let tm = run(st, defs, timers, point, value, now).2;
            &&& tm.len() == defs.len()
            &&& forall|m: int|
                0 <= m < defs.len() ==> {
                    if (#[trigger] defs[m]).enabled && defs[m].point_name == point {
                        (!condition_holds(defs[m].condition, value as int) ==> tm[m] is None)
                            && (tm[m] matches Some(s) ==> s == timer_start(timers[m], now))
                    } else {
                        tm[m] == timers[m]
                    }
                }
        }),
    decreases defs.len(),
{
    lemma_run_timers_len(st, defs, timers, point, value, now);
    if defs.len() > 0 {
        let init = defs.drop_last();
        let ti = timers.drop_last();
        law_timer_runs_while_condition_holds(st, init, ti, point, value, now);
        let (s1, t1, m1) = run(st, init, ti, point, value, now);
        let d = defs.last();
        let (s2, t2, m2) = step(s1, d, timers.last(), point, value, now);
        let tm = m1.push(m2);
        assert forall|m: int| 0 <= m < defs.len() implies {
            if (#[trigger] defs[m]).enabled && defs[m].point_name == point {
                (!condition_holds(defs[m].condition, value as int) ==> tm[m] is None)
                    && (tm[m] matches Some(s) ==> s == timer_start(timers[m], now))
            } else {
                tm[m] == timers[m]
            }
        } by {
            if m < init.len() {
                assert(init[m] == defs[m]);
                assert(ti[m] == timers[m]);
                assert(tm[m] == m1[m]);
            } else {
                assert(defs[m] == d);
                assert(tm[m] == m2);
            }
        }
    }
}

/// Law: the alarm history only grows; evaluating a reading never drops or rewrites a record.
pub proof fn law_history_only_grows(
    st: MonitorState,
    defs: Seq<DefinitionView>,
    timers: Seq<Option<i64>>,
    point: Seq<char>,
    value: i64,
    now: i64,
)
    ensures
        st.history.is_prefix_of(run(st, defs, timers, point, value, now).0.history),
    decreases defs.len(),
{
    if defs.len() > 0 {
        law_history_only_grows(st, defs.drop_last(), timers.drop_last(), point, value, now);
        let s1 = run(st, defs.drop_last(), timers.drop_last(), point, value, now).0;
        let s2 = run(st, defs, timers, point, value, now).0;
        assert(s1.history.is_prefix_of(s2.history));
    }
}

/// Law: the per-severity counts grow by exactly the alarms a reading raises.
pub proof fn law_counts_follow_raised_alarms(
    st: MonitorState,
    defs: Seq<DefinitionView>,
    timers: Seq<Option<i64>>,
    point: Seq<char>,
    value: i64,
    now: i64,
)
    ensures
        run(st, defs, timers, point, value, now).0.counts == bump_all(
            st.counts,
            run(st, defs, timers, point, value, now).1,
        ),
    decreases defs.len(),
{
    if defs.len() > 0 {
        law_counts_follow_raised_alarms(st, defs.drop_last(), timers.drop_last(), point, value, now);
        let (s1, t1, m1) = run(st, defs.drop_last(), timers.drop_last(), point, value, now);
        let (s2, t2, m2) = step(s1, defs.last(), timers.last(), point, value, now);
        if t2.len() == 0 {
            assert(t1 + t2 =~= t1);
        } else {
            assert((t1 + t2).drop_last() =~= t1);
        }
    }
}

/// Law: no definition ever has two active alarms at once.
pub proof fn law_one_alarm_per_definition(
    st: MonitorState,
    defs: Seq<DefinitionView>,
    timers: Seq<Option<i64>>,
    point: Seq<char>,
    value: i64,
    now: i64,
)
    requires
        one_alarm_per_definition(st.active),
    ensures
        one_alarm_per_definition(run(st, defs, timers, point, value, now).0.active),
    decreases defs.len(),
{
    if defs.len() > 0 {
        law_one_alarm_per_definition(st, defs.drop_last(), timers.drop_last(), point, value, now);
        lemma_step_keeps_one_alarm(
            run(st, defs.drop_last(), timers.drop_last(), point, value, now).0,
            defs.last(),
            timers.last(),
            point,
            value,
            now,
        );
    }
}

/// Law: what each alarm condition means for a reading `v` (hundredths). A high limit
/// holds above it, a low limit below it; a range holds outside it, below its minimum as
/// well as above its maximum; a deviation holds when the reading is farther than the
/// allowed deviation from zero on either side; the rate-of-change, boolean and equipment
/// conditions never hold for a point reading.
pub proof fn law_condition_meaning(v: int, a: i64, b: i64, r: i64, flag: bool, code: u32)
    ensures
        condition_holds(AlarmCondition::HighLimit { value: a }, v) <==> v > a,
        condition_holds(AlarmCondition::LowLimit { value: a }, v) <==> v < a,
        condition_holds(AlarmCondition::OutOfRange { min: a, max: b }, v) <==> (v < a || v > b),
        v < a ==> condition_holds(AlarmCondition::OutOfRange { min: a, max: b }, v),
        v > b ==> condition_holds(AlarmCondition::OutOfRange { min: a, max: b }, v),
        a <= v <= b ==> !condition_holds(AlarmCondition::OutOfRange { min: a, max: b }, v),
        condition_holds(AlarmCondition::Deviation { from_setpoint: a }, v) <==> (v > a || v < -a),
        !condition_holds(AlarmCondition::RateOfChange { max_change_per_min: r }, v),
        !condition_holds(AlarmCondition::Boolean { expected: flag }, v),
        !condition_holds(AlarmCondition::Equipment { fault_code: code }, v),
{
}

/// Law: an enabled definition whose condition a reading meets raises its alarm on that
/// reading when it has no delay and no active alarm. In particular a reading below the
/// minimum of an out-of-range condition raises it.
pub proof fn law_condition_met_without_delay_raises(
    st: MonitorState,
    d: DefinitionView,
    since: Option<i64>,
    point: Seq<char>,
    value: i64,
    now: i64,
)
    requires
        d.enabled,
        d.point_name == point,
        d.delay_seconds == 0,
        !has_active(st.active, d.id),
        since is None || since == Some(now),
        d.condition matches AlarmCondition::OutOfRange { min, max } ==> (value < min || value > max),
        !(d.condition is OutOfRange) ==> condition_holds(d.condition, value as int),
    ensures
        step(st, d, since, point, value, now).1 == seq![raised_alarm(d, point, value, now)],
        step(st, d, since, point, value, now).0.active == st.active.push(raised_alarm(d, point, value, now)),
{
}

/// The symbol that marks an alarm of severity `sev` in the log.
pub open spec fn severity_icon_text(sev: AlarmSeverity) -> Seq<char> {
    match sev {
        AlarmSeverity::Critical => "🚨"@,
        AlarmSeverity::High => "⚠️"@,
        AlarmSeverity::Medium => "⚡"@,
        AlarmSeverity::Low => "ℹ️"@,
        AlarmSeverity::Info => "📋"@,
    }
}

/// The symbol of a severity.
pub fn severity_icon(sev: AlarmSeverity) -> (s: &'static str)
    ensures
        s@ == severity_icon_text(sev),
{
    match sev {
        AlarmSeverity::Critical => "🚨",
        AlarmSeverity::High => "⚠️",
        AlarmSeverity::Medium => "⚡",
        AlarmSeverity::Low => "ℹ️",
        AlarmSeverity::Info => "📋",
    }
}

/// The log line of a raised alarm: `"{icon} ALARM: {name} - {message}"`.
pub fn alarm_log_line(alarm: &ActiveAlarm) -> (l: String)
    ensures
        l@ == severity_icon_text(alarm.severity) + " ALARM: "@ + alarm.name@ + " - "@ + alarm.message@,
{
    let mut l = owned(severity_icon(alarm.severity));
    append_str(&mut l, " ALARM: ");
    append_str(&mut l, alarm.name.as_str());
    append_str(&mut l, " - ");
    append_str(&mut l, alarm.message.as_str());
    l
}

/// The line announcing the notification of a raised alarm.
pub fn notification_line(alarm: &ActiveAlarm) -> (l: String)
    ensures
        l@ == "📧 Sending alarm notification for: "@ + alarm.name@,
{
    let mut l = owned("📧 Sending alarm notification for: ");
    append_str(&mut l, alarm.name.as_str());
    l
}

} // verus!
