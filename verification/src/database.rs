//! The metrics database: the SQL the service runs, the guard on ad-hoc queries, and the
//! retention policy.
use vstd::prelude::*;
use crate::outside::{chrono_format, chrono_rfc3339, chrono_time_in_range, format_utc, rfc3339};
use crate::text::{
    all_digits, append_decimal, append_str, decimal, digit_char, digits_value, has_prefix, owned,
    parse_unsigned, parsed_unsigned, same_text, starts_with, to_uppercase, trim, trimmed,
    uppercase,
};

verus! {

/// The retention policy of the metrics database.
#[derive(Debug, Clone)]
pub struct RetentionConfig {
    pub enabled: bool,
    pub retention_days: u32,
    pub archive_enabled: bool,
    pub archive_path: String,
}

/// The `(key, value)` rows of the system configuration table, as values.
pub open spec fn rows_view(rows: Seq<(String, String)>) -> Seq<(Seq<char>, Seq<char>)> {
    rows.map_values(|r: (String, String)| (r.0@, r.1@))
}

/// The value stored under `key` among `rows`: the last row with that key, if any.
pub open spec fn stored_value(rows: Seq<(Seq<char>, Seq<char>)>, key: Seq<char>) -> Option<Seq<char>>
    decreases rows.len(),
{
    if rows.len() == 0 {
        None
    } else if rows.last().0 == key {
        Some(rows.last().1)
    } else {
        stored_value(rows.drop_last(), key)
    }
}

/// A stored flag: `true` or `false`; anything else, or nothing, gives `default`.
pub open spec fn bool_setting(v: Option<Seq<char>>, default: bool) -> bool {
    match v {
        Some(t) => if t == "true"@ {
            true
        } else if t == "false"@ {
            false
        } else {
            default
        },
        None => default,
    }
}

/// A stored day count as `u32::from_str` reads it; anything else, or nothing, gives `default`.
pub open spec fn days_setting(v: Option<Seq<char>>, default: u32) -> u32 {
    match v {
        Some(t) => match parsed_unsigned(t, u32::MAX as nat) {
            Some(n) => n as u32,
            None => default,
        },
        None => default,
    }
}

/// A stored text, or `default` when nothing is stored.
pub open spec fn text_setting(v: Option<Seq<char>>, default: Seq<char>) -> Seq<char> {
    match v {
        Some(t) => t,
        None => default,
    }
}

/// The value stored under `key`, the last one if there are several.
fn find_stored(rows: &Vec<(String, String)>, key: &str) -> (r: Option<String>)
    ensures
        r matches Some(v) ==> stored_value(rows_view(rows@), key@) == Some(v@),
        r is None ==> stored_value(rows_view(rows@), key@) is None,
{
    let ghost rv = rows_view(rows@);
    let mut found: Option<String> = None;
    let mut i: usize = 0;
    assert(rv.take(0) =~= Seq::<(Seq<char>, Seq<char>)>::empty());
    while i < rows.len()
        invariant
            rv == rows_view(rows@),
            i <= rows@.len(),
            found matches Some(v) ==> stored_value(rv.take(i as int), key@) == Some(v@),
            found is None ==> stored_value(rv.take(i as int), key@) is None,
        decreases rows@.len() - i,
    {
        assert(rv.take(i + 1).drop_last() =~= rv.take(i as int));
        assert(rv.take(i + 1).last() == (rows@[i as int].0@, rows@[i as int].1@));
        if same_text(rows[i].0.as_str(), key) {
            found = Some(rows[i].1.clone());
        }
        i = i + 1;
    }
    assert(rv.take(rows@.len() as int) =~= rv);
    found
}

/// A stored flag, or `default`.
fn read_bool(v: Option<String>, default: bool) -> (b: bool)
    ensures
        b == bool_setting(match v {
            Some(t) => Some(t@),
            None => None,
        }, default),
{
    match v {
        Some(t) => if same_text(t.as_str(), "true") {
            true
        } else if same_text(t.as_str(), "false") {
            false
        } else {
            default
        },
        None => default,
    }
}

/// The retention policy as stored in the system configuration rows (`key`, `value`):
/// each of `retention_enabled`, `retention_days`, `archive_enabled` and `archive_path`
/// that is stored with a readable value is taken from there; the others keep their
/// defaults: retention and archiving on, 30 days, archives under `/var/backups/nexus`.
pub fn get_retention_config(rows: &Vec<(String, String)>) -> (c: RetentionConfig)
    ensures
        c.enabled == bool_setting(stored_value(rows_view(rows@), "retention_enabled"@), true),
        c.retention_days == days_setting(stored_value(rows_view(rows@), "retention_days"@), 30),
        c.archive_enabled == bool_setting(stored_value(rows_view(rows@), "archive_enabled"@), true),
        c.archive_path@ == text_setting(
            stored_value(rows_view(rows@), "archive_path"@),
            "/var/backups/nexus"@,
        ),
{
    let enabled = read_bool(find_stored(rows, "retention_enabled"), true);
    let archive_enabled = read_bool(find_stored(rows, "archive_enabled"), true);
    let retention_days: u32 = match find_stored(rows, "retention_days") {
        Some(t) => match parse_unsigned(t.as_str(), 4294967295u64) {
            Some(n) => n as u32,
            None => 30,
        },
        None => 30,
    };
    let archive_path = match find_stored(rows, "archive_path") {
        Some(t) => t,
        None => owned("/var/backups/nexus"),
    };
    RetentionConfig { enabled, retention_days, archive_enabled, archive_path }
}

/// The rows that storing `config` writes, key by key.
pub open spec fn retention_rows(config: RetentionConfig) -> Seq<(Seq<char>, Seq<char>)> {
    seq![
        ("retention_enabled"@, bool_text(config.enabled)),
        ("retention_days"@, decimal(config.retention_days as nat)),
        ("archive_enabled"@, bool_text(config.archive_enabled)),
        ("archive_path"@, config.archive_path@),
    ]
}

/// A number's decimal text reads back as the number.
pub proof fn lemma_decimal_reads_back(n: nat)
    ensures
        decimal(n).len() > 0,
        all_digits(decimal(n)),
        digits_value(decimal(n)) == n,
        decimal(n)[0] != '+',
    decreases n,
{
    let d = (n % 10) as int;
    assert(((digit_char(d) as u32) - 48) as nat == d && '0' <= digit_char(d) <= '9') by {
        if d == 0 {} else if d == 1 {} else if d == 2 {} else if d == 3 {} else if d == 4 {}
        else if d == 5 {} else if d == 6 {} else if d == 7 {} else if d == 8 {} else {}
    }
    if n < 10 {
        let s = decimal(n);
        assert(s.drop_last() =~= Seq::<char>::empty());
        assert(s.last() == digit_char(d));
        assert(digits_value(s) == digits_value(s.drop_last()) * 10 + ((s.last() as u32) - 48) as nat);
        assert(digits_value(s.drop_last()) == 0);
    } else {
        lemma_decimal_reads_back(n / 10);
        let s = decimal(n);
        assert(s.drop_last() =~= decimal(n / 10));
        assert(s.last() == digit_char(d));
        assert(s[0] == decimal(n / 10)[0]);
        assert(digits_value(s) == digits_value(s.drop_last()) * 10 + ((s.last() as u32) - 48) as nat);
        assert(n == (n / 10) * 10 + n % 10);
    }
}

/// The value stored under `key` is `v` when some row holds `(key, v)` and every row with
/// that key holds `v`.
pub proof fn lemma_stored_value(rows: Seq<(Seq<char>, Seq<char>)>, key: Seq<char>, v: Seq<char>)
    requires
        rows.contains((key, v)),
        forall|i: int| 0 <= i < rows.len() && (#[trigger] rows[i]).0 == key ==> rows[i].1 == v,
    ensures
        stored_value(rows, key) == Some(v),
    decreases rows.len(),
{
    if rows.last().0 != key {
        let w = choose|i: int| 0 <= i < rows.len() && rows[i] == (key, v);
        let init = rows.drop_last();
        assert(w != rows.len() - 1);
        assert(init[w] == rows[w]);
        assert forall|i: int| 0 <= i < init.len() && (#[trigger] init[i]).0 == key implies init[i].1 == v by {
            assert(init[i] == rows[i]);
        }
        lemma_stored_value(init, key, v);
    }
}

/// Law: a stored retention policy reads back as it was stored. Whatever order the
/// system configuration table gives back the rows that storing `config` wrote (and
/// nothing else under those keys), reading them gives `config` again.
pub proof fn law_retention_policy_round_trip(config: RetentionConfig, rows: Seq<(Seq<char>, Seq<char>)>)
    requires
        forall|i: int| 0 <= i < rows.len() ==> retention_rows(config).contains(#[trigger] rows[i]),
        forall|j: int| 0 <= j < 4 ==> rows.contains(#[trigger] retention_rows(config)[j]),
    ensures
        bool_setting(stored_value(rows, "retention_enabled"@), true) == config.enabled,
        days_setting(stored_value(rows, "retention_days"@), 30) == config.retention_days,
        bool_setting(stored_value(rows, "archive_enabled"@), true) == config.archive_enabled,
        text_setting(stored_value(rows, "archive_path"@), "/var/backups/nexus"@) == config.archive_path@,
{
    reveal_strlit("retention_enabled");
    reveal_strlit("retention_days");
    reveal_strlit("archive_enabled");
    reveal_strlit("archive_path");
    reveal_strlit("true");
    reveal_strlit("false");
    let r = retention_rows(config);
    assert("retention_enabled"@[0] != "archive_path"@[0]);
    assert("retention_days"@[0] != "archive_path"@[0]);
    assert("archive_enabled"@[8] != "archive_path"@[8]);
    assert("retention_enabled"@[0] != "archive_enabled"@[0]);
    assert("retention_days"@[0] != "archive_enabled"@[0]);
    assert("retention_enabled"@[10] != "retention_days"@[10]);
    assert("true"@[0] != "false"@[0]);
    assert forall|j: int| 0 <= j < 4 implies stored_value(rows, (#[trigger] r[j]).0) == Some(r[j].1) by {
        assert(rows.contains(r[j]));
        assert forall|i: int| 0 <= i < rows.len() && (#[trigger] rows[i]).0 == r[j].0 implies rows[i].1 == r[j].1 by {
            assert(r.contains(rows[i]));
            let k = choose|k: int| 0 <= k < r.len() && r[k] == rows[i];
            assert(r[k].0 == r[j].0);
        }
        lemma_stored_value(rows, r[j].0, r[j].1);
    }
    assert(r[0].0 == "retention_enabled"@ && r[1].0 == "retention_days"@);
    assert(r[2].0 == "archive_enabled"@ && r[3].0 == "archive_path"@);
    lemma_decimal_reads_back(config.retention_days as nat);
    let d = decimal(config.retention_days as nat);
    assert(d.len() > 0 && d[0] != '+');
}

/// The rows that storing `config` writes, key by key.
pub fn retention_config_rows(config: &RetentionConfig) -> (r: Vec<(String, String)>)
    ensures
        rows_view(r@) == retention_rows(*config),
{
    let mut days = String::new();
    append_decimal(&mut days, config.retention_days as u64);
    let r = vec![
        (owned("retention_enabled"), bool_string(config.enabled)),
        (owned("retention_days"), days),
        (owned("archive_enabled"), bool_string(config.archive_enabled)),
        (owned("archive_path"), config.archive_path.clone()),
    ];
    assert(rows_view(r@) =~= retention_rows(*config));
    r
}

/// `true` or `false`, as `bool::to_string` writes it.
pub open spec fn bool_text(b: bool) -> Seq<char> {
    if b { "true"@ } else { "false"@ }
}

fn bool_string(b: bool) -> (s: String)
    ensures
        s@ == bool_text(b),
{
    if b { owned("true") } else { owned("false") }
}

/// The values stored for a retention policy, in the order of the keys
/// `retention_enabled`, `retention_days`, `archive_enabled`, `archive_path`.
pub fn retention_config_values(config: &RetentionConfig) -> (v: Vec<String>)
    ensures
        v@.map_values(|s: String| s@) == seq![
            bool_text(config.enabled),
            decimal(config.retention_days as nat),
            bool_text(config.archive_enabled),
            config.archive_path@,
        ],
{
    let mut days = String::new();
    append_decimal(&mut days, config.retention_days as u64);
    let v = vec![
        bool_string(config.enabled),
        days,
        bool_string(config.archive_enabled),
        config.archive_path.clone(),
    ];
    assert(v@.map_values(|s: String| s@) =~= seq![
        bool_text(config.enabled),
        decimal(config.retention_days as nat),
        bool_text(config.archive_enabled),
        config.archive_path@,
    ]);
    v
}

/// A query is a `SELECT` when, trimmed and upper-cased, it begins with `SELECT`.
pub open spec fn is_select_query(q: Seq<char>) -> bool {
    has_prefix(uppercase(trimmed(q)), "SELECT"@)
}

/// A trimmed query holds one statement: no `;` but, at most, a final one.
pub open spec fn is_one_statement(t: Seq<char>) -> bool {
    forall|i: int| 0 <= i < t.len() - 1 ==> #[trigger] t[i] != ';'
}

/// Why an ad-hoc query is refused, if it is.
pub open spec fn sql_refusal(q: Seq<char>) -> Option<Seq<char>> {
    if !is_select_query(q) {
        Some("Only SELECT queries are allowed"@)
    } else if !is_one_statement(trimmed(q)) {
        Some("Only one statement is allowed"@)
    } else {
        None
    }
}

/// Refuses every ad-hoc query but a single `SELECT` statement, so that the query can
/// only read: a query that is no `SELECT` is refused, and so is a `SELECT` followed by
/// a further statement.
pub fn check_sql(query: &str) -> (r: Result<(), String>)
    ensures
        is_select_query(query@) && is_one_statement(trimmed(query@)) ==> r is Ok,
        !is_select_query(query@) ==> (r matches Err(e) && e@ == "Only SELECT queries are allowed"@),
        is_select_query(query@) && !is_one_statement(trimmed(query@)) ==> (r matches Err(e) && e@
            == "Only one statement is allowed"@),
        match sql_refusal(query@) {
            Some(m) => r matches Err(e) && e@ == m,
            None => r is Ok,
        },
{
    let t = trim(query);
    let u = to_uppercase(t.as_str());
    if !starts_with(u.as_str(), "SELECT") {
        return Err(owned("Only SELECT queries are allowed"));
    }
    let v = crate::text::chars_of(t.as_str());
    let n = v.len();
    let mut i: usize = 0;
    while i < n
        invariant
            v@ == trimmed(query@),
            is_select_query(query@),
            n == v@.len(),
            i <= n,
            forall|j: int| 0 <= j < i && j < n - 1 ==> #[trigger] v@[j] != ';',
        decreases n - i,
    {
        if v[i] == ';' && i + 1 < n {
            return Err(owned("Only one statement is allowed"));
        }
        i = i + 1;
    }
    Ok(())
}

/// The base of the metrics query.
pub open spec fn metrics_select() -> Seq<char> {
    "SELECT id, created_at, sensor_id, sensor_id, sensor_id, \n                    vibration_x, 'mm/s', 'Good' \n             FROM sensor_readings WHERE 1=1"@
}

/// The filter on one bound of the reading time.
pub open spec fn time_filter(op: Seq<char>, t: Option<i64>) -> Seq<char> {
    match t {
        Some(t) => " AND created_at "@ + op + " '"@ + chrono_rfc3339(t) + "'"@,
        None => Seq::empty(),
    }
}

/// The filter on the board a reading came from.
pub open spec fn board_filter(board_id: Option<Seq<char>>) -> Seq<char> {
    match board_id {
        Some(b) => " AND sensor_id LIKE '"@ + b + "%'"@,
        None => Seq::empty(),
    }
}

/// The filter on the channel a reading came from.
pub open spec fn channel_filter(channel_id: Option<Seq<char>>) -> Seq<char> {
    match channel_id {
        Some(c) => " AND sensor_id = '"@ + c + "'"@,
        None => Seq::empty(),
    }
}

/// The limit on the number of readings.
pub open spec fn limit_clause(limit: Option<usize>) -> Seq<char> {
    match limit {
        Some(n) => " LIMIT "@ + decimal(n as nat),
        None => Seq::empty(),
    }
}

/// The metrics query for the given filters, times in Unix seconds.
pub open spec fn metrics_query_text(
    start: Option<i64>,
    end: Option<i64>,
    board_id: Option<Seq<char>>,
    channel_id: Option<Seq<char>>,
    limit: Option<usize>,
) -> Seq<char> {
    metrics_select() + time_filter(">="@, start) + time_filter("<="@, end) + board_filter(board_id)
        + channel_filter(channel_id) + " ORDER BY created_at DESC"@ + limit_clause(limit)
}

fn append_time_filter(q: &mut String, op: &str, t: Option<i64>)
    requires
        t matches Some(t) ==> chrono_time_in_range(t as int),
    ensures
        final(q)@ == old(q)@ + time_filter(op@, t),
{
    match t {
        Some(t) => {
            append_str(q, " AND created_at ");
            append_str(q, op);
            append_str(q, " '");
            let s = rfc3339(t);
            append_str(q, s.as_str());
            append_str(q, "'");
            assert(q@ =~= old(q)@ + time_filter(op@, Some(t)));
        },
        None => {
            assert(q@ =~= old(q)@ + time_filter(op@, t));
        },
    }
}

fn append_board_filter(q: &mut String, board_id: &Option<String>)
    ensures
        final(q)@ == old(q)@ + board_filter(
            match *board_id {
                Some(b) => Some(b@),
                None => None,
            },
        ),
{
    match board_id {
        Some(b) => {
            append_str(q, " AND sensor_id LIKE '");
            append_str(q, b.as_str());
            append_str(q, "%'");
            assert(q@ =~= old(q)@ + board_filter(Some(b@)));
        },
        None => {
            assert(q@ =~= old(q)@ + Seq::<char>::empty());
        },
    }
}

fn append_channel_filter(q: &mut String, channel_id: &Option<String>)
    ensures
        final(q)@ == old(q)@ + channel_filter(
            match *channel_id {
                Some(c) => Some(c@),
                None => None,
            },
        ),
{
    match channel_id {
        Some(c) => {
            append_str(q, " AND sensor_id = '");
            append_str(q, c.as_str());
            append_str(q, "'");
            assert(q@ =~= old(q)@ + channel_filter(Some(c@)));
        },
        None => {
            assert(q@ =~= old(q)@ + Seq::<char>::empty());
        },
    }
}

fn append_limit(q: &mut String, limit: Option<usize>)
    ensures
        final(q)@ == old(q)@ + limit_clause(limit),
{
    match limit {
        Some(n) => {
            append_str(q, " LIMIT ");
            append_decimal(q, n as u64);
            assert(q@ =~= old(q)@ + limit_clause(limit));
        },
        None => {
            assert(q@ =~= old(q)@ + limit_clause(limit));
        },
    }
}

/// The SQL that reads metrics within the filters, newest first.
pub fn query_metrics(
    start_time: Option<i64>,
    end_time: Option<i64>,
    board_id: Option<String>,
    channel_id: Option<String>,
    limit: Option<usize>,
) -> (q: String)
    requires
        start_time matches Some(t) ==> chrono_time_in_range(t as int),
        end_time matches Some(t) ==> chrono_time_in_range(t as int),
    ensures
        q@ == metrics_query_text(
            start_time,
            end_time,
            match board_id {
                Some(b) => Some(b@),
                None => None,
            },
            match channel_id {
                Some(c) => Some(c@),
                None => None,
            },
            limit,
        ),
{
    let mut q = owned(
        "SELECT id, created_at, sensor_id, sensor_id, sensor_id, \n                    vibration_x, 'mm/s', 'Good' \n             FROM sensor_readings WHERE 1=1",
    );
    append_time_filter(&mut q, ">=", start_time);
    append_time_filter(&mut q, "<=", end_time);
    append_board_filter(&mut q, &board_id);
    append_channel_filter(&mut q, &channel_id);
    append_str(&mut q, " ORDER BY created_at DESC");
    append_limit(&mut q, limit);
    q
}

/// Seconds in a day.
pub const SECONDS_PER_DAY: i64 = 86400;

/// The query for the number of readings.
pub const COUNT_READINGS: &'static str = "SELECT COUNT(*) FROM sensor_readings";

/// The query for the time of the oldest reading.
pub const OLDEST_READING: &'static str = "SELECT MIN(created_at) FROM sensor_readings";

/// The query for the time of the newest reading.
pub const NEWEST_READING: &'static str = "SELECT MAX(created_at) FROM sensor_readings";

/// The query for the number of readings of the last day.
pub const COUNT_READINGS_TODAY: &'static str = "SELECT COUNT(*) FROM sensor_readings WHERE created_at > datetime('now', '-1 day')";

/// The query for the number of readings of the last week.
pub const COUNT_READINGS_WEEK: &'static str = "SELECT COUNT(*) FROM sensor_readings WHERE created_at > datetime('now', '-7 days')";

/// The query for the names of the tables.
pub const TABLE_NAMES: &'static str = "SELECT name FROM sqlite_master WHERE type='table' AND name NOT LIKE 'sqlite_%'";

/// The instant `days` days before `now`.
pub open spec fn days_before(now: i64, days: u32) -> int {
    now - days * 86400
}

/// The SQL that deletes the readings older than `retention_days` days before `now`.
pub fn clean_old_data(now: i64, retention_days: u32) -> (q: String)
    requires
        chrono_time_in_range(days_before(now, retention_days)),
    ensures
        q@ == "DELETE FROM sensor_readings WHERE created_at < '"@ + chrono_rfc3339(
            days_before(now, retention_days) as i64,
        ) + "'"@,
{
    let cutoff: i64 = now - (retention_days as i64) * SECONDS_PER_DAY;
    let mut q = owned("DELETE FROM sensor_readings WHERE created_at < '");
    let s = rfc3339(cutoff);
    append_str(&mut q, s.as_str());
    append_str(&mut q, "'");
    q
}

/// The archive of old readings made at `now`: its file, the SQL that attaches it, and
/// the cut-off instant (Unix seconds) before which readings move into it.
pub struct ArchivePlan {
    pub archive_file: String,
    pub attach_sql: String,
    pub cutoff: i64,
}

/// The archive of the readings older than `days_to_archive` days, made at `now`:
/// `/var/backups/nexus/archive_{now as %Y%m%d_%H%M%S}.db`.
pub fn archive_data(now: i64, days_to_archive: u32) -> (p: ArchivePlan)
    requires
        chrono_time_in_range(now as int),
        chrono_time_in_range(days_before(now, days_to_archive)),
    ensures
        p.archive_file@ == "/var/backups/nexus/archive_"@ + chrono_format(now, "%Y%m%d_%H%M%S"@) + ".db"@,
        p.attach_sql@ == "ATTACH DATABASE '"@ + p.archive_file@ + "' AS archive"@,
        p.cutoff == days_before(now, days_to_archive),
{
    let cutoff: i64 = now - (days_to_archive as i64) * SECONDS_PER_DAY;
    proof {
        reveal_strlit("%Y%m%d_%H%M%S");
    }
    let stamp = format_utc(now, "%Y%m%d_%H%M%S");
    let mut file = owned("/var/backups/nexus/archive_");
    append_str(&mut file, stamp.as_str());
    append_str(&mut file, ".db");
    let mut attach = owned("ATTACH DATABASE '");
    append_str(&mut attach, file.as_str());
    append_str(&mut attach, "' AS archive");
    ArchivePlan { archive_file: file, attach_sql: attach, cutoff }
}

/// The SQL that counts the rows of table `name`.
pub fn table_count_query(name: &str) -> (q: String)
    ensures
        q@ == "SELECT COUNT(*) FROM "@ + name@,
{
    let mut q = owned("SELECT COUNT(*) FROM ");
    append_str(&mut q, name);
    q
}

} // verus!
