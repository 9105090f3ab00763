//! The database viewer: ad-hoc queries run through `sqlite3 -header -csv` and the tables
//! read back from their output, saved queries, and manual cleanup.
use vstd::prelude::*;
use crate::database::{check_sql, sql_refusal};
use crate::text::{
    append_decimal, append_str, chars_of, contains, contains_text, decimal, lines, lowercase,
    occurs_at, owned, push_char, same_text, split_lines, to_lowercase,
};

verus! {

/// The metrics database file.
pub const DATABASE_FILE: &'static str = "/var/lib/nexus/nexus.db";

/// The pieces of `s` split at `c`, the text before the first split being `cur`
/// (`str::split` with a character).
pub open spec fn split_after(s: Seq<char>, c: char, cur: Seq<char>) -> Seq<Seq<char>>
    decreases s.len(),
{
    if s.len() == 0 {
        seq![cur]
    } else if s[0] == c {
        seq![cur] + split_after(s.skip(1), c, Seq::empty())
    } else {
        split_after(s.skip(1), c, cur.push(s[0]))
    }
}

/// `s.split(c)`.
pub open spec fn split_char(s: Seq<char>, c: char) -> Seq<Seq<char>> {
    split_after(s, c, Seq::empty())
}

/// The pieces of `s` split at `c`.
pub fn split_on(s: &str, c: char) -> (out: Vec<String>)
    ensures
        out@.map_values(|p: String| p@) == split_char(s@, c),
{
    let v = chars_of(s);
    let n = v.len();
    let mut out: Vec<String> = Vec::new();
    let mut cur = String::new();
    let mut i: usize = 0;
    assert(v@.skip(0) =~= v@);
    while i < n
        invariant
            v@ == s@,
            n == v@.len(),
            i <= n,
            out@.map_values(|p: String| p@) + split_after(v@.skip(i as int), c, cur@) == split_char(s@, c),
        decreases n - i,
    {
        let ghost rest = v@.skip(i as int);
        let ghost before = out@.map_values(|p: String| p@);
        assert(rest.skip(1) =~= v@.skip(i + 1));
        if v[i] == c {
            let ghost cv = cur@;
            out.push(cur);
            cur = String::new();
            assert(out@.map_values(|p: String| p@) =~= before + seq![cv]);
            assert(cur@ =~= Seq::<char>::empty());
        } else {
            push_char(&mut cur, v[i]);
        }
        i = i + 1;
    }
    let ghost before = out@.map_values(|p: String| p@);
    let ghost cv = cur@;
    out.push(cur);
    assert(v@.skip(n as int).len() == 0);
    assert(out@.map_values(|p: String| p@) =~= before + seq![cv]);
    out
}

/// How a query run went: what `sqlite3` printed, its error output when it failed, or
/// why it could not be started.
#[derive(Debug, Clone)]
pub enum QueryRun {
    Output(String),
    Failed(String),
    CouldNotRun(String),
}

/// A query result as the viewer shows it.
#[derive(Debug, Clone)]
pub struct SqlQueryResult {
    pub columns: Vec<String>,
    pub rows: Vec<Vec<String>>,
    pub row_count: usize,
    pub execution_time_ms: u64,
}

/// The views of a table's rows.
pub open spec fn rows_view(rows: Seq<Vec<String>>) -> Seq<Seq<Seq<char>>> {
    rows.map_values(|r: Vec<String>| r@.map_values(|p: String| p@))
}

/// The views of a list of strings.
pub open spec fn texts(v: Seq<String>) -> Seq<Seq<char>> {
    v.map_values(|p: String| p@)
}

/// `r` is the one-cell result with column `column` and cell `cell`, counting `count`
/// rows, after `ms` milliseconds.
pub open spec fn single_cell(r: SqlQueryResult, column: Seq<char>, cell: Seq<char>, count: usize, ms: u64) -> bool {
    texts(r.columns@) == seq![column] && rows_view(r.rows@) == seq![seq![cell]] && r.row_count == count
        && r.execution_time_ms == ms
}

/// The result a run gives: the CSV table (header line as columns, each further line a
/// row split at commas), `No data found` for empty output, or the error.
pub open spec fn run_result(run: QueryRun, ms: u64, r: SqlQueryResult) -> bool {
    match run {
        QueryRun::Output(out) => if lines(out@).len() == 0 {
            single_cell(r, "Result"@, "No data found"@, 0, ms)
        } else {
            &&& texts(r.columns@) == split_char(lines(out@)[0], ',')
            &&& rows_view(r.rows@) == lines(out@).skip(1).map_values(|l: Seq<char>| split_char(l, ','))
            &&& r.row_count == r.rows@.len()
            &&& r.execution_time_ms == ms
        },
        QueryRun::Failed(e) => single_cell(r, "Error"@, e@, 1, ms),
        QueryRun::CouldNotRun(e) => single_cell(r, "Error"@, "Failed to execute: "@ + e@, 1, ms),
    }
}

fn one_cell(column: &str, cell: String, count: usize, ms: u64) -> (r: SqlQueryResult)
    ensures
        single_cell(r, column@, cell@, count, ms),
{
    let ghost cv = cell@;
    let row = vec![cell];
    assert(row@.map_values(|p: String| p@) =~= seq![cv]);
    let r = SqlQueryResult { columns: vec![owned(column)], rows: vec![row], row_count: count, execution_time_ms: ms };
    assert(texts(r.columns@) =~= seq![column@]);
    assert(rows_view(r.rows@) =~= seq![seq![cv]]);
    r
}

/// The result shown for an ad-hoc query that is refused without running: the reason,
/// as one error cell; `None` for a query that may run.
pub fn rejected_query(query: &str) -> (r: Option<SqlQueryResult>)
    ensures
        match sql_refusal(query@) {
            Some(m) => r matches Some(res) && single_cell(res, "Error"@, m, 1, 0),
            None => r is None,
        },
{
    match check_sql(query) {
        Ok(()) => None,
        Err(e) => Some(one_cell("Error", e, 1, 0)),
    }
}

/// A reading is shown under the channel filter `filter` (`all` shows every channel)
/// and the search `term`: with a term, its channel name or units must contain it,
/// ignoring case, or its value, written as text, must contain it as it is.
pub open spec fn metric_shown(
    channel_id: Seq<char>,
    channel_name: Seq<char>,
    units: Seq<char>,
    value_text: Seq<char>,
    filter: Seq<char>,
    term: Seq<char>,
) -> bool {
    &&& (filter == "all"@ || channel_id == filter)
    &&& (term.len() == 0 || contains_text(lowercase(channel_name), lowercase(term))
        || contains_text(value_text, term) || contains_text(lowercase(units), lowercase(term)))
}

/// Whether `p`, possibly empty, occurs in `s`.
fn occurs_in(s: &str, p: &str) -> (r: bool)
    ensures
        r == contains_text(s@, p@),
{
    if p.unicode_len() == 0 {
        assert(occurs_at(s@, p@, 0)) by {
            assert(s@.subrange(0, 0) =~= p@);
        }
        true
    } else {
        contains(s, p)
    }
}

/// Whether a reading is shown under the channel filter and the search term; its value
/// comes as the text it is written as.
pub fn metric_matches(
    channel_id: &str,
    channel_name: &str,
    units: &str,
    value_text: &str,
    filter: &str,
    term: &str,
) -> (r: bool)
    ensures
        r == metric_shown(channel_id@, channel_name@, units@, value_text@, filter@, term@),
{
    if !same_text(filter, "all") && !same_text(channel_id, filter) {
        return false;
    }
    if term.unicode_len() == 0 {
        return true;
    }
    let lt = to_lowercase(term);
    let ln = to_lowercase(channel_name);
    let lu = to_lowercase(units);
    occurs_in(ln.as_str(), lt.as_str()) || occurs_in(value_text, term) || occurs_in(
        lu.as_str(),
        lt.as_str(),
    )
}

/// The arguments to `sqlite3` that run `query` with a CSV header.
pub fn sqlite_args(query: &str) -> (a: Vec<String>)
    ensures
        texts(a@) == seq![DATABASE_FILE@, "-header"@, "-csv"@, query@],
{
    let a = vec![owned(DATABASE_FILE), owned("-header"), owned("-csv"), owned(query)];
    assert(texts(a@) =~= seq![DATABASE_FILE@, "-header"@, "-csv"@, query@]);
    a
}

/// The result of a run of an ad-hoc query that took `ms` milliseconds.
pub fn query_result(run: QueryRun, ms: u64) -> (r: SqlQueryResult)
    ensures
        run_result(run, ms, r),
{
    match run {
        QueryRun::Output(out) => {
            let ls = split_lines(out.as_str());
            if ls.len() == 0 {
                return one_cell("Result", owned("No data found"), 0, ms);
            }
            let ghost lv = ls@.map_values(|l: String| l@);
            let columns = split_on(ls[0].as_str(), ',');
            let mut rows: Vec<Vec<String>> = Vec::new();
            let mut i: usize = 1;
            while i < ls.len()
                invariant
                    lv == ls@.map_values(|l: String| l@),
                    1 <= i <= ls@.len(),
                    rows@.len() == i - 1,
                    forall|k: int| 0 <= k < rows@.len() ==> (#[trigger] rows@[k])@.map_values(|p: String| p@)
                        == split_char(lv[k + 1], ','),
                decreases ls@.len() - i,
            {
                rows.push(split_on(ls[i].as_str(), ','));
                i = i + 1;
            }
            let n = rows.len();
            let r = SqlQueryResult { columns, rows, row_count: n, execution_time_ms: ms };
            assert(rows_view(r.rows@) =~= lv.skip(1).map_values(|l: Seq<char>| split_char(l, ',')));
            r
        },
        QueryRun::Failed(e) => one_cell("Error", e, 1, ms),
        QueryRun::CouldNotRun(e) => {
            let mut m = owned("Failed to execute: ");
            append_str(&mut m, e.as_str());
            one_cell("Error", m, 1, ms)
        },
    }
}

/// The SQL of a manual cleanup: delete the readings older than `days` days, then vacuum.
pub fn manual_cleanup_sql(days: u32) -> (q: String)
    ensures
        q@ == "DELETE FROM sensor_readings WHERE created_at < datetime('now', '-"@ + decimal(days as nat)
            + " days'); VACUUM;"@,
{
    let mut q = owned("DELETE FROM sensor_readings WHERE created_at < datetime('now', '-");
    append_decimal(&mut q, days as u64);
    append_str(&mut q, " days'); VACUUM;");
    q
}

/// A stored query; `last_used` is in Unix seconds.
#[derive(Debug, Clone)]
pub struct SavedQuery {
    pub name: String,
    pub query: String,
    pub description: String,
    pub last_used: i64,
}

/// The saved queries offered at `now`: daily averages, alarm history and peak values,
/// last used one, two and three days ago.
pub fn saved_queries(now: i64) -> (v: Vec<SavedQuery>)
    requires
        now >= i64::MIN + 3 * 86400,
    ensures
        v@.len() == 3,
        v@[0].name@ == "Daily Averages"@ && v@[0].last_used == now - 86400,
        v@[0].query@ == "SELECT DATE(timestamp) as day, channel_name, AVG(value) as avg_value\nFROM metrics\nGROUP BY day, channel_name\nORDER BY day DESC;"@,
        v@[1].name@ == "Alarm History"@ && v@[1].last_used == now - 2 * 86400,
        v@[1].query@ == "SELECT timestamp, channel_name, value, alarm_state\nFROM metrics\nWHERE alarm_state != 'Normal'\nORDER BY timestamp DESC\nLIMIT 100;"@,
        v@[2].name@ == "Peak Values"@ && v@[2].last_used == now - 3 * 86400,
        v@[2].query@ == "SELECT channel_name, MAX(value) as peak, MIN(value) as valley\nFROM metrics\nWHERE timestamp > datetime('now', '-24 hours')\nGROUP BY channel_name;"@,
{
    vec![
        SavedQuery {
            name: owned("Daily Averages"),
            query: owned("SELECT DATE(timestamp) as day, channel_name, AVG(value) as avg_value\nFROM metrics\nGROUP BY day, channel_name\nORDER BY day DESC;"),
            description: owned("Calculate daily averages for all channels"),
            last_used: now - 86400,
        },
        SavedQuery {
            name: owned("Alarm History"),
            query: owned("SELECT timestamp, channel_name, value, alarm_state\nFROM metrics\nWHERE alarm_state != 'Normal'\nORDER BY timestamp DESC\nLIMIT 100;"),
            description: owned("Show recent alarm events"),
            last_used: now - 2 * 86400,
        },
        SavedQuery {
            name: owned("Peak Values"),
            query: owned("SELECT channel_name, MAX(value) as peak, MIN(value) as valley\nFROM metrics\nWHERE timestamp > datetime('now', '-24 hours')\nGROUP BY channel_name;"),
            description: owned("Find peak and valley values in last 24 hours"),
            last_used: now - 3 * 86400,
        },
    ]
}


/// The query the SQL tab starts with: the last week's readings of the MegaBAS board,
/// newest first, at most a thousand.
pub const DEFAULT_SQL_QUERY: &'static str = "SELECT \n  timestamp,\n  channel_name,\n  value,\n  units,\n  quality,\n  alarm_state\nFROM metrics\nWHERE board_id = 'megabas_0'\n  AND timestamp > datetime('now', '-7 days')\nORDER BY timestamp DESC\nLIMIT 1000;";

/// The query the SQL tab starts with.
pub fn default_sql_query() -> (q: String)
    ensures
        q@ == DEFAULT_SQL_QUERY@,
{
    owned(DEFAULT_SQL_QUERY)
}

/// How long readings are kept and how they are archived; sizes in megabytes.
#[derive(Debug, Clone, Copy, PartialEq, Eq, Structural)]
pub struct ViewerRetention {
    pub enabled: bool,
    pub retention_days: u32,
    pub max_archive_size: u32,
    pub max_archive_count: u32,
    /// From 1 to 9.
    pub compression_level: u32,
    pub auto_archive_threshold: u32,
}

/// The retention setting the viewer starts with: on, a week, at most ten archives of
/// 500 MB, compression level 6, archiving from 100 MB.
pub fn default_viewer_retention() -> (r: ViewerRetention)
    ensures
        r == (ViewerRetention {
            enabled: true,
            retention_days: 7,
            max_archive_size: 500,
            max_archive_count: 10,
            compression_level: 6,
            auto_archive_threshold: 100,
        }),
{
    ViewerRetention {
        enabled: true,
        retention_days: 7,
        max_archive_size: 500,
        max_archive_count: 10,
        compression_level: 6,
        auto_archive_threshold: 100,
    }
}

/// The statement that stores the retention setting, as JSON, under the key
/// `retention_config` of the `system_config` table, stamped with the time of the write.
pub fn retention_save_sql(config_json: &str) -> (q: String)
    ensures
        q@ == "INSERT OR REPLACE INTO system_config (key, value, updated_at) VALUES ('retention_config', '"@
            + config_json@ + "', datetime('now'))"@,
{
    let mut q = owned("INSERT OR REPLACE INTO system_config (key, value, updated_at) VALUES ('retention_config', '");
    append_str(&mut q, config_json);
    append_str(&mut q, "', datetime('now'))");
    q
}

} // verus!
