//! The audit trail: what each user action or system event records, the statements that
//! keep the records in the database, and the in-memory list of what was recorded.
use vstd::prelude::*;

verus! {

/// One recorded action. `timestamp` is in Unix seconds.
#[derive(Debug, Clone)]
pub struct AuditEntry {
    pub id: String,
    pub timestamp: i64,
    pub user: String,
    pub action: String,
    pub resource: String,
    pub details: Option<String>,
    pub ip_address: Option<String>,
    pub success: bool,
    pub error: Option<String>,
}

/// The statement that creates the audit table when it is missing.
pub const CREATE_AUDIT_TABLE: &'static str = "CREATE TABLE IF NOT EXISTS audit_log (id TEXT PRIMARY KEY, timestamp DATETIME NOT NULL, user TEXT NOT NULL, action TEXT NOT NULL, resource TEXT NOT NULL, details TEXT, ip_address TEXT, success BOOLEAN NOT NULL, error TEXT)";

/// The statement that stores one entry; its nine parameters are the entry's fields in
/// declaration order.
pub const INSERT_AUDIT_ENTRY: &'static str = "INSERT INTO audit_log (id, timestamp, user, action, resource, details, ip_address, success, error) VALUES (?1, ?2, ?3, ?4, ?5, ?6, ?7, ?8, ?9)";

/// The statement that reads the newest entries; its parameter is how many.
pub const SELECT_RECENT_AUDIT: &'static str = "SELECT id, timestamp, user, action, resource, details, ip_address, success, error FROM audit_log ORDER BY timestamp DESC LIMIT ?";

/// The entries recorded since start, oldest first.
pub struct AuditLog {
    entries: Vec<AuditEntry>,
}

impl View for AuditLog {
    type V = Seq<AuditEntry>;

    closed spec fn view(&self) -> Seq<AuditEntry> {
        self.entries@
    }
}

impl AuditLog {
    /// An empty log.
    pub fn new() -> (l: AuditLog)
        ensures
            l@ == Seq::<AuditEntry>::empty(),
    {
        AuditLog { entries: Vec::new() }
    }

    /// Records an entry after those already recorded.
    pub fn log(&mut self, entry: AuditEntry)
        ensures
            final(self)@ == old(self)@.push(entry),
    {
        self.entries.push(entry);
    }

    /// The recorded entries, oldest first.
    pub fn entries(&self) -> (r: &Vec<AuditEntry>)
        ensures
            r@ == self@,
    {
        &self.entries
    }
}

} // verus!
