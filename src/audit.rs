//! Audit records of requests and the statistics drawn from them.

use vstd::prelude::*;
use vstd::string::*;
pub use crate::safety::SafetyLevel;
use crate::persistence::copy_text;
use crate::text::str_eq;

verus! {

/// One audited request.
#[derive(Debug, Clone)]
pub struct AuditEntry {
    /// Milliseconds since the Unix epoch, UTC
    pub timestamp: i64,
    /// Username executing the command
    pub user: String,
    /// Organization name (from config)
    pub organization: Option<String>,
    /// Department name (from config)
    pub department: Option<String>,
    /// User's natural language input
    pub input: String,
    /// Generated command
    pub generated_command: String,
    /// Whether the command was actually executed
    pub executed: bool,
    /// Exit code if executed
    pub exit_code: Option<i32>,
    /// Safety level assessment
    pub safety_level: SafetyLevel,
    /// Additional notes or warnings
    pub notes: Option<String>,
    /// LLM backend used
    pub llm_backend: String,
    /// Session ID for tracking related commands
    pub session_id: Option<String>,
}

/// Where audit records go, and the organisation they are stamped with.
pub struct AuditLogger {
    log_path: String,
    organization: Option<String>,
    department: Option<String>,
}

/// Counts over a list of audit records.
#[derive(Debug)]
pub struct AuditStats {
    pub total_commands: usize,
    pub executed_commands: usize,
    pub failed_commands: usize,
    pub dangerous_commands: usize,
}

/// The number of entries of `s` that `f` selects.
pub open spec fn count_where(s: Seq<AuditEntry>, f: spec_fn(AuditEntry) -> bool) -> nat
    decreases s.len(),
{
    if s.len() == 0 {
        0
    } else {
        count_where(s.drop_last(), f) + if f(s.last()) {
            1nat
        } else {
            0nat
        }
    }
}

pub open spec fn was_executed() -> spec_fn(AuditEntry) -> bool {
    |e: AuditEntry| e.executed
}

/// Ran and exited with a status other than 0.
pub open spec fn has_failed() -> spec_fn(AuditEntry) -> bool {
    |e: AuditEntry| e.exit_code matches Some(c) && c != 0
}

/// Judged `Dangerous` or `Blocked`.
pub open spec fn was_dangerous() -> spec_fn(AuditEntry) -> bool {
    |e: AuditEntry| e.safety_level == SafetyLevel::Dangerous || e.safety_level == SafetyLevel::Blocked
}

proof fn lemma_count_bound(s: Seq<AuditEntry>, f: spec_fn(AuditEntry) -> bool)
    ensures
        count_where(s, f) <= s.len(),
    decreases s.len(),
{
    if s.len() > 0 {
        lemma_count_bound(s.drop_last(), f);
    }
}

impl AuditLogger {
    pub closed spec fn spec_log_path(&self) -> Seq<char> {
        self.log_path@
    }

    pub closed spec fn spec_organization(&self) -> Option<String> {
        self.organization
    }

    pub closed spec fn spec_department(&self) -> Option<String> {
        self.department
    }

    /// A logger that writes to `log_path` and stamps records with the
    /// organisation and department.
    pub fn new(log_path: String, organization: Option<String>, department: Option<String>) -> (r:
        Self)
        ensures
            r.spec_log_path() == log_path@,
            r.spec_organization() == organization,
            r.spec_department() == department,
    {
        AuditLogger { log_path, organization, department }
    }

    pub fn log_path(&self) -> (r: &str)
        ensures
            r@ == self.spec_log_path(),
    {
        self.log_path.as_str()
    }

    /// The record of one request, stamped with this logger's organisation.
    pub fn make_entry(
        &self,
        timestamp: i64,
        user: String,
        input: String,
        generated_command: String,
        executed: bool,
        exit_code: Option<i32>,
        safety_level: SafetyLevel,
        llm_backend: String,
        notes: Option<String>,
        session_id: Option<String>,
    ) -> (r: AuditEntry)
        ensures
            r == (AuditEntry {
                timestamp,
                user,
                organization: self.spec_organization(),
                department: self.spec_department(),
                input,
                generated_command,
                executed,
                exit_code,
                safety_level,
                notes,
                llm_backend,
                session_id,
            }),
    {
        AuditEntry {
            timestamp,
            user,
            organization: copy_text(&self.organization),
            department: copy_text(&self.department),
            input,
            generated_command,
            executed,
            exit_code,
            safety_level,
            notes,
            llm_backend,
            session_id,
        }
    }

    /// How many records there are, how many ran, failed, and were judged
    /// dangerous or blocked.
    pub fn get_statistics(entries: &Vec<AuditEntry>) -> (r: AuditStats)
        ensures
            r.total_commands == entries@.len(),
            r.executed_commands == count_where(entries@, was_executed()),
            r.failed_commands == count_where(entries@, has_failed()),
            r.dangerous_commands == count_where(entries@, was_dangerous()),
    {
        let mut executed: usize = 0;
        let mut failed: usize = 0;
        let mut dangerous: usize = 0;
        let mut i: usize = 0;
        while i < entries.len()
            invariant
                i <= entries@.len(),
                executed == count_where(entries@.take(i as int), was_executed()),
                failed == count_where(entries@.take(i as int), has_failed()),
                dangerous == count_where(entries@.take(i as int), was_dangerous()),
            decreases entries@.len() - i,
        {
            let ghost t = entries@.take(i + 1);
            assert(t.drop_last() =~= entries@.take(i as int));
            proof {
                lemma_count_bound(entries@.take(i as int), was_executed());
                lemma_count_bound(entries@.take(i as int), has_failed());
                lemma_count_bound(entries@.take(i as int), was_dangerous());
            }
            let e = &entries[i];
            if e.executed {
                executed = executed + 1;
            }
            match e.exit_code {
                Some(c) => {
                    if c != 0 {
                        failed = failed + 1;
                    }
                },
                None => {},
            }
            match e.safety_level {
                SafetyLevel::Dangerous | SafetyLevel::Blocked => {
                    dangerous = dangerous + 1;
                },
                _ => {},
            }
            i = i + 1;
        }
        assert(entries@.take(i as int) =~= entries@);
        AuditStats {
            total_commands: entries.len(),
            executed_commands: executed,
            failed_commands: failed,
            dangerous_commands: dangerous,
        }
    }
}

/// Which audit records a query keeps.
pub enum AuditFilter {
    /// Made by this user
    User(String),
    /// Judged at this level
    Level(SafetyLevel),
    /// Made between these instants, both included, in milliseconds
    Between(i64, i64),
}

/// The records a query keeps.
pub open spec fn selects(f: AuditFilter) -> spec_fn(AuditEntry) -> bool {
    |e: AuditEntry|
        match f {
            AuditFilter::User(u) => e.user@ == u@,
            AuditFilter::Level(l) => e.safety_level == l,
            AuditFilter::Between(a, b) => a <= e.timestamp && e.timestamp <= b,
        }
}

fn keeps(e: &AuditEntry, f: &AuditFilter) -> (r: bool)
    ensures
        r == (selects(*f))(*e),
{
    match f {
        AuditFilter::User(u) => str_eq(e.user.as_str(), u.as_str()),
        AuditFilter::Level(l) => e.safety_level == *l,
        AuditFilter::Between(a, b) => *a <= e.timestamp && e.timestamp <= *b,
    }
}

impl AuditEntry {
    /// A field-by-field copy.
    pub fn duplicate(&self) -> (r: AuditEntry)
        ensures
            r == *self,
    {
        AuditEntry {
            timestamp: self.timestamp,
            user: self.user.clone(),
            organization: copy_text(&self.organization),
            department: copy_text(&self.department),
            input: self.input.clone(),
            generated_command: self.generated_command.clone(),
            executed: self.executed,
            exit_code: self.exit_code,
            safety_level: self.safety_level,
            notes: copy_text(&self.notes),
            llm_backend: self.llm_backend.clone(),
            session_id: copy_text(&self.session_id),
        }
    }
}

impl AuditLogger {
    /// The records that `filter` keeps, in their order.
    pub fn query(entries: &Vec<AuditEntry>, filter: &AuditFilter) -> (r: Vec<AuditEntry>)
        ensures
            r@ == entries@.filter(selects(*filter)),
    {
        let ghost f = selects(*filter);
        let mut r: Vec<AuditEntry> = Vec::new();
        let mut i: usize = 0;
        assert(entries@.take(0).filter(f) =~= Seq::<AuditEntry>::empty()) by {
            reveal(Seq::filter);
        }
        while i < entries.len()
            invariant
                i <= entries@.len(),
                f == selects(*filter),
                r@ == entries@.take(i as int).filter(f),
            decreases entries@.len() - i,
        {
            let ghost t = entries@.take(i + 1);
            assert(t.drop_last() =~= entries@.take(i as int));
            assert(t.last() == entries@[i as int]);
            proof {
                reveal(Seq::filter);
            }
            if keeps(&entries[i], filter) {
                r.push(entries[i].duplicate());
            }
            i = i + 1;
        }
        assert(entries@.take(i as int) =~= entries@);
        r
    }

    /// The records made by `username`.
    pub fn get_user_entries(entries: &Vec<AuditEntry>, username: &str) -> (r: Vec<AuditEntry>)
        ensures
            r@ == entries@.filter(|e: AuditEntry| e.user@ == username@),
    {
        let f = AuditFilter::User(String::from_str(username));
        let r = Self::query(entries, &f);
        assert(selects(f) =~= (|e: AuditEntry| e.user@ == username@));
        r
    }

    /// The records judged at `safety_level`.
    pub fn get_entries_by_safety(entries: &Vec<AuditEntry>, safety_level: SafetyLevel) -> (r: Vec<
        AuditEntry,
    >)
        ensures
            r@ == entries@.filter(|e: AuditEntry| e.safety_level == safety_level),
    {
        let f = AuditFilter::Level(safety_level);
        let r = Self::query(entries, &f);
        assert(selects(f) =~= (|e: AuditEntry| e.safety_level == safety_level));
        r
    }

    /// The records made from `start` to `end`, both included.
    pub fn get_entries_in_range(entries: &Vec<AuditEntry>, start: i64, end: i64) -> (r: Vec<
        AuditEntry,
    >)
        ensures
            r@ == entries@.filter(|e: AuditEntry| start <= e.timestamp && e.timestamp <= end),
    {
        let f = AuditFilter::Between(start, end);
        let r = Self::query(entries, &f);
        assert(selects(f) =~= (|e: AuditEntry| start <= e.timestamp && e.timestamp <= end));
        r
    }
}

} // verus!
