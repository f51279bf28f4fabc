//! Where audit entries are written.

use vstd::prelude::*;
use vstd::string::*;
use crate::clock::{utc_date_text, utc_today};
use crate::text::{concat3, join_path, join_path_spec};

verus! {

/// Writes audit entries to one JSON-lines file per day in a directory.
#[derive(Debug)]
pub struct AuditLogger {
    audit_dir: String,
}

impl View for AuditLogger {
    type V = Seq<char>;

    /// The directory, by its characters.
    closed spec fn view(&self) -> Seq<char> {
        self.audit_dir@
    }
}

impl AuditLogger {
    /// A logger writing into `audit_dir`; the executable creates the
    /// directory.
    pub fn new(audit_dir: String) -> (r: Self)
        ensures
            r@ == audit_dir@,
    {
        AuditLogger { audit_dir }
    }

    /// The logger of the current project: `.jin/audit`.
    pub fn from_project() -> (r: Self)
        ensures
            r@ == ".jin/audit"@,
    {
        AuditLogger::new(".jin/audit".to_owned())
    }

    /// The directory the logger writes into.
    pub fn audit_dir(&self) -> (r: &str)
        ensures
            r@ == self@,
    {
        self.audit_dir.as_str()
    }

    /// The file of the given day: `audit-<date>.jsonl` in the directory.
    pub fn path_for_date(&self, date: &str) -> (r: String)
        ensures
            r@ == join_path_spec(self@, "audit-"@ + date@ + ".jsonl"@),
    {
        let name = concat3("audit-", date, ".jsonl");
        join_path(self.audit_dir.as_str(), name.as_str())
    }

    /// The file of today; a clock that reads no date from 1970 on gives an
    /// empty date.
    pub fn today_path(&self) -> (r: String)
        ensures
            exists|date: Seq<char>|
                #![trigger join_path_spec(self@, "audit-"@ + date + ".jsonl"@)]
                (date.len() == 0 || utc_date_text(date)) && r@ == join_path_spec(self@, "audit-"@ + date + ".jsonl"@),
    {
        let d = match utc_today() {
            Some(t) => t,
            None => String::new(),
        };
        self.path_for_date(d.as_str())
    }
}

} // verus!
