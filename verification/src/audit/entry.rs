//! Audit entries.

use vstd::prelude::*;
use vstd::string::*;
use crate::clock::{rfc3339_utc_text, utc_now_rfc3339};

verus! {

/// The active mode and scope of an operation.
#[derive(Debug)]
pub struct AuditContext {
    /// The active mode.
    pub active_mode: Option<String>,
    /// The active scope.
    pub active_scope: Option<String>,
}

/// One audit entry.
#[derive(Debug)]
pub struct AuditEntry {
    /// When the entry was made, in RFC 3339 form.
    pub timestamp: String,
    /// Who acted.
    pub user: String,
    /// The project.
    pub project: Option<String>,
    /// The mode.
    pub mode: Option<String>,
    /// The scope.
    pub scope: Option<String>,
    /// The layer's number.
    pub layer: Option<u8>,
    /// The files involved.
    pub files: Vec<String>,
    /// The commit before.
    pub base_commit: Option<String>,
    /// The commit made.
    pub merge_commit: Option<String>,
    /// The active context, when a mode or scope was given.
    pub context: Option<AuditContext>,
}

impl AuditEntry {
    /// The entry of a commit, stamped with the current time (empty where
    /// the clock reads no time from 1970 on); the context is recorded when
    /// a mode or a scope is given.
    pub fn from_commit(
        user: String,
        project: Option<String>,
        mode: Option<String>,
        scope: Option<String>,
        layer: Option<u8>,
        files: Vec<String>,
        base_commit: Option<String>,
        merge_commit: String,
    ) -> (r: Self)
        ensures
            r.user == user,
            r.project == project,
            r.mode == mode,
            r.scope == scope,
            r.layer == layer,
            r.files == files,
            r.base_commit == base_commit,
            r.merge_commit == Some(merge_commit),
            (mode is Some || scope is Some) ==> (r.context matches Some(c) && c.active_mode == mode
                && c.active_scope == scope),
            (mode is None && scope is None) ==> r.context is None,
            r.timestamp@.len() == 0 || rfc3339_utc_text(r.timestamp@),
    {
        let context = if mode.is_some() || scope.is_some() {
            Some(AuditContext {
                active_mode: crate::model::config::clone_opt(&mode),
                active_scope: crate::model::config::clone_opt(&scope),
            })
        } else {
            None
        };
        AuditEntry {
            timestamp: match utc_now_rfc3339() {
                Some(t) => t,
                None => String::new(),
            },
            user,
            project,
            mode,
            scope,
            layer,
            files,
            base_commit,
            merge_commit: Some(merge_commit),
            context,
        }
    }
}

} // verus!
