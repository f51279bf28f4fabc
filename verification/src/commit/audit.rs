//! The audit record of a commit: who committed which files to which layer.

use vstd::prelude::*;
use vstd::string::*;
use crate::clock::{rfc3339_utc_text, utc_now_rfc3339};
use crate::model::layer::{precedence_spec, Layer};
use crate::text::{join_path, join_path_spec};

verus! {

/// The active mode and scope when a commit was made.
#[derive(Debug)]
pub struct AuditContext {
    /// The active mode.
    pub active_mode: Option<String>,
    /// The active scope.
    pub active_scope: Option<String>,
}

/// The audit record of a commit.
#[derive(Debug)]
pub struct AuditEntry {
    /// When the entry was made, in RFC 3339 form.
    pub timestamp: String,
    /// Who committed.
    pub user: String,
    /// The project.
    pub project: String,
    /// The mode of the layer.
    pub mode: Option<String>,
    /// The scope of the layer.
    pub scope: Option<String>,
    /// The layer's number.
    pub layer: u8,
    /// The files committed.
    pub files: Vec<String>,
    /// The commit before.
    pub base_commit: String,
    /// The new commit.
    pub merge_commit: String,
    /// The active context.
    pub context: AuditContext,
}

/// A layer's number in the hierarchy.
pub trait LayerNumber {
    /// The number, from 1 for the global layer to 9 for the workspace.
    fn layer_number(&self) -> u8;
}

impl LayerNumber for Layer {
    fn layer_number(&self) -> (r: u8)
        ensures
            r == precedence_spec(*self),
    {
        match self {
            Layer::GlobalBase => 1,
            Layer::ModeBase => 2,
            Layer::ModeScope => 3,
            Layer::ModeScopeProject => 4,
            Layer::ModeProject => 5,
            Layer::ScopeBase => 6,
            Layer::ProjectBase => 7,
            Layer::UserLocal => 8,
            Layer::WorkspaceActive => 9,
        }
    }
}

/// A layer's number is its precedence, and it orders the layers as
/// precedence does.
pub proof fn lemma_layer_number_is_precedence(a: Layer, b: Layer)
    ensures
        (precedence_spec(a) < precedence_spec(b)) == (crate::model::layer::precedence_order().index_of(a)
            < crate::model::layer::precedence_order().index_of(b)),
{
    let o = crate::model::layer::precedence_order();
    assert(forall|i: int| 0 <= i < 9 ==> precedence_spec(#[trigger] o[i]) == i + 1);
    assert(o.contains(a) && o.contains(b));
    let ia = o.index_of(a);
    let ib = o.index_of(b);
    assert(o[ia] == a && o[ib] == b);
}

impl AuditEntry {
    /// The audit record of a commit, stamped with the current time (empty
    /// where the clock reads no time from 1970 on).
    pub fn new(
        user: String,
        project: String,
        mode: Option<String>,
        scope: Option<String>,
        layer: Layer,
        files: Vec<String>,
        base_commit: String,
        merge_commit: String,
        active_mode: Option<String>,
        active_scope: Option<String>,
    ) -> (r: Self)
        ensures
            r.user == user,
            r.project == project,
            r.mode == mode,
            r.scope == scope,
            r.layer == precedence_spec(layer),
            r.files == files,
            r.base_commit == base_commit,
            r.merge_commit == merge_commit,
            r.context.active_mode == active_mode,
            r.context.active_scope == active_scope,
            r.timestamp@.len() == 0 || rfc3339_utc_text(r.timestamp@),
    {
        AuditEntry {
            timestamp: match utc_now_rfc3339() {
                Some(t) => t,
                None => String::new(),
            },
            user,
            project,
            mode,
            scope,
            layer: layer.layer_number(),
            files,
            base_commit,
            merge_commit,
            context: AuditContext { active_mode, active_scope },
        }
    }
}

/// The audit directory under a Jin repository: `.audit`.
pub fn get_audit_dir(jin_repo_path: &str) -> (r: String)
    ensures
        r@ == join_path_spec(jin_repo_path@, ".audit"@),
{
    join_path(jin_repo_path, ".audit")
}

} // verus!
