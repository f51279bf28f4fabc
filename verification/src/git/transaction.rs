//! Two-phase layer transactions with a persistent log for crash recovery.
//!
//! A transaction begins `Pending` and queues layer updates; committing
//! marks it `Prepared` and hands out the ref updates to apply in one Git
//! transaction; the outcome makes it `Committed`, or `Aborted` with the
//! plan that restores every ref to the value it had before.

use vstd::prelude::*;
use vstd::string::*;
use crate::clock::{compact_time_text, rfc3339_utc_text, utc_now_compact, utc_now_rfc3339};
use crate::git::oid::{hex_oid_spec, oid_error_text, parse_oid};
use crate::model::config::clone_opt;
use crate::model::error::JinError;
use crate::model::layer::{Layer, opt_sview, opt_view, ref_path_spec};
use crate::text::{concat2, concat4, join_path, join_path_spec};

verus! {

/// State of a transaction in the two-phase commit lifecycle.
#[derive(Debug, Clone, Copy, PartialEq, Eq, Structural)]
pub enum TransactionState {
    /// Updates are being queued; aborting has no effect on refs.
    Pending,
    /// Updates are being applied; recovery should roll back or resume.
    Prepared,
    /// All updates were applied.
    Committed,
    /// The transaction was rolled back.
    Aborted,
}

/// A queued update of a layer ref, with the value to restore on rollback.
#[derive(Debug)]
pub struct LayerUpdate {
    /// The layer being updated.
    pub layer: Layer,
    /// Mode name, where the layer has one.
    pub mode: Option<String>,
    /// Scope name, where the layer has one.
    pub scope: Option<String>,
    /// Project name, where the layer has one.
    pub project: Option<String>,
    /// The ref path computed from the layer and names.
    pub ref_path: String,
    /// The commit the ref pointed to before, or `None` if it did not exist.
    pub old_oid: Option<String>,
    /// The commit the ref will point to.
    pub new_oid: String,
}

impl LayerUpdate {
    /// A new update; its ref path is computed from the layer and names.
    pub fn new(
        layer: Layer,
        mode: Option<String>,
        scope: Option<String>,
        project: Option<String>,
        old_oid: Option<String>,
        new_oid: String,
    ) -> (r: Self)
        ensures
            r.layer == layer,
            r.mode == mode,
            r.scope == scope,
            r.project == project,
            r.ref_path@ == ref_path_spec(layer, opt_sview(mode), opt_sview(scope), opt_sview(project)),
            r.old_oid == old_oid,
            r.new_oid == new_oid,
    {
        let ref_path = {
            let m = match &mode {
                Some(s) => Some(s.as_str()),
                None => None,
            };
            let sc = match &scope {
                Some(s) => Some(s.as_str()),
                None => None,
            };
            let p = match &project {
                Some(s) => Some(s.as_str()),
                None => None,
            };
            assert(opt_view(m) == opt_sview(mode));
            assert(opt_view(sc) == opt_sview(scope));
            assert(opt_view(p) == opt_sview(project));
            layer.ref_path(m, sc, p)
        };
        LayerUpdate { layer, mode, scope, project, ref_path, old_oid, new_oid }
    }

    /// A copy of the update.
    pub fn duplicate(&self) -> (r: Self)
        ensures
            r == *self,
    {
        LayerUpdate {
            layer: self.layer,
            mode: clone_opt(&self.mode),
            scope: clone_opt(&self.scope),
            project: clone_opt(&self.project),
            ref_path: self.ref_path.clone(),
            old_oid: clone_opt(&self.old_oid),
            new_oid: self.new_oid.clone(),
        }
    }
}

/// A ref set to a new commit.
#[derive(Debug)]
pub struct RefTarget {
    /// The ref path.
    pub ref_path: String,
    /// The commit it will point to.
    pub new_oid: String,
}

/// One step of restoring a ref.
#[derive(Debug)]
pub enum RefRestore {
    /// Point the ref back at a commit.
    Point { ref_path: String, oid: String },
    /// Remove a ref that did not exist before.
    Delete { ref_path: String },
}

/// The ref store as a map from ref path to commit id.
pub type RefMap = Map<Seq<char>, Seq<char>>;

/// The refs after the updates are applied in order.
pub open spec fn apply_updates(m: RefMap, us: Seq<LayerUpdate>) -> RefMap
    decreases us.len(),
{
    if us.len() == 0 {
        m
    } else {
        apply_updates(m, us.drop_last()).insert(us.last().ref_path@, us.last().new_oid@)
    }
}

/// The refs after a restore step.
pub open spec fn apply_restore(m: RefMap, r: RefRestore) -> RefMap {
    match r {
        RefRestore::Point { ref_path, oid } => m.insert(ref_path@, oid@),
        RefRestore::Delete { ref_path } => m.remove(ref_path@),
    }
}

/// The refs after the restore steps are applied in order.
pub open spec fn apply_restores(m: RefMap, rs: Seq<RefRestore>) -> RefMap
    decreases rs.len(),
{
    if rs.len() == 0 {
        m
    } else {
        apply_restore(apply_restores(m, rs.drop_last()), rs.last())
    }
}

/// Whether an update can be undone: its old value, if any, is a valid id.
pub open spec fn restorable(u: LayerUpdate) -> bool {
    match u.old_oid {
        Some(o) => hex_oid_spec(o@),
        None => true,
    }
}

/// Whether a restore step undoes an update.
pub open spec fn restore_of(u: LayerUpdate, r: RefRestore) -> bool {
    match u.old_oid {
        Some(o) => r matches RefRestore::Point { ref_path, oid } && ref_path@ == u.ref_path@ && oid@
            == o@,
        None => r matches RefRestore::Delete { ref_path } && ref_path@ == u.ref_path@,
    }
}

/// Whether `rs` is the rollback plan of `us`: one undoing step per
/// restorable update, in order; an update whose old id does not parse is
/// skipped.
pub open spec fn is_rollback_plan(us: Seq<LayerUpdate>, rs: Seq<RefRestore>) -> bool
    decreases us.len(),
{
    if us.len() == 0 {
        rs.len() == 0
    } else if restorable(us.last()) {
        rs.len() > 0 && restore_of(us.last(), rs.last()) && is_rollback_plan(
            us.drop_last(),
            rs.drop_last(),
        )
    } else {
        is_rollback_plan(us.drop_last(), rs)
    }
}

/// Whether `ts` lists the ref targets of `us`, in order.
pub open spec fn is_target_list(us: Seq<LayerUpdate>, ts: Seq<RefTarget>) -> bool {
    ts.len() == us.len() && forall|i: int|
        0 <= i < us.len() ==> (#[trigger] ts[i]).ref_path@ == us[i].ref_path@ && ts[i].new_oid@
            == us[i].new_oid@
}

/// Whether every queued update points at a valid id.
pub open spec fn all_targets_valid(us: Seq<LayerUpdate>) -> bool {
    forall|i: int| 0 <= i < us.len() ==> hex_oid_spec((#[trigger] us[i]).new_oid@)
}

/// The rollback plan of a list of updates.
pub fn rollback_plan(updates: &Vec<LayerUpdate>) -> (r: Vec<RefRestore>)
    ensures
        is_rollback_plan(updates@, r@),
{
    let mut out: Vec<RefRestore> = Vec::new();
    let mut i: usize = 0;
    while i < updates.len()
        invariant
            i <= updates@.len(),
            is_rollback_plan(updates@.subrange(0, i as int), out@),
        decreases updates@.len() - i,
    {
        let u = &updates[i];
        let ghost pre = updates@.subrange(0, i as int);
        assert(updates@.subrange(0, i + 1).drop_last() =~= pre);
        let ghost before = out@;
        match &u.old_oid {
            Some(o) => {
                if parse_oid(o.as_str()).is_ok() {
                    out.push(RefRestore::Point { ref_path: u.ref_path.clone(), oid: o.clone() });
                    assert(out@.drop_last() =~= before);
                }
            },
            None => {
                out.push(RefRestore::Delete { ref_path: u.ref_path.clone() });
                assert(out@.drop_last() =~= before);
            },
        }
        i = i + 1;
    }
    assert(updates@.subrange(0, updates@.len() as int) =~= updates@);
    out
}

/// The ref targets of a list of updates, in order.
pub fn target_list(updates: &Vec<LayerUpdate>) -> (r: Vec<RefTarget>)
    ensures
        is_target_list(updates@, r@),
{
    let mut out: Vec<RefTarget> = Vec::new();
    let mut i: usize = 0;
    while i < updates.len()
        invariant
            i <= updates@.len(),
            out@.len() == i,
            forall|k: int|
                0 <= k < i ==> (#[trigger] out@[k]).ref_path@ == updates@[k].ref_path@
                    && out@[k].new_oid@ == updates@[k].new_oid@,
        decreases updates@.len() - i,
    {
        out.push(
            RefTarget { ref_path: updates[i].ref_path.clone(), new_oid: updates[i].new_oid.clone() },
        );
        i = i + 1;
    }
    out
}

/// Whether update `i` is the first whose new id does not parse.
pub open spec fn first_invalid_at(us: Seq<LayerUpdate>, i: int) -> bool {
    &&& 0 <= i < us.len()
    &&& !hex_oid_spec(us[i].new_oid@)
    &&& forall|k: int| 0 <= k < i ==> hex_oid_spec(#[trigger] us[k].new_oid@)
}

/// The first update whose new id does not parse, with libgit2's message.
fn first_invalid_target(updates: &Vec<LayerUpdate>) -> (r: Option<(usize, String)>)
    ensures
        r is None <==> all_targets_valid(updates@),
        r matches Some((i, d)) ==> first_invalid_at(updates@, i as int) && d@ == oid_error_text(
            updates@[i as int].new_oid@,
        ),
{
    let mut i: usize = 0;
    while i < updates.len()
        invariant
            i <= updates@.len(),
            forall|k: int| 0 <= k < i ==> hex_oid_spec(#[trigger] updates@[k].new_oid@),
        decreases updates@.len() - i,
    {
        match parse_oid(updates[i].new_oid.as_str()) {
            Ok(()) => {},
            Err(msg) => {
                return Some((i, msg));
            },
        }
        i = i + 1;
    }
    None
}

/// The persistent log of a transaction.
#[derive(Debug)]
pub struct TransactionLog {
    /// Version of the log format.
    pub version: u32,
    /// Transaction id (time-based).
    pub id: String,
    /// Current state of the transaction.
    pub state: TransactionState,
    /// When the transaction started (RFC 3339).
    pub started_at: String,
    /// Commit message of the transaction.
    pub message: String,
    /// All queued layer updates.
    pub updates: Vec<LayerUpdate>,
    /// Directory that holds the `.jin` directory of the log, if not the
    /// current one.
    pub base_path: Option<String>,
}

/// Where the log of a transaction lives.
pub open spec fn log_path_spec(base_path: Option<Seq<char>>) -> Seq<char> {
    match base_path {
        Some(b) => join_path_spec(join_path_spec(b, ".jin"@), ".transaction_in_progress"@),
        None => ".jin/.transaction_in_progress"@,
    }
}

impl TransactionLog {
    /// A new pending log with the given commit message, its id and start
    /// time read from the clock. A clock that reads no time from 1970 to
    /// the end of chrono's range leaves both empty.
    pub fn new(message: String) -> (r: Self)
        ensures
            r.version == 1,
            r.state == TransactionState::Pending,
            r.message == message,
            r.updates@.len() == 0,
            r.base_path is None,
            r.id@.len() == 0 || compact_time_text(r.id@),
            r.started_at@.len() == 0 || rfc3339_utc_text(r.started_at@),
    {
        let id = match utc_now_compact() {
            Some(t) => t,
            None => String::new(),
        };
        let started_at = match utc_now_rfc3339() {
            Some(t) => t,
            None => String::new(),
        };
        TransactionLog {
            version: 1,
            id,
            state: TransactionState::Pending,
            started_at,
            message,
            updates: Vec::new(),
            base_path: None,
        }
    }

    /// A new pending log kept under the given base directory.
    pub fn with_base_path(message: String, base_path: String) -> (r: Self)
        ensures
            r.version == 1,
            r.state == TransactionState::Pending,
            r.message == message,
            r.updates@.len() == 0,
            r.base_path == Some(base_path),
            r.id@.len() == 0 || compact_time_text(r.id@),
            r.started_at@.len() == 0 || rfc3339_utc_text(r.started_at@),
    {
        let mut log = Self::new(message);
        log.base_path = Some(base_path);
        log
    }

    /// The default log path, relative to the current directory.
    pub fn default_path() -> (r: String)
        ensures
            r@ == log_path_spec(None),
    {
        ".jin/.transaction_in_progress".to_owned()
    }

    /// The path of this log.
    pub fn path(&self) -> (r: String)
        ensures
            r@ == log_path_spec(opt_sview(self.base_path)),
    {
        match &self.base_path {
            Some(b) => {
                let jin = join_path(b.as_str(), ".jin");
                join_path(jin.as_str(), ".transaction_in_progress")
            },
            None => Self::default_path(),
        }
    }
}

/// A multi-layer transaction: the log and its two-phase protocol.
#[derive(Debug)]
pub struct LayerTransaction {
    /// The log of the transaction.
    pub log: TransactionLog,
}

/// What the caller does next when a transaction commits.
#[derive(Debug)]
pub enum CommitStep {
    /// Nothing was queued: delete the log; the commit is done.
    Done,
    /// Save the prepared log, apply these ref updates in one Git
    /// transaction, then report the outcome to `finish`.
    Apply(Vec<RefTarget>),
    /// A queued id is invalid: apply the restore plan, delete the log and
    /// fail with the error.
    Rollback(JinError, Vec<RefRestore>),
}

/// The message that refuses a transaction while an earlier one is
/// incomplete.
pub open spec fn incomplete_message() -> Seq<char> {
    "Incomplete transaction exists. Run recovery first."@
}

/// The message of a transaction error about an invalid id.
pub open spec fn invalid_oid_message(oid: Seq<char>, detail: Seq<char>) -> Seq<char> {
    "Invalid OID "@ + oid + ": "@ + detail
}

impl LayerTransaction {
    /// Begins a transaction. `incomplete_exists` says whether the log of an
    /// earlier transaction is still on disk; then recovery comes first.
    pub fn begin(incomplete_exists: bool, message: String) -> (r: Result<Self, JinError>)
        ensures
            r is Err <==> incomplete_exists,
            r matches Err(e) ==> (e matches JinError::Transaction(m) && m@ == incomplete_message()),
            r matches Ok(t) ==> t.log.state == TransactionState::Pending && t.log.message == message
                && t.log.updates@.len() == 0 && t.log.base_path is None && t.log.version == 1
                && (t.log.id@.len() == 0 || compact_time_text(t.log.id@)) && (t.log.started_at@.len() == 0
                || rfc3339_utc_text(t.log.started_at@)),
    {
        if incomplete_exists {
            return Err(
                JinError::Transaction("Incomplete transaction exists. Run recovery first.".to_owned()),
            );
        }
        Ok(LayerTransaction { log: TransactionLog::new(message) })
    }

    /// Begins a transaction whose log lives under `base_path`.
    pub fn begin_with_path(incomplete_exists: bool, message: String, base_path: String) -> (r:
        Result<Self, JinError>)
        ensures
            r is Err <==> incomplete_exists,
            r matches Err(e) ==> (e matches JinError::Transaction(m) && m@ == incomplete_message()),
            r matches Ok(t) ==> t.log.state == TransactionState::Pending && t.log.message == message
                && t.log.updates@.len() == 0 && t.log.base_path == Some(base_path) && (t.log.id@.len() == 0
                || compact_time_text(t.log.id@)) && (t.log.started_at@.len() == 0 || rfc3339_utc_text(
                t.log.started_at@,
            )),
    {
        if incomplete_exists {
            return Err(
                JinError::Transaction("Incomplete transaction exists. Run recovery first.".to_owned()),
            );
        }
        Ok(LayerTransaction { log: TransactionLog::with_base_path(message, base_path) })
    }

    /// Queues an update of a layer ref; `old_oid` is the ref's current
    /// target, or `None` if the ref does not exist.
    pub fn add_layer_update(
        &mut self,
        layer: Layer,
        mode: Option<&str>,
        scope: Option<&str>,
        project: Option<&str>,
        old_oid: Option<String>,
        new_commit: String,
    )
        ensures
            final(self).log.state == old(self).log.state,
            final(self).log.message == old(self).log.message,
            final(self).log.base_path == old(self).log.base_path,
            final(self).log.updates@.len() == old(self).log.updates@.len() + 1,
            final(self).log.updates@.drop_last() == old(self).log.updates@,
            final(self).log.updates@.last().layer == layer,
            opt_sview(final(self).log.updates@.last().mode) == opt_view(mode),
            opt_sview(final(self).log.updates@.last().scope) == opt_view(scope),
            opt_sview(final(self).log.updates@.last().project) == opt_view(project),
            final(self).log.updates@.last().ref_path@ == ref_path_spec(layer, opt_view(mode), opt_view(scope), opt_view(project)),
            final(self).log.updates@.last().old_oid == old_oid,
            final(self).log.updates@.last().new_oid == new_commit,
    {
        let m = match mode {
            Some(s) => Some(s.to_owned()),
            None => None,
        };
        let s = match scope {
            Some(x) => Some(x.to_owned()),
            None => None,
        };
        let p = match project {
            Some(x) => Some(x.to_owned()),
            None => None,
        };
        let update = LayerUpdate::new(layer, m, s, p, old_oid, new_commit);
        let ghost before = self.log.updates@;
        self.log.updates.push(update);
        assert(self.log.updates@.drop_last() =~= before);
    }

    /// Starts committing. With nothing queued the transaction is done.
    /// Otherwise it becomes `Prepared` and yields the ref updates to apply,
    /// or, when a queued id is invalid, becomes `Aborted` and yields the
    /// error and the restore plan.
    pub fn commit(&mut self) -> (r: CommitStep)
        ensures
            final(self).log.updates@ == old(self).log.updates@,
            final(self).log.message == old(self).log.message,
            old(self).log.updates@.len() == 0 ==> r is Done && final(self).log.state
                == TransactionState::Committed,
            old(self).log.updates@.len() > 0 && all_targets_valid(old(self).log.updates@) ==> (
            r matches CommitStep::Apply(ts) && is_target_list(old(self).log.updates@, ts@)
                && final(self).log.state == TransactionState::Prepared),
            old(self).log.updates@.len() > 0 && !all_targets_valid(old(self).log.updates@) ==> (
            r matches CommitStep::Rollback(JinError::Transaction(m), rs) && (exists|i: int|
                first_invalid_at(old(self).log.updates@, i) && m@ == invalid_oid_message(
                    old(self).log.updates@[i].new_oid@,
                    oid_error_text(old(self).log.updates@[i].new_oid@),
                )) && is_rollback_plan(old(self).log.updates@, rs@) && final(self).log.state
                == TransactionState::Aborted),
    {
        if self.log.updates.len() == 0 {
            self.log.state = TransactionState::Committed;
            return CommitStep::Done;
        }
        self.log.state = TransactionState::Prepared;
        match first_invalid_target(&self.log.updates) {
            None => CommitStep::Apply(target_list(&self.log.updates)),
            Some((i, detail)) => {
                let msg = concat4("Invalid OID ", self.log.updates[i].new_oid.as_str(), ": ", detail.as_str());
                self.log.state = TransactionState::Aborted;
                CommitStep::Rollback(JinError::Transaction(msg), rollback_plan(&self.log.updates))
            },
        }
    }

    /// Finishes a prepared commit with the outcome of applying its ref
    /// updates: on success it is `Committed` and nothing is restored; on
    /// failure it is `Aborted` and the result is the restore plan.
    pub fn finish(&mut self, applied: bool) -> (r: Vec<RefRestore>)
        requires
            old(self).log.state == TransactionState::Prepared,
        ensures
            final(self).log.updates@ == old(self).log.updates@,
            applied ==> final(self).log.state == TransactionState::Committed && r@.len() == 0,
            !applied ==> final(self).log.state == TransactionState::Aborted && is_rollback_plan(
                old(self).log.updates@,
                r@,
            ),
    {
        if applied {
            self.log.state = TransactionState::Committed;
            Vec::new()
        } else {
            self.log.state = TransactionState::Aborted;
            rollback_plan(&self.log.updates)
        }
    }

    /// Aborts the transaction without applying anything.
    pub fn abort(&mut self)
        ensures
            final(self).log.state == TransactionState::Aborted,
            final(self).log.updates@ == old(self).log.updates@,
    {
        self.log.state = TransactionState::Aborted;
    }

    /// The number of queued updates.
    pub fn update_count(&self) -> (r: usize)
        ensures
            r == self.log.updates@.len(),
    {
        self.log.updates.len()
    }

    /// The transaction id.
    pub fn id(&self) -> (r: &str)
        ensures
            r@ == self.log.id@,
    {
        self.log.id.as_str()
    }
}

/// An incomplete transaction found at startup.
#[derive(Debug)]
pub struct IncompleteTransaction {
    /// The log left on disk.
    pub log: TransactionLog,
}

impl IncompleteTransaction {
    /// The transaction state.
    pub fn state(&self) -> (r: TransactionState)
        ensures
            r == self.log.state,
    {
        self.log.state
    }

    /// The transaction id.
    pub fn id(&self) -> (r: &str)
        ensures
            r@ == self.log.id@,
    {
        self.log.id.as_str()
    }

    /// When the transaction started (RFC 3339).
    pub fn started_at(&self) -> (r: &str)
        ensures
            r@ == self.log.started_at@,
    {
        self.log.started_at.as_str()
    }

    /// The transaction message.
    pub fn message(&self) -> (r: &str)
        ensures
            r@ == self.log.message@,
    {
        self.log.message.as_str()
    }

    /// The number of queued updates.
    pub fn update_count(&self) -> (r: usize)
        ensures
            r == self.log.updates@.len(),
    {
        self.log.updates.len()
    }

    /// The queued updates.
    pub fn updates(&self) -> (r: &[LayerUpdate])
        ensures
            r@ == self.log.updates@,
    {
        self.log.updates.as_slice()
    }

    /// The plan that rolls the transaction back: each ref returns to its
    /// recorded old value, and refs that did not exist are removed.
    pub fn rollback(&self) -> (r: Vec<RefRestore>)
        ensures
            is_rollback_plan(self.log.updates@, r@),
    {
        rollback_plan(&self.log.updates)
    }

    /// The ref updates that complete the transaction; only a prepared
    /// transaction can be resumed.
    pub fn resume(&self) -> (r: Result<Vec<RefTarget>, JinError>)
        ensures
            r is Ok <==> self.log.state == TransactionState::Prepared && all_targets_valid(
                self.log.updates@,
            ),
            r matches Ok(ts) ==> is_target_list(self.log.updates@, ts@),
            self.log.state != TransactionState::Prepared ==> (r matches Err(JinError::Transaction(m))
                && m@ == "Can only resume transactions in Prepared state"@),
            self.log.state == TransactionState::Prepared && !all_targets_valid(self.log.updates@) ==> (
            r matches Err(JinError::Transaction(m)) && exists|i: int|
                first_invalid_at(self.log.updates@, i) && m@ == "Invalid OID: "@ + oid_error_text(
                    self.log.updates@[i].new_oid@,
                )),
    {
        if self.log.state != TransactionState::Prepared {
            return Err(
                JinError::Transaction("Can only resume transactions in Prepared state".to_owned()),
            );
        }
        match first_invalid_target(&self.log.updates) {
            None => Ok(target_list(&self.log.updates)),
            Some((_, detail)) => Err(JinError::Transaction(concat2("Invalid OID: ", detail.as_str()))),
        }
    }
}

/// Detection and recovery of incomplete transactions.
#[derive(Debug)]
pub struct RecoveryManager;

impl RecoveryManager {
    /// The incomplete transaction, given the log loaded from the default
    /// path (the log's base directory is then the current directory).
    pub fn detect(loaded: Option<TransactionLog>) -> (r: Option<IncompleteTransaction>)
        ensures
            r is Some <==> loaded is Some,
            r matches Some(t) ==> (loaded matches Some(l) && t.log.updates == l.updates
                && t.log.state == l.state && t.log.id == l.id && t.log.started_at == l.started_at
                && t.log.message == l.message
                && opt_sview(t.log.base_path) == Some(Seq::<char>::empty())),
    {
        match loaded {
            Some(mut log) => {
                log.base_path = Some(String::new());
                Some(IncompleteTransaction { log })
            },
            None => None,
        }
    }

    /// The path of the log under a base directory.
    pub fn log_path_at(base_path: &str) -> (r: String)
        ensures
            r@ == log_path_spec(Some(base_path@)),
    {
        let jin = join_path(base_path, ".jin");
        join_path(jin.as_str(), ".transaction_in_progress")
    }

    /// The incomplete transaction, given the log loaded from under
    /// `base_path`.
    pub fn detect_at(base_path: &str, loaded: Option<TransactionLog>) -> (r: Option<
        IncompleteTransaction,
    >)
        ensures
            r is Some <==> loaded is Some,
            r matches Some(t) ==> (loaded matches Some(l) && t.log.updates == l.updates
                && t.log.state == l.state && t.log.id == l.id && t.log.started_at == l.started_at
                && t.log.message == l.message
                && opt_sview(t.log.base_path) == Some(base_path@)),
    {
        match loaded {
            Some(mut log) => {
                log.base_path = Some(base_path.to_owned());
                Some(IncompleteTransaction { log })
            },
            None => None,
        }
    }

    /// The recovery to perform: with an incomplete transaction, its
    /// rollback plan (after which the log is deleted); otherwise none.
    pub fn auto_recover(detected: &Option<IncompleteTransaction>) -> (r: Option<Vec<RefRestore>>)
        ensures
            r is Some <==> detected is Some,
            r matches Some(rs) ==> is_rollback_plan(detected->Some_0.log.updates@, rs@),
    {
        match detected {
            Some(t) => Some(t.rollback()),
            None => None,
        }
    }

    /// The recovery to perform for a transaction found under a base
    /// directory.
    pub fn auto_recover_at(base_path: &str, detected: &Option<IncompleteTransaction>) -> (r: Option<
        Vec<RefRestore>,
    >)
        ensures
            r is Some <==> detected is Some,
            r matches Some(rs) ==> is_rollback_plan(detected->Some_0.log.updates@, rs@),
    {
        Self::auto_recover(detected)
    }
}

/// Two ref maps agree on a ref.
pub open spec fn agree_at(a: RefMap, b: RefMap, k: Seq<char>) -> bool {
    &&& a.dom().contains(k) == b.dom().contains(k)
    &&& a.dom().contains(k) ==> a[k] == b[k]
}

/// Some update of the list writes the ref.
pub open spec fn touches(us: Seq<LayerUpdate>, k: Seq<char>) -> bool {
    exists|i: int| 0 <= i < us.len() && (#[trigger] us[i]).ref_path@ == k
}

/// An update recorded the value the ref had in `m` before the transaction,
/// and that value is a valid id.
pub open spec fn recorded_from(u: LayerUpdate, m: RefMap) -> bool {
    match u.old_oid {
        Some(o) => m.dom().contains(u.ref_path@) && m[u.ref_path@] == o@ && hex_oid_spec(o@),
        None => !m.dom().contains(u.ref_path@),
    }
}

proof fn lemma_touches_drop_last(us: Seq<LayerUpdate>, k: Seq<char>)
    requires
        us.len() > 0,
        us.last().ref_path@ != k,
    ensures
        touches(us, k) == touches(us.drop_last(), k),
{
    if touches(us, k) {
        let i = choose|i: int| 0 <= i < us.len() && (#[trigger] us[i]).ref_path@ == k;
        assert(i < us.len() - 1);
        assert(us.drop_last()[i] == us[i]);
    }
    if touches(us.drop_last(), k) {
        let i = choose|i: int| 0 <= i < us.drop_last().len() && (#[trigger] us.drop_last()[i]).ref_path@ == k;
        assert(us[i] == us.drop_last()[i]);
    }
}

proof fn lemma_updates_untouched(m: RefMap, us: Seq<LayerUpdate>, k: Seq<char>)
    requires
        !touches(us, k),
    ensures
        agree_at(apply_updates(m, us), m, k),
    decreases us.len(),
{
    if us.len() > 0 {
        assert(us[us.len() - 1].ref_path@ != k);
        lemma_touches_drop_last(us, k);
        lemma_updates_untouched(m, us.drop_last(), k);
    }
}

proof fn lemma_restores_effect(
    m: RefMap,
    x: RefMap,
    us: Seq<LayerUpdate>,
    rs: Seq<RefRestore>,
    k: Seq<char>,
)
    requires
        is_rollback_plan(us, rs),
        forall|i: int| 0 <= i < us.len() ==> recorded_from(#[trigger] us[i], m),
    ensures
        touches(us, k) ==> agree_at(apply_restores(x, rs), m, k),
        !touches(us, k) ==> agree_at(apply_restores(x, rs), x, k),
    decreases us.len(),
{
    if us.len() == 0 {
        assert(!touches(us, k));
    } else {
        let u = us.last();
        let us2 = us.drop_last();
        assert(recorded_from(us[us.len() - 1], m));
        assert(restorable(u));
        assert forall|i: int| 0 <= i < us2.len() implies recorded_from(#[trigger] us2[i], m) by {
            assert(us2[i] == us[i]);
        }
        lemma_restores_effect(m, x, us2, rs.drop_last(), k);
        if u.ref_path@ == k {
            assert(touches(us, k)) by {
                assert(us[us.len() - 1].ref_path@ == k);
            }
        } else {
            lemma_touches_drop_last(us, k);
        }
    }
}

/// Law: rolling back restores every ref. When each queued update recorded
/// the value its ref had before (a valid id, or no ref at all), applying
/// the updates and then the rollback plan leaves the refs exactly as they
/// were.
pub proof fn lemma_rollback_restores(m: RefMap, us: Seq<LayerUpdate>, rs: Seq<RefRestore>)
    requires
        is_rollback_plan(us, rs),
        forall|i: int| 0 <= i < us.len() ==> recorded_from(#[trigger] us[i], m),
    ensures
        apply_restores(apply_updates(m, us), rs) == m,
{
    let a = apply_updates(m, us);
    let b = apply_restores(a, rs);
    assert forall|k: Seq<char>| agree_at(b, m, k) by {
        lemma_restores_effect(m, a, us, rs, k);
        if !touches(us, k) {
            lemma_updates_untouched(m, us, k);
        }
    }
    assert forall|k: Seq<char>| b.dom().contains(k) <==> m.dom().contains(k) by {
        assert(agree_at(b, m, k));
    }
    assert forall|k: Seq<char>| b.dom().contains(k) implies b[k] == m[k] by {
        assert(agree_at(b, m, k));
    }
    assert(b =~= m);
}

} // verus!
