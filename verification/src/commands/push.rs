//! `jin push`: which layer refs are pushed, with which refspecs, and how
//! a failed push is reported. The user-local layer is never pushed.

use vstd::prelude::*;
use vstd::string::*;
use crate::commands::common::strs;
use crate::commands::config::loaded_config;
use crate::model::config::JinConfig;
use crate::model::error::JinError;
use crate::model::layer::{ref_path_spec, Layer};
use crate::text::{
    concat3, concat4, contains_spec, contains_str, decimal_spec, has_prefix, str_eq, strip_prefix,
    usize_to_string,
};

verus! {

/// The URL of the configured remote; without one, push cannot run.
pub fn remote_url(config: Result<JinConfig, JinError>) -> (r: Result<String, JinError>)
    ensures
        match loaded_config(config) {
            Err(e) => r == Err::<String, JinError>(e),
            Ok(c) => match c.remote {
                None => r matches Err(JinError::Config(m)) && m@
                    == "No remote configured. Run 'jin link <url>'."@,
                Some(remote) => r matches Ok(url) && url@ == remote.0,
            },
        },
{
    let config = config?;
    match config.remote {
        Some(remote) => Ok(remote.url),
        None => Err(JinError::Config("No remote configured. Run 'jin link <url>'.".to_owned())),
    }
}

/// Whether a layer ref belongs to the user-local layer, which stays on
/// this machine.
pub open spec fn is_local_ref(name: Seq<char>) -> bool {
    contains_spec(name, "/local"@)
}

/// The refs of a listing that may be pushed, in order.
pub open spec fn shareable(refs: Seq<Seq<char>>) -> Seq<Seq<char>>
    decreases refs.len(),
{
    if refs.len() == 0 {
        seq![]
    } else if is_local_ref(refs.last()) {
        shareable(refs.drop_last())
    } else {
        shareable(refs.drop_last()).push(refs.last())
    }
}

/// The refs of a listing that may be pushed, in order.
pub fn shareable_refs(refs: &Vec<String>) -> (r: Vec<String>)
    ensures
        strs(r@) == shareable(strs(refs@)),
{
    let mut out: Vec<String> = Vec::new();
    let mut i: usize = 0;
    while i < refs.len()
        invariant
            i <= refs@.len(),
            strs(out@) == shareable(strs(refs@).subrange(0, i as int)),
        decreases refs@.len() - i,
    {
        assert(strs(refs@).subrange(0, i + 1).drop_last() =~= strs(refs@).subrange(0, i as int));
        assert(strs(refs@).subrange(0, i + 1).last() == refs@[i as int]@);
        if !contains_str(refs[i].as_str(), "/local") {
            let ghost o0 = out@;
            out.push(refs[i].clone());
            assert(strs(out@) =~= strs(o0).push(refs@[i as int]@));
        }
        i = i + 1;
    }
    assert(strs(refs@).subrange(0, refs@.len() as int) =~= strs(refs@));
    out
}

/// `s` without every leading repetition of `p`.
pub open spec fn trim_start_all(s: Seq<char>, p: Seq<char>) -> Seq<char>
    decreases s.len(),
{
    if p.len() > 0 && has_prefix(s, p) {
        trim_start_all(s.subrange(p.len() as int, s.len() as int), p)
    } else {
        s
    }
}

/// The path of a remote that can be opened directly: a `file://` URL
/// without its scheme, or an absolute path; other remotes have none.
pub open spec fn local_remote_path(url: Seq<char>) -> Option<Seq<char>> {
    if has_prefix(url, "file://"@) {
        Some(trim_start_all(url, "file://"@))
    } else if has_prefix(url, "/"@) {
        Some(url)
    } else {
        None
    }
}

/// The path of a remote that can be opened directly, to list the refs it
/// holds before fetching.
pub fn remote_path(url: &str) -> (r: Option<String>)
    ensures
        match r {
            Some(p) => local_remote_path(url@) == Some(p@),
            None => local_remote_path(url@) is None,
        },
{
    if !has_file_scheme(url) {
        return match strip_prefix(url, "/") {
            Some(_) => Some(url.to_owned()),
            None => None,
        };
    }
    let mut rest = url.to_owned();
    proof {
        reveal_strlit("file://");
    }
    assert("file://"@.len() == 7);
    while has_file_scheme(rest.as_str())
        invariant
            "file://"@.len() == 7,
            trim_start_all(rest@, "file://"@) == trim_start_all(url@, "file://"@),
        decreases rest@.len(),
    {
        rest = match strip_prefix(rest.as_str(), "file://") {
            Some(t) => t,
            None => rest,
        };
    }
    Some(rest)
}

fn has_file_scheme(s: &str) -> (r: bool)
    ensures
        r == has_prefix(s@, "file://"@),
{
    match strip_prefix(s, "file://") {
        Some(_) => true,
        None => false,
    }
}

/// How a local ref relates to the same ref on the remote, as the commit
/// graph shows it.
#[derive(Debug, Clone, Copy, PartialEq, Eq, Structural)]
pub enum RefComparison {
    /// Both point to the same commit.
    Equal,
    /// The local ref has commits the remote lacks.
    Ahead,
    /// The remote ref has commits the local one lacks.
    Behind,
    /// Each has commits the other lacks.
    Diverged,
}

/// What the remote holds of a local ref.
#[derive(Debug)]
pub enum RemoteState {
    /// The remote did not have the ref before the fetch.
    Absent,
    /// The ref no longer resolves after the fetch.
    Gone,
    /// The ref is on the remote at `remote_oid`; `comparison` is how the
    /// local commit relates to it, worked out unless forcing.
    Present { remote_oid: String, comparison: Option<Result<RefComparison, JinError>> },
}

/// A local layer ref, the commit it pointed to before the fetch, and what
/// the remote holds of it.
#[derive(Debug)]
pub struct RefState {
    /// The ref name.
    pub name: String,
    /// The commit of the local ref before the fetch.
    pub local_oid: String,
    /// What the remote holds of it.
    pub remote: RemoteState,
}

/// What happens to one ref: pushed, skipped, or the push refused.
pub enum RefVerdict {
    /// The ref is pushed.
    Push,
    /// The ref is left alone.
    Skip,
    /// The push stops with this error.
    Stop(JinError),
}

/// What happens to one ref: a ref the remote lacks is new and pushed;
/// with `force` a ref is pushed where it differs; otherwise it is pushed
/// when ahead, skipped when equal, and behind or diverged refs stop the
/// push.
pub open spec fn verdict(s: RefState, force: bool) -> RefVerdict {
    match s.remote {
        RemoteState::Absent => RefVerdict::Push,
        RemoteState::Gone => RefVerdict::Skip,
        RemoteState::Present { remote_oid, comparison } => if force {
            if s.local_oid@ != remote_oid@ {
                RefVerdict::Push
            } else {
                RefVerdict::Skip
            }
        } else {
            match comparison {
                Some(Ok(RefComparison::Ahead)) => RefVerdict::Push,
                Some(Ok(RefComparison::Equal)) => RefVerdict::Skip,
                Some(Ok(_)) => RefVerdict::Stop(JinError::BehindRemote { layer: s.name }),
                Some(Err(e)) => RefVerdict::Stop(e),
                None => RefVerdict::Skip,
            }
        },
    }
}

/// Whether every ref on the remote comes with its comparison, as it must
/// when not forcing.
pub open spec fn compared(refs: Seq<RefState>) -> bool {
    forall|i: int|
        0 <= i < refs.len() ==> ((#[trigger] refs[i]).remote matches RemoteState::Present {
            comparison,
            ..
        } ==> comparison is Some)
}

/// The outcome of going through the refs in order: the names to push, or
/// the error of the first ref that stops the push.
pub open spec fn push_outcome(refs: Seq<RefState>, force: bool) -> Result<Seq<Seq<char>>, JinError>
    decreases refs.len(),
{
    if refs.len() == 0 {
        Ok(seq![])
    } else {
        match push_outcome(refs.drop_last(), force) {
            Err(e) => Err(e),
            Ok(names) => match verdict(refs.last(), force) {
                RefVerdict::Push => Ok(names.push(refs.last().name@)),
                RefVerdict::Skip => Ok(names),
                RefVerdict::Stop(e) => Err(e),
            },
        }
    }
}

/// The layer refs to push, in the order given, or the error of the first
/// ref that is behind or diverged from the remote (or whose comparison
/// failed).
#[verifier::loop_isolation(false)]
pub fn detect_modified_layers(refs: Vec<RefState>, force: bool) -> (r: Result<Vec<String>, JinError>)
    requires
        !force ==> compared(refs@),
    ensures
        match push_outcome(refs@, force) {
            Ok(names) => r matches Ok(v) && strs(v@) == names,
            Err(e) => r == Err::<Vec<String>, JinError>(e),
        },
{
    let ghost all = refs@;
    let mut out: Vec<String> = Vec::new();
    let mut rest = refs;
    let ghost mut taken: Seq<RefState> = seq![];
    assert(strs(out@) =~= seq![]);
    while rest.len() > 0
        invariant
            taken + rest@ =~= all,
            push_outcome(taken, force) == Ok::<Seq<Seq<char>>, JinError>(strs(out@)),
            !force ==> compared(all),
        decreases rest@.len(),
    {
        let ghost before = rest@;
        let s = rest.remove(0);
        assert(before =~= seq![s] + rest@);
        assert(all[taken.len() as int] == s);
        let ghost sv = s;
        let ghost t0 = taken;
        proof {
            taken = taken.push(sv);
            assert(taken.drop_last() =~= t0);
        }
        let ghost o0 = out@;
        match s.remote {
            RemoteState::Absent => {
                out.push(s.name);
                assert(strs(out@) =~= strs(o0).push(sv.name@));
            },
            RemoteState::Gone => {},
            RemoteState::Present { remote_oid, comparison } => {
                if force {
                    if !str_eq(s.local_oid.as_str(), remote_oid.as_str()) {
                        out.push(s.name);
                        assert(strs(out@) =~= strs(o0).push(sv.name@));
                    }
                } else {
                    match comparison {
                        Some(Ok(RefComparison::Ahead)) => {
                            out.push(s.name);
                            assert(strs(out@) =~= strs(o0).push(sv.name@));
                        },
                        Some(Ok(RefComparison::Equal)) => {},
                        Some(Ok(_)) => {
                            proof {
                                assert(t0 + seq![sv] + rest@ =~= all);
                                assert(taken + rest@ =~= all);
                                assert(taken.last() == sv);
                                lemma_stop_extends(taken, rest@, force);
                            }
                            return Err(JinError::BehindRemote { layer: s.name });
                        },
                        Some(Err(e)) => {
                            proof {
                                assert(t0 + seq![sv] + rest@ =~= all);
                                assert(taken + rest@ =~= all);
                                assert(taken.last() == sv);
                                lemma_stop_extends(taken, rest@, force);
                            }
                            return Err(e);
                        },
                        None => {},
                    }
                }
            },
        }
    }
    assert(taken =~= all);
    Ok(out)
}

/// A push stopped by some ref stays stopped whatever refs follow.
proof fn lemma_stop_extends(a: Seq<RefState>, b: Seq<RefState>, force: bool)
    requires
        push_outcome(a, force) is Err,
    ensures
        push_outcome(a + b, force) == push_outcome(a, force),
    decreases b.len(),
{
    if b.len() == 0 {
        assert(a + b =~= a);
    } else {
        lemma_stop_extends(a, b.drop_last(), force);
        assert((a + b).drop_last() =~= a + b.drop_last());
    }
}

/// The refspec that pushes a ref to the same name, forced with a `+`.
pub open spec fn refspec_spec(name: Seq<char>, force: bool) -> Seq<char> {
    (if force {
        "+"@
    } else {
        seq![]
    }) + name + ":"@ + name
}

/// The refspecs of the refs to push.
pub fn refspecs(names: &Vec<String>, force: bool) -> (r: Vec<String>)
    ensures
        strs(r@) == strs(names@).map_values(|n: Seq<char>| refspec_spec(n, force)),
{
    let mut out: Vec<String> = Vec::new();
    let mut i: usize = 0;
    while i < names.len()
        invariant
            i <= names@.len(),
            strs(out@) == strs(names@).subrange(0, i as int).map_values(|n: Seq<char>| refspec_spec(n, force)),
        decreases names@.len() - i,
    {
        let n = names[i].as_str();
        let spec = if force {
            concat4("+", n, ":", n)
        } else {
            concat3(n, ":", n)
        };
        proof {
            reveal_strlit("");
        }
        assert(spec@ =~= refspec_spec(n@, force));
        let ghost o0 = out@;
        out.push(spec);
        assert(strs(names@).subrange(0, i + 1).map_values(|n: Seq<char>| refspec_spec(n, force)) =~= strs(
            names@,
        ).subrange(0, i as int).map_values(|n: Seq<char>| refspec_spec(n, force)).push(refspec_spec(n@, force)));
        assert(strs(out@) =~= strs(o0).push(refspec_spec(n@, force)));
        i = i + 1;
    }
    out
}

/// What `jin push` prints before pushing: the warning of a forced push,
/// then the remote it pushes to.
pub fn announce(force: bool, url: &str) -> (r: Vec<String>)
    ensures
        strs(r@) == (if force {
            seq![
                "WARNING: Force push will overwrite remote changes!"@,
                "This may cause data loss for other team members."@,
            ]
        } else {
            seq![]
        }) + seq!["Pushing to origin ("@ + url@ + ")..."@],
{
    let mut lines: Vec<String> = Vec::new();
    if force {
        lines.push("WARNING: Force push will overwrite remote changes!".to_owned());
        lines.push("This may cause data loss for other team members.".to_owned());
    }
    let ghost head = strs(lines@);
    lines.push(concat3("Pushing to origin (", url, ")..."));
    assert(strs(lines@) =~= head + seq!["Pushing to origin ("@ + url@ + ")..."@]);
    assert(head =~= (if force {
        seq![
            "WARNING: Force push will overwrite remote changes!"@,
            "This may cause data loss for other team members."@,
        ]
    } else {
        seq![]
    }));
    lines
}

/// What a successful push prints.
pub fn success_lines(pushed: usize) -> (r: Vec<String>)
    ensures
        strs(r@) == seq![seq![], "Successfully pushed "@ + decimal_spec(pushed as nat) + " layer(s)"@],
{
    let n = usize_to_string(pushed);
    let lines = vec![String::new(), concat3("Successfully pushed ", n.as_str(), " layer(s)")];
    assert(strs(lines@) =~= seq![seq![], "Successfully pushed "@ + decimal_spec(pushed as nat) + " layer(s)"@]);
    lines
}

/// The error of a failed push: an authentication failure, a rejected
/// non-fast-forward update, or the Git error itself.
pub fn push_error(auth_failed: bool, message: &str) -> (r: JinError)
    ensures
        auth_failed ==> (r matches JinError::Config(m) && m@ == "Authentication failed. Check your SSH keys or credentials.\nTry: ssh -T git@github.com (for GitHub)"@),
        !auth_failed && contains_spec(message@, "non-fast-forward"@) ==> (r matches JinError::Config(m) && m@
            == "Push rejected: non-fast-forward update.\nThe remote contains commits you don't have locally.\nRun 'jin pull' to merge remote changes, or use '--force' to overwrite.\nWARNING: --force may cause data loss!"@),
        !auth_failed && !contains_spec(message@, "non-fast-forward"@) ==> (r matches JinError::Git(m) && m@
            == message@),
{
    if auth_failed {
        JinError::Config(
            "Authentication failed. Check your SSH keys or credentials.\nTry: ssh -T git@github.com (for GitHub)".to_owned(),
        )
    } else if contains_str(message, "non-fast-forward") {
        JinError::Config(
            "Push rejected: non-fast-forward update.\nThe remote contains commits you don't have locally.\nRun 'jin pull' to merge remote changes, or use '--force' to overwrite.\nWARNING: --force may cause data loss!".to_owned(),
        )
    } else {
        JinError::Git(message.to_owned())
    }
}

/// The error of a missing `origin` remote.
pub fn missing_origin_error(not_found: bool, message: &str) -> (r: JinError)
    ensures
        not_found ==> (r matches JinError::Config(m) && m@
            == "Remote 'origin' not found in repository. Run 'jin link <url>'."@),
        !not_found ==> (r matches JinError::Git(m) && m@ == message@),
{
    if not_found {
        JinError::Config("Remote 'origin' not found in repository. Run 'jin link <url>'.".to_owned())
    } else {
        JinError::Git(message.to_owned())
    }
}

/// Pushing never sends the user-local layer: no ref kept for pushing is
/// local, and the ref of the user-local layer is.
pub proof fn lemma_user_local_never_pushed(refs: Seq<Seq<char>>, m: Option<Seq<char>>, sc: Option<Seq<char>>, p: Option<Seq<char>>)
    ensures
        forall|i: int| 0 <= i < shareable(refs).len() ==> !is_local_ref(#[trigger] shareable(refs)[i]),
        is_local_ref(ref_path_spec(Layer::UserLocal, m, sc, p)),
    decreases refs.len(),
{
    if refs.len() > 0 {
        lemma_user_local_never_pushed(refs.drop_last(), m, sc, p);
        let prev = shareable(refs.drop_last());
        assert forall|i: int| 0 <= i < shareable(refs).len() implies !is_local_ref(#[trigger] shareable(refs)[i]) by {
            if i < prev.len() {
                assert(shareable(refs)[i] == prev[i]);
            }
        }
    }
    reveal_strlit("refs/jin/layers/local");
    reveal_strlit("/local");
    assert(crate::text::occurs_at("refs/jin/layers/local"@, "/local"@, 15)) by {
        assert("refs/jin/layers/local"@.subrange(15, 21) =~= "/local"@);
    }
}

/// Whether a ref is on the remote and the local commit is behind it or
/// diverged from it.
pub open spec fn behind_or_diverged(s: RefState) -> bool {
    s.remote matches RemoteState::Present { comparison, .. } && (comparison == Some(
        Ok::<RefComparison, JinError>(RefComparison::Behind),
    ) || comparison == Some(Ok::<RefComparison, JinError>(RefComparison::Diverged)))
}

/// Whether a ref lets an unforced push go on: the remote lacks it, it is
/// gone, or it is equal to or behind the local commit (or not compared).
pub open spec fn passes_unforced(s: RefState) -> bool {
    match s.remote {
        RemoteState::Absent => true,
        RemoteState::Gone => true,
        RemoteState::Present { comparison, .. } => comparison is None || comparison == Some(
            Ok::<RefComparison, JinError>(RefComparison::Equal),
        ) || comparison == Some(Ok::<RefComparison, JinError>(RefComparison::Ahead)),
    }
}

/// Whether a ref may be sent: the remote lacks it; with `force` it differs
/// from the remote; without, the local commit is ahead of the remote's.
pub open spec fn may_send(s: RefState, force: bool) -> bool {
    match s.remote {
        RemoteState::Absent => true,
        RemoteState::Gone => false,
        RemoteState::Present { remote_oid, comparison } => if force {
            s.local_oid@ != remote_oid@
        } else {
            comparison == Some(Ok::<RefComparison, JinError>(RefComparison::Ahead))
        },
    }
}

/// Law: without `--force`, a ref that is behind the remote or diverged
/// from it refuses the whole push.
pub proof fn lemma_behind_or_diverged_refuses_push(refs: Seq<RefState>, i: int)
    requires
        0 <= i < refs.len(),
        behind_or_diverged(refs[i]),
    ensures
        push_outcome(refs, false) is Err,
    decreases refs.len(),
{
    if i < refs.len() - 1 {
        lemma_behind_or_diverged_refuses_push(refs.drop_last(), i);
    }
}

/// Law: without `--force`, when every ref before the `i`-th lets the push
/// go on and the `i`-th is behind or diverged, the push is refused with
/// `BehindRemote` naming that ref.
pub proof fn lemma_first_refusal_names_ref(refs: Seq<RefState>, i: int)
    requires
        0 <= i < refs.len(),
        behind_or_diverged(refs[i]),
        forall|j: int| 0 <= j < i ==> passes_unforced(#[trigger] refs[j]),
    ensures
        push_outcome(refs, false) == Err::<Seq<Seq<char>>, JinError>(
            JinError::BehindRemote { layer: refs[i].name },
        ),
    decreases refs.len(),
{
    if i < refs.len() - 1 {
        lemma_first_refusal_names_ref(refs.drop_last(), i);
    } else {
        lemma_passing_prefix_succeeds(refs.drop_last());
    }
}

/// Without `--force`, refs that all let the push go on give a list.
proof fn lemma_passing_prefix_succeeds(refs: Seq<RefState>)
    requires
        forall|j: int| 0 <= j < refs.len() ==> passes_unforced(#[trigger] refs[j]),
    ensures
        push_outcome(refs, false) is Ok,
    decreases refs.len(),
{
    if refs.len() > 0 {
        let r2 = refs.drop_last();
        assert forall|j: int| 0 <= j < r2.len() implies passes_unforced(#[trigger] r2[j]) by {
            assert(r2[j] == refs[j]);
        }
        lemma_passing_prefix_succeeds(r2);
        assert(passes_unforced(refs[refs.len() - 1]));
    }
}

/// Whether one of the refs has the name and may be sent.
pub open spec fn sendable_name(refs: Seq<RefState>, n: Seq<char>, force: bool) -> bool {
    exists|i: int| 0 <= i < refs.len() && refs[i].name@ == n && #[trigger] may_send(refs[i], force)
}

/// Law: every name a push sends is that of a ref that may be sent: new on
/// the remote, ahead of it, or, with `--force`, different from it.
pub proof fn lemma_pushed_refs_may_be_sent(refs: Seq<RefState>, force: bool)
    ensures
        push_outcome(refs, force) matches Ok(names) ==> forall|k: int|
            0 <= k < names.len() ==> #[trigger] sendable_name(refs, names[k], force),
    decreases refs.len(),
{
    if refs.len() > 0 {
        let r2 = refs.drop_last();
        lemma_pushed_refs_may_be_sent(r2, force);
        if let Ok(names) = push_outcome(refs, force) {
            let prev = push_outcome(r2, force)->Ok_0;
            assert forall|k: int| 0 <= k < names.len() implies #[trigger] sendable_name(refs, names[k], force) by {
                if k < prev.len() {
                    assert(names[k] == prev[k]);
                    assert(sendable_name(r2, prev[k], force));
                    let i = choose|i: int| 0 <= i < r2.len() && r2[i].name@ == prev[k] && #[trigger] may_send(r2[i], force);
                    assert(refs[i] == r2[i]);
                } else {
                    let l = refs.len() - 1;
                    assert(refs[l].name@ == names[k]);
                    assert(may_send(refs[l], force));
                }
            }
        }
    }
}

} // verus!
