//! Classification of the relation between a local and a remote commit.

use vstd::prelude::*;
use crate::text::str_eq;

verus! {

/// Type of merge required to integrate remote changes.
#[derive(Debug, Clone, Copy, PartialEq, Eq, Structural)]
pub enum MergeType {
    /// Local and remote are the same commit.
    UpToDate,
    /// Local is an ancestor of remote: fast-forward.
    FastForward,
    /// Remote is an ancestor of local: local is ahead.
    LocalAhead,
    /// Both have unique commits: a 3-way merge is needed.
    Divergent,
}

/// The merge type from the commit ids and the counts of commits that local
/// has and remote lacks (`ahead`) and the reverse (`behind`).
pub open spec fn merge_type_spec(same: bool, ahead: usize, behind: usize) -> MergeType {
    if same {
        MergeType::UpToDate
    } else if ahead == 0 && behind == 0 {
        MergeType::UpToDate
    } else if ahead == 0 {
        MergeType::FastForward
    } else if behind == 0 {
        MergeType::LocalAhead
    } else {
        MergeType::Divergent
    }
}

/// Detects the merge type from the two commit ids and their ahead/behind
/// counts, as `graph_ahead_behind(local, remote)` reports them.
pub fn detect_merge_type(local_oid: &str, remote_oid: &str, ahead_behind: (usize, usize)) -> (r:
    MergeType)
    ensures
        r == merge_type_spec(local_oid@ == remote_oid@, ahead_behind.0, ahead_behind.1),
{
    if str_eq(local_oid, remote_oid) {
        return MergeType::UpToDate;
    }
    let (ahead, behind) = ahead_behind;
    if ahead == 0 && behind == 0 {
        MergeType::UpToDate
    } else if ahead == 0 {
        MergeType::FastForward
    } else if behind == 0 {
        MergeType::LocalAhead
    } else {
        MergeType::Divergent
    }
}

/// Detects the merge type from ancestry: whether remote descends from
/// local and whether local descends from remote. Commits with no merge
/// base count as divergent.
pub fn detect_merge_type_with_base(
    local_oid: &str,
    remote_oid: &str,
    remote_descends_from_local: bool,
    local_descends_from_remote: bool,
) -> (r: MergeType)
    ensures
        local_oid@ == remote_oid@ ==> r == MergeType::UpToDate,
        local_oid@ != remote_oid@ && remote_descends_from_local ==> r == MergeType::FastForward,
        local_oid@ != remote_oid@ && !remote_descends_from_local && local_descends_from_remote
            ==> r == MergeType::LocalAhead,
        local_oid@ != remote_oid@ && !remote_descends_from_local && !local_descends_from_remote
            ==> r == MergeType::Divergent,
{
    if str_eq(local_oid, remote_oid) {
        return MergeType::UpToDate;
    }
    if remote_descends_from_local {
        return MergeType::FastForward;
    }
    if local_descends_from_remote {
        return MergeType::LocalAhead;
    }
    MergeType::Divergent
}

/// Law: the merge type says what each side holds that the other lacks.
/// Different commits where both sides hold commits the other lacks are
/// divergent, whatever the counts; the local ref is kept as it is (up to
/// date or ahead) exactly when the remote holds nothing the local lacks;
/// a fast-forward is exactly the case where only the remote holds new
/// commits.
pub proof fn lemma_merge_type_meaning(same: bool, ahead: usize, behind: usize)
    ensures
        merge_type_spec(same, ahead, behind) == MergeType::Divergent <==> (!same && ahead > 0 && behind
            > 0),
        (merge_type_spec(same, ahead, behind) == MergeType::UpToDate || merge_type_spec(same, ahead, behind)
            == MergeType::LocalAhead) <==> (same || behind == 0),
        merge_type_spec(same, ahead, behind) == MergeType::FastForward <==> (!same && ahead == 0 && behind
            > 0),
        merge_type_spec(same, ahead, behind) == MergeType::LocalAhead ==> ahead > 0,
{
}

} // verus!
