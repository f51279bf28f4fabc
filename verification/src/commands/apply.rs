//! `jin apply`: the state kept when an apply pauses on conflicts, and how
//! resolving a file changes it.

use vstd::prelude::*;
use vstd::string::*;
use crate::commands::common::strs;
use crate::text::str_eq;

verus! {

/// The layer configuration of a paused apply.
#[derive(Debug)]
pub struct PausedLayerConfig {
    /// The layers merged, by name.
    pub layers: Vec<String>,
    /// The active mode.
    pub mode: Option<String>,
    /// The active scope.
    pub scope: Option<String>,
    /// The project.
    pub project: Option<String>,
}

/// An apply paused on conflicts.
#[derive(Debug)]
pub struct PausedApplyState {
    /// When the apply paused (RFC 3339).
    pub timestamp: String,
    /// The layer configuration of the merge.
    pub layer_config: PausedLayerConfig,
    /// The files with conflicts, by their own paths.
    pub conflict_files: Vec<String>,
    /// The files that were applied.
    pub applied_files: Vec<String>,
    /// The number of conflicts left.
    pub conflict_count: usize,
}

/// The paths of a list other than `path`, in order.
pub open spec fn without(ps: Seq<Seq<char>>, path: Seq<char>) -> Seq<Seq<char>>
    decreases ps.len(),
{
    if ps.len() == 0 {
        seq![]
    } else if ps.last() == path {
        without(ps.drop_last(), path)
    } else {
        without(ps.drop_last(), path).push(ps.last())
    }
}

impl PausedApplyState {
    /// Marks `path` resolved: it leaves the conflict list, and the count
    /// follows the list. Whether the state is then done with is
    /// `conflict_files` being empty.
    pub fn remove_conflict(&mut self, path: &str)
        ensures
            strs(final(self).conflict_files@) == without(strs(old(self).conflict_files@), path@),
            final(self).conflict_count == final(self).conflict_files@.len(),
            final(self).applied_files@ == old(self).applied_files@,
            final(self).timestamp@ == old(self).timestamp@,
    {
        let mut kept: Vec<String> = Vec::new();
        let mut i: usize = 0;
        while i < self.conflict_files.len()
            invariant
                i <= self.conflict_files@.len(),
                strs(kept@) == without(strs(self.conflict_files@).subrange(0, i as int), path@),
            decreases self.conflict_files@.len() - i,
        {
            let ghost all = strs(self.conflict_files@);
            assert(all.subrange(0, i + 1).drop_last() =~= all.subrange(0, i as int));
            assert(all.subrange(0, i + 1).last() == self.conflict_files@[i as int]@);
            if !str_eq(self.conflict_files[i].as_str(), path) {
                let ghost k0 = kept@;
                kept.push(self.conflict_files[i].clone());
                assert(strs(kept@) =~= strs(k0).push(self.conflict_files@[i as int]@));
            }
            i = i + 1;
        }
        assert(strs(self.conflict_files@).subrange(0, self.conflict_files@.len() as int) =~= strs(
            self.conflict_files@,
        ));
        self.conflict_count = kept.len();
        self.conflict_files = kept;
    }
}

} // verus!
