//! Staged entries and the staging index.

use vstd::prelude::*;
use vstd::string::*;
use crate::model::layer::{Layer, precedence_order};
use crate::text::str_eq;

verus! {

/// What a staged entry does to its file when committed.
#[derive(Debug, Clone, Copy, PartialEq, Eq, Structural)]
pub enum StagedOperation {
    /// Add or update the file.
    AddOrModify,
    /// Delete the file.
    Delete,
    /// The file was moved here from another path.
    Rename,
}

/// A file staged for commit to a layer.
#[derive(Debug)]
pub struct StagedEntry {
    /// Path of the file, relative to the workspace.
    pub path: String,
    /// Layer the file is committed to.
    pub target_layer: Layer,
    /// Hash of the blob holding the content.
    pub content_hash: String,
    /// Git file mode.
    pub mode: u32,
    /// What the commit does with the file.
    pub operation: StagedOperation,
}

impl StagedEntry {
    /// A regular file staged for addition or update.
    pub fn new(path: String, target_layer: Layer, content_hash: String) -> (r: Self)
        ensures
            r.path == path,
            r.target_layer == target_layer,
            r.content_hash == content_hash,
            r.mode == 0o100644,
            r.operation == StagedOperation::AddOrModify,
    {
        StagedEntry { path, target_layer, content_hash, mode: 0o100644, operation: StagedOperation::AddOrModify }
    }

    /// A deletion of a file from a layer.
    pub fn delete(path: String, target_layer: Layer) -> (r: Self)
        ensures
            r.path == path,
            r.target_layer == target_layer,
            r.content_hash@ == Seq::<char>::empty(),
            r.mode == 0o100644,
            r.operation == StagedOperation::Delete,
    {
        StagedEntry {
            path,
            target_layer,
            content_hash: String::new(),
            mode: 0o100644,
            operation: StagedOperation::Delete,
        }
    }

    /// The entry of a file moved to `dst`, keeping the content and mode it
    /// had at `src`.
    pub fn rename(src: String, dst: String, target_layer: Layer, content_hash: String, mode: u32) -> (r: Self)
        ensures
            r.path == dst,
            r.target_layer == target_layer,
            r.content_hash == content_hash,
            r.mode == mode,
            r.operation == StagedOperation::Rename,
    {
        StagedEntry { path: dst, target_layer, content_hash, mode, operation: StagedOperation::Rename }
    }

    /// Whether the entry deletes its file.
    pub fn is_delete(&self) -> (r: bool)
        ensures
            r == (self.operation == StagedOperation::Delete),
    {
        self.operation == StagedOperation::Delete
    }

    /// A copy of the entry.
    pub fn duplicate(&self) -> (r: Self)
        ensures
            r == *self,
    {
        StagedEntry {
            path: self.path.clone(),
            target_layer: self.target_layer,
            content_hash: self.content_hash.clone(),
            mode: self.mode,
            operation: self.operation,
        }
    }
}

/// No two entries of the list stage the same path.
pub open spec fn unique_paths(s: Seq<StagedEntry>) -> bool {
    forall|i: int, j: int| 0 <= i < j < s.len() ==> s[i].path@ != s[j].path@
}

/// The position of the entry that stages `path`, if any.
pub open spec fn has_path(s: Seq<StagedEntry>, path: Seq<char>) -> bool {
    exists|i: int| 0 <= i < s.len() && s[i].path@ == path
}

/// The entries of a list that target a layer, in order.
pub open spec fn entries_of_layer(s: Seq<StagedEntry>, l: Layer) -> Seq<StagedEntry>
    decreases s.len(),
{
    if s.len() == 0 {
        s
    } else if s.last().target_layer == l {
        entries_of_layer(s.drop_last(), l).push(s.last())
    } else {
        entries_of_layer(s.drop_last(), l)
    }
}

/// Whether some entry of the list targets a layer.
pub open spec fn has_layer(s: Seq<StagedEntry>, l: Layer) -> bool {
    exists|i: int| 0 <= i < s.len() && s[i].target_layer == l
}

/// What `add` does to a list: the entry replaces the entry of its path,
/// or is appended when its path is not staged.
pub open spec fn added(old: Seq<StagedEntry>, entry: StagedEntry, new: Seq<StagedEntry>) -> bool {
    &&& has_path(old, entry.path@) ==> exists|i: int|
        0 <= i < old.len() && old[i].path@ == entry.path@ && new == old.update(i, entry)
    &&& !has_path(old, entry.path@) ==> new == old.push(entry)
}

/// The entries of a list that do not target a layer, in order.
pub open spec fn entries_not_of_layer(s: Seq<StagedEntry>, l: Layer) -> Seq<StagedEntry>
    decreases s.len(),
{
    if s.len() == 0 {
        s
    } else if s.last().target_layer == l {
        entries_not_of_layer(s.drop_last(), l)
    } else {
        entries_not_of_layer(s.drop_last(), l).push(s.last())
    }
}

/// Every entry of the filtered list comes from the list.
proof fn lemma_not_of_layer_subset(s: Seq<StagedEntry>, l: Layer)
    ensures
        forall|k: int| 0 <= k < entries_not_of_layer(s, l).len() ==> exists|j: int|
            0 <= j < s.len() && #[trigger] entries_not_of_layer(s, l)[k] == s[j],
        forall|k: int| 0 <= k < entries_not_of_layer(s, l).len() ==> (
            #[trigger] entries_not_of_layer(s, l)[k]).target_layer != l,
    decreases s.len(),
{
    if s.len() > 0 {
        let p = s.drop_last();
        lemma_not_of_layer_subset(p, l);
        let f = entries_not_of_layer(s, l);
        assert forall|k: int| 0 <= k < f.len() implies exists|j: int|
            0 <= j < s.len() && #[trigger] f[k] == s[j] by {
            if k < entries_not_of_layer(p, l).len() {
                let j = choose|j: int| 0 <= j < p.len() && entries_not_of_layer(p, l)[k] == p[j];
                assert(f[k] == s[j]);
            } else {
                assert(f[k] == s[s.len() - 1]);
            }
        }
    }
}

/// Filtering keeps the order, so distinct positions come from distinct
/// positions.
proof fn lemma_not_of_layer_unique(s: Seq<StagedEntry>, l: Layer)
    requires
        unique_paths(s),
    ensures
        unique_paths(entries_not_of_layer(s, l)),
    decreases s.len(),
{
    if s.len() > 0 {
        let p = s.drop_last();
        assert(unique_paths(p)) by {
            assert forall|i: int, j: int| 0 <= i < j < p.len() implies p[i].path@ != p[j].path@ by {
                assert(p[i] == s[i] && p[j] == s[j]);
            }
        }
        lemma_not_of_layer_unique(p, l);
        lemma_not_of_layer_subset(p, l);
        let fp = entries_not_of_layer(p, l);
        if s.last().target_layer != l {
            let f = fp.push(s.last());
            assert forall|i: int, j: int| 0 <= i < j < f.len() implies f[i].path@ != f[j].path@ by {
                if j == f.len() - 1 {
                    let k = choose|k: int| 0 <= k < p.len() && fp[i] == p[k];
                    assert(p[k] == s[k]);
                    assert(s[k].path@ != s[s.len() - 1].path@);
                } else {
                    assert(f[i] == fp[i] && f[j] == fp[j]);
                }
            }
        }
    }
}

/// The layers of an order that some entry targets, in that order.
pub open spec fn layers_present(order: Seq<Layer>, s: Seq<StagedEntry>) -> Seq<Layer>
    decreases order.len(),
{
    if order.len() == 0 {
        order
    } else if has_layer(s, order.last()) {
        layers_present(order.drop_last(), s).push(order.last())
    } else {
        layers_present(order.drop_last(), s)
    }
}

/// The staging index: files staged for the next commit, each path once.
#[derive(Debug)]
pub struct StagingIndex {
    entries: Vec<StagedEntry>,
}

impl View for StagingIndex {
    type V = Seq<StagedEntry>;

    closed spec fn view(&self) -> Seq<StagedEntry> {
        self.entries@
    }
}

impl StagingIndex {
    /// Well-formedness: each path is staged at most once.
    pub open spec fn wf(&self) -> bool {
        unique_paths(self@)
    }

    /// An empty index.
    pub fn new() -> (r: Self)
        ensures
            r@ == Seq::<StagedEntry>::empty(),
            r.wf(),
    {
        StagingIndex { entries: Vec::new() }
    }

    /// The number of staged entries.
    pub fn len(&self) -> (r: usize)
        ensures
            r == self@.len(),
    {
        self.entries.len()
    }

    /// Whether nothing is staged.
    pub fn is_empty(&self) -> (r: bool)
        ensures
            r == (self@.len() == 0),
    {
        self.entries.len() == 0
    }

    /// All staged entries, in staging order.
    pub fn entries(&self) -> (r: &Vec<StagedEntry>)
        ensures
            r@ == self@,
    {
        &self.entries
    }

    /// All staged entries, in staging order.
    pub fn all_entries(&self) -> (r: &Vec<StagedEntry>)
        ensures
            r@ == self@,
    {
        &self.entries
    }

    /// The position of the entry that stages `path`.
    fn find(&self, path: &str) -> (r: Option<usize>)
        ensures
            r matches Some(i) ==> i < self@.len() && self@[i as int].path@ == path@,
            r is None ==> !has_path(self@, path@),
    {
        let mut i: usize = 0;
        while i < self.entries.len()
            invariant
                i <= self@.len(),
                self@ == self.entries@,
                forall|j: int| 0 <= j < i ==> self@[j].path@ != path@,
            decreases self@.len() - i,
        {
            if str_eq(self.entries[i].path.as_str(), path) {
                return Some(i);
            }
            i = i + 1;
        }
        None
    }

    /// The entry that stages `path`, if any.
    pub fn get(&self, path: &str) -> (r: Option<&StagedEntry>)
        requires
            self.wf(),
        ensures
            r is Some <==> has_path(self@, path@),
            r matches Some(e) ==> e.path@ == path@ && self@.contains(*e),
    {
        match self.find(path) {
            Some(i) => Some(&self.entries[i]),
            None => None,
        }
    }

    /// Stages an entry, replacing the entry of the same path if there is one.
    pub fn add(&mut self, entry: StagedEntry)
        requires
            old(self).wf(),
        ensures
            final(self).wf(),
            added(old(self)@, entry, final(self)@),
    {
        match self.find(entry.path.as_str()) {
            Some(i) => {
                self.entries.set(i, entry);
            },
            None => {
                self.entries.push(entry);
            },
        }
    }

    /// Removes the entry that stages `path`, if any.
    pub fn remove(&mut self, path: &str)
        requires
            old(self).wf(),
        ensures
            final(self).wf(),
            has_path(old(self)@, path@) ==> exists|i: int|
                0 <= i < old(self)@.len() && old(self)@[i].path@ == path@ && final(self)@
                    == old(self)@.remove(i),
            !has_path(old(self)@, path@) ==> final(self)@ == old(self)@,
            !has_path(final(self)@, path@),
    {
        match self.find(path) {
            Some(i) => {
                let ghost before = self@;
                self.entries.remove(i);
                assert(!has_path(self@, path@)) by {
                    if has_path(self@, path@) {
                        let k = choose|k: int| 0 <= k < self@.len() && self@[k].path@ == path@;
                        if k < i {
                            assert(before[k] == self@[k]);
                        } else {
                            assert(before[k + 1] == self@[k]);
                        }
                    }
                }
            },
            None => {},
        }
    }

    /// Removes every staged entry.
    pub fn clear(&mut self)
        ensures
            final(self)@ == Seq::<StagedEntry>::empty(),
            final(self).wf(),
    {
        self.entries = Vec::new();
    }

    /// Removes every entry that targets a layer, keeping the others in
    /// order.
    pub fn remove_layer(&mut self, layer: Layer)
        requires
            old(self).wf(),
        ensures
            final(self).wf(),
            final(self)@ == entries_not_of_layer(old(self)@, layer),
    {
        let mut kept: Vec<StagedEntry> = Vec::new();
        let mut rest: Vec<StagedEntry> = Vec::new();
        std::mem::swap(&mut rest, &mut self.entries);
        let ghost all = rest@;
        let ghost mut k: int = 0;
        while rest.len() > 0
            invariant
                0 <= k <= all.len(),
                rest@ == all.subrange(k, all.len() as int),
                kept@ == entries_not_of_layer(all.subrange(0, k), layer),
            decreases rest.len(),
        {
            let x = rest.remove(0);
            proof {
                assert(x == all[k]);
                assert(all.subrange(0, k + 1).drop_last() =~= all.subrange(0, k));
                assert(all.subrange(0, k + 1).last() == all[k]);
                assert(rest@ =~= all.subrange(k + 1, all.len() as int));
            }
            if x.target_layer != layer {
                kept.push(x);
            }
            proof {
                k = k + 1;
            }
        }
        assert(all.subrange(0, k) =~= all);
        proof {
            lemma_not_of_layer_unique(all, layer);
        }
        self.entries = kept;
    }

    /// Copies of the entries that target a layer, in staging order.
    pub fn entries_for_layer(&self, layer: Layer) -> (r: Vec<StagedEntry>)
        ensures
            r@ == entries_of_layer(self@, layer),
    {
        let mut out: Vec<StagedEntry> = Vec::new();
        let mut i: usize = 0;
        while i < self.entries.len()
            invariant
                i <= self@.len(),
                self@ == self.entries@,
                out@ == entries_of_layer(self@.subrange(0, i as int), layer),
            decreases self@.len() - i,
        {
            assert(self@.subrange(0, i + 1).drop_last() =~= self@.subrange(0, i as int));
            if self.entries[i].target_layer == layer {
                out.push(self.entries[i].duplicate());
            }
            i = i + 1;
        }
        assert(self@.subrange(0, self@.len() as int) =~= self@);
        out
    }

    /// Whether some entry targets a layer.
    fn targets(&self, layer: Layer) -> (r: bool)
        ensures
            r == has_layer(self@, layer),
    {
        let mut i: usize = 0;
        while i < self.entries.len()
            invariant
                i <= self@.len(),
                self@ == self.entries@,
                forall|j: int| 0 <= j < i ==> self@[j].target_layer != layer,
            decreases self@.len() - i,
        {
            if self.entries[i].target_layer == layer {
                return true;
            }
            i = i + 1;
        }
        false
    }

    /// The layers that some entry targets, lowest precedence first.
    pub fn affected_layers(&self) -> (r: Vec<Layer>)
        ensures
            r@ == layers_present(precedence_order(), self@),
    {
        let order = Layer::all_in_precedence_order();
        let mut out: Vec<Layer> = Vec::new();
        let mut i: usize = 0;
        while i < order.len()
            invariant
                i <= order@.len(),
                order@ == precedence_order(),
                out@ == layers_present(order@.subrange(0, i as int), self@),
            decreases order@.len() - i,
        {
            assert(order@.subrange(0, i + 1).drop_last() =~= order@.subrange(0, i as int));
            if self.targets(order[i]) {
                out.push(order[i]);
            }
            i = i + 1;
        }
        assert(order@.subrange(0, order@.len() as int) =~= order@);
        out
    }
}

/// Staging an entry and looking its path up finds that entry: after
/// `add`, the index holds the entry, and it is the only entry of its path.
pub proof fn lemma_add_then_get(old: Seq<StagedEntry>, entry: StagedEntry, new: Seq<StagedEntry>)
    requires
        unique_paths(old),
        unique_paths(new),
        added(old, entry, new),
    ensures
        has_path(new, entry.path@),
        new.contains(entry),
        forall|k: int| 0 <= k < new.len() && (#[trigger] new[k]).path@ == entry.path@ ==> new[k]
            == entry,
{
    let i: int = if has_path(old, entry.path@) {
        choose|i: int| 0 <= i < old.len() && old[i].path@ == entry.path@ && new == old.update(i, entry)
    } else {
        old.len() as int
    };
    assert(new[i] == entry);
    assert forall|k: int| 0 <= k < new.len() && (#[trigger] new[k]).path@ == entry.path@ implies new[k]
        == entry by {
        if k != i {
            if k < i {
                assert(new[k].path@ != new[i].path@);
            } else {
                assert(new[i].path@ != new[k].path@);
            }
        }
    }
}

/// Removing the entries of a layer leaves no entry of that layer and
/// keeps every other entry.
pub proof fn lemma_remove_layer(s: Seq<StagedEntry>, l: Layer)
    ensures
        forall|k: int| 0 <= k < entries_not_of_layer(s, l).len() ==> (
            #[trigger] entries_not_of_layer(s, l)[k]).target_layer != l,
        forall|k: int| 0 <= k < entries_not_of_layer(s, l).len() ==> #[trigger] s.contains(
            entries_not_of_layer(s, l)[k],
        ),
{
    lemma_not_of_layer_subset(s, l);
    assert forall|k: int| 0 <= k < entries_not_of_layer(s, l).len() implies #[trigger] s.contains(
        entries_not_of_layer(s, l)[k],
    ) by {
        let j = choose|j: int| 0 <= j < s.len() && entries_not_of_layer(s, l)[k] == s[j];
    }
}

} // verus!
