//! Git tree entries and how a flat list of paths is grouped into nested
//! trees.

use vstd::prelude::*;
use vstd::string::*;
use crate::text::{find_str, substring};

verus! {

/// File modes for tree entries.
#[derive(Debug, Clone, Copy, PartialEq, Eq, Structural)]
pub enum EntryMode {
    /// Regular file (0o100644).
    Blob,
    /// Executable file (0o100755).
    BlobExecutable,
    /// Symbolic link (0o120000).
    Link,
    /// Directory/subtree (0o040000).
    Tree,
}

/// The raw Git mode of an entry mode.
pub open spec fn mode_value(m: EntryMode) -> i32 {
    match m {
        EntryMode::Blob => 0o100644,
        EntryMode::BlobExecutable => 0o100755,
        EntryMode::Link => 0o120000,
        EntryMode::Tree => 0o040000,
    }
}

impl EntryMode {
    /// Returns the raw mode value for Git.
    pub fn as_i32(self) -> (r: i32)
        ensures
            r == mode_value(self),
    {
        match self {
            EntryMode::Blob => 0o100644,
            EntryMode::BlobExecutable => 0o100755,
            EntryMode::Link => 0o120000,
            EntryMode::Tree => 0o040000,
        }
    }

    /// Creates an `EntryMode` from a raw mode value.
    pub fn from_i32(mode: i32) -> (r: Option<Self>)
        ensures
            r matches Some(m) ==> mode_value(m) == mode,
            r is None ==> forall|m: EntryMode| mode_value(m) != mode,
    {
        match mode {
            0o100644 => Some(EntryMode::Blob),
            0o100755 => Some(EntryMode::BlobExecutable),
            0o120000 => Some(EntryMode::Link),
            0o040000 => Some(EntryMode::Tree),
            _ => None,
        }
    }
}

/// Distinct modes have distinct raw values.
pub proof fn lemma_entry_mode_roundtrip(m: EntryMode, n: EntryMode)
    ensures
        m != n ==> mode_value(m) != mode_value(n),
{
}

/// An entry of a tree: its name, the object it names (as a hex id), and
/// its mode.
#[derive(Debug)]
pub struct TreeEntry {
    /// Entry name (file or directory name).
    pub name: String,
    /// The object id, in hex.
    pub oid: String,
    /// The entry's mode.
    pub mode: EntryMode,
}

impl TreeEntry {
    /// A regular file.
    pub fn blob(name: &str, oid: &str) -> (r: Self)
        ensures
            r.name@ == name@,
            r.oid@ == oid@,
            r.mode == EntryMode::Blob,
    {
        TreeEntry { name: name.to_owned(), oid: oid.to_owned(), mode: EntryMode::Blob }
    }

    /// An executable file.
    pub fn blob_executable(name: &str, oid: &str) -> (r: Self)
        ensures
            r.name@ == name@,
            r.oid@ == oid@,
            r.mode == EntryMode::BlobExecutable,
    {
        TreeEntry { name: name.to_owned(), oid: oid.to_owned(), mode: EntryMode::BlobExecutable }
    }

    /// A subtree.
    pub fn tree(name: &str, oid: &str) -> (r: Self)
        ensures
            r.name@ == name@,
            r.oid@ == oid@,
            r.mode == EntryMode::Tree,
    {
        TreeEntry { name: name.to_owned(), oid: oid.to_owned(), mode: EntryMode::Tree }
    }
}

/// A path paired with the id of its blob.
pub type PathEntry = (Seq<char>, Seq<char>);

/// The paths of a list by their strings.
pub open spec fn entries_view(v: Seq<(String, String)>) -> Seq<PathEntry> {
    v.map_values(|p: (String, String)| (p.0@, p.1@))
}

/// The position of the first `/` in a path, if any.
pub open spec fn first_slash(p: Seq<char>) -> Option<int> {
    if p.contains('/') {
        Some(choose|i: int| 0 <= i < p.len() && p[i] == '/' && forall|j: int| 0 <= j < i ==> p[j] != '/')
    } else {
        None
    }
}

/// The directory a path starts with, before its first `/`.
pub open spec fn head_dir(p: Seq<char>) -> Seq<char> {
    match first_slash(p) {
        Some(i) => p.subrange(0, i),
        None => p,
    }
}

/// The rest of a path after its first `/`.
pub open spec fn tail_path(p: Seq<char>) -> Seq<char> {
    match first_slash(p) {
        Some(i) => p.subrange(i + 1, p.len() as int),
        None => seq![],
    }
}

/// The entries of paths with no `/`, in order: the files at the root.
pub open spec fn root_files(fs: Seq<PathEntry>) -> Seq<PathEntry>
    decreases fs.len(),
{
    if fs.len() == 0 {
        seq![]
    } else if fs.last().0.contains('/') {
        root_files(fs.drop_last())
    } else {
        root_files(fs.drop_last()).push(fs.last())
    }
}

/// The directories the paths start with, each once, in order of first
/// appearance.
pub open spec fn dir_names(fs: Seq<PathEntry>) -> Seq<Seq<char>>
    decreases fs.len(),
{
    if fs.len() == 0 {
        seq![]
    } else {
        let rest = dir_names(fs.drop_last());
        if fs.last().0.contains('/') && !rest.contains(head_dir(fs.last().0)) {
            rest.push(head_dir(fs.last().0))
        } else {
            rest
        }
    }
}

/// The entries under one directory, with the directory taken off their
/// paths, in order.
pub open spec fn dir_files(fs: Seq<PathEntry>, d: Seq<char>) -> Seq<PathEntry>
    decreases fs.len(),
{
    if fs.len() == 0 {
        seq![]
    } else if fs.last().0.contains('/') && head_dir(fs.last().0) == d {
        dir_files(fs.drop_last(), d).push((tail_path(fs.last().0), fs.last().1))
    } else {
        dir_files(fs.drop_last(), d)
    }
}

/// A list of paths split into the files of the root and the files of
/// each directory, in order of first appearance.
#[verifier::opaque]
pub open spec fn grouped(fs: Seq<PathEntry>, root: Seq<PathEntry>, dirs: Seq<(Seq<char>, Seq<PathEntry>)>) -> bool {
    &&& root == root_files(fs)
    &&& dirs.len() == dir_names(fs).len()
    &&& forall|k: int| 0 <= k < dirs.len() ==> (#[trigger] dirs[k]).0 == dir_names(fs)[k] && dirs[k].1 == dir_files(fs, dirs[k].0)
}

/// The groups by their strings.
pub open spec fn groups_view(v: Seq<(String, Vec<(String, String)>)>) -> Seq<(Seq<char>, Seq<PathEntry>)> {
    v.map_values(|g: (String, Vec<(String, String)>)| (g.0@, entries_view(g.1@)))
}

proof fn lemma_dir_files_other(fs: Seq<PathEntry>, e: PathEntry, d: Seq<char>)
    requires
        !(e.0.contains('/') && head_dir(e.0) == d),
    ensures
        dir_files(fs.push(e), d) == dir_files(fs, d),
{
    assert(fs.push(e).drop_last() =~= fs);
}

proof fn lemma_dir_files_absent(fs: Seq<PathEntry>, d: Seq<char>)
    requires
        !dir_names(fs).contains(d),
    ensures
        dir_files(fs, d) == Seq::<PathEntry>::empty(),
    decreases fs.len(),
{
    if fs.len() > 0 {
        let rest = dir_names(fs.drop_last());
        if fs.last().0.contains('/') && !rest.contains(head_dir(fs.last().0)) {
            assert(dir_names(fs) == rest.push(head_dir(fs.last().0)));
            assert forall|x: Seq<char>| rest.contains(x) implies dir_names(fs).contains(x) by {
                let i = choose|i: int| 0 <= i < rest.len() && rest[i] == x;
                assert(dir_names(fs)[i] == x);
            }
            assert(head_dir(fs.last().0) != d) by {
                assert(dir_names(fs)[rest.len() as int] == head_dir(fs.last().0));
            }
        } else if fs.last().0.contains('/') {
            assert(head_dir(fs.last().0) != d);
        }
        lemma_dir_files_absent(fs.drop_last(), d);
    }
}

/// Where the first `/` of a path is.
fn slash_at(p: &str) -> (r: Option<usize>)
    ensures
        match r {
            Some(i) => first_slash(p@) == Some(i as int) && i < p@.len() && p@[i as int] == '/',
            None => first_slash(p@) is None,
        },
{
    proof {
        reveal_strlit("/");
    }
    match find_str(p, "/") {
        Some(i) => {
            assert(p@.subrange(i as int, i + 1)[0] == p@[i as int]);
            assert(p@[i as int] == '/');
            assert forall|j: int| 0 <= j < i implies p@[j] != '/' by {
                if p@[j] == '/' {
                    assert(crate::text::occurs_at(p@, "/"@, j)) by {
                        assert(p@.subrange(j, j + 1) =~= "/"@);
                    }
                }
            }
            assert(p@.contains('/'));
            let ghost w = choose|w: int| 0 <= w < p@.len() && p@[w] == '/' && forall|j: int| 0 <= j < w ==> p@[j] != '/';
            assert(w == i) by {
                if w < i {
                    assert(p@[w] != '/');
                } else if w > i {
                    assert(p@[i as int] != '/');
                }
            }
            Some(i)
        },
        None => {
            assert(!p@.contains('/')) by {
                if p@.contains('/') {
                    let j = choose|j: int| 0 <= j < p@.len() && p@[j] == '/';
                    assert(crate::text::occurs_at(p@, "/"@, j)) by {
                        assert(p@.subrange(j, j + 1) =~= "/"@);
                    }
                }
            }
            None
        },
    }
}

/// Adding a file at the root keeps the grouping.
proof fn lemma_step_root(pre: Seq<PathEntry>, e: PathEntry, root: Seq<PathEntry>, dirs: Seq<(Seq<char>, Seq<PathEntry>)>)
    requires
        grouped(pre, root, dirs),
        !e.0.contains('/'),
    ensures
        grouped(pre.push(e), root.push(e), dirs),
{
    reveal(grouped);
    let cur = pre.push(e);
    assert(cur.drop_last() =~= pre);
    assert forall|k: int| 0 <= k < dirs.len() implies (#[trigger] dirs[k]).0 == dir_names(cur)[k] && dirs[k].1
        == dir_files(cur, dirs[k].0) by {
        lemma_dir_files_other(pre, e, dirs[k].0);
    }
}

/// Adding a file under a directory already listed at `j` keeps the
/// grouping, with the file at the end of that directory's files.
proof fn lemma_step_existing(
    pre: Seq<PathEntry>,
    e: PathEntry,
    root: Seq<PathEntry>,
    dirs: Seq<(Seq<char>, Seq<PathEntry>)>,
    j: int,
)
    requires
        grouped(pre, root, dirs),
        e.0.contains('/'),
        0 <= j < dirs.len(),
        dirs[j].0 == head_dir(e.0),
    ensures
        grouped(pre.push(e), root, dirs.update(j, (dirs[j].0, dirs[j].1.push((tail_path(e.0), e.1))))),
{
    reveal(grouped);
    let cur = pre.push(e);
    assert(cur.drop_last() =~= pre);
    let names = dir_names(pre);
    assert(names[j] == head_dir(e.0));
    assert(names.contains(head_dir(e.0)));
    assert(dir_names(cur) == names);
    let nd = dirs.update(j, (dirs[j].0, dirs[j].1.push((tail_path(e.0), e.1))));
    assert forall|k: int| 0 <= k < nd.len() implies (#[trigger] nd[k]).0 == dir_names(cur)[k] && nd[k].1
        == dir_files(cur, nd[k].0) by {
        if k != j {
            assert(nd[k] == dirs[k]);
            assert(dirs[k].0 != head_dir(e.0)) by {
                lemma_names_unique(pre, k, j);
            }
            lemma_dir_files_other(pre, e, dirs[k].0);
        }
    }
}

/// Adding a file under a directory not yet listed keeps the grouping,
/// with a new group for that directory at the end.
proof fn lemma_step_new(pre: Seq<PathEntry>, e: PathEntry, root: Seq<PathEntry>, dirs: Seq<(Seq<char>, Seq<PathEntry>)>)
    requires
        grouped(pre, root, dirs),
        e.0.contains('/'),
        forall|k: int| 0 <= k < dirs.len() ==> (#[trigger] dirs[k]).0 != head_dir(e.0),
    ensures
        grouped(pre.push(e), root, dirs.push((head_dir(e.0), seq![(tail_path(e.0), e.1)]))),
{
    reveal(grouped);
    let cur = pre.push(e);
    assert(cur.drop_last() =~= pre);
    let names = dir_names(pre);
    assert(!names.contains(head_dir(e.0))) by {
        if names.contains(head_dir(e.0)) {
            let k = choose|k: int| 0 <= k < names.len() && names[k] == head_dir(e.0);
            assert(dirs[k].0 == names[k]);
        }
    }
    lemma_dir_files_absent(pre, head_dir(e.0));
    assert(dir_names(cur) == names.push(head_dir(e.0)));
    let nd = dirs.push((head_dir(e.0), seq![(tail_path(e.0), e.1)]));
    assert forall|k: int| 0 <= k < nd.len() implies (#[trigger] nd[k]).0 == dir_names(cur)[k] && nd[k].1
        == dir_files(cur, nd[k].0) by {
        if k < dirs.len() {
            assert(nd[k] == dirs[k]);
            lemma_dir_files_other(pre, e, dirs[k].0);
        } else {
            assert(dir_files(pre, head_dir(e.0)) =~= Seq::<PathEntry>::empty());
            assert(dir_files(cur, head_dir(e.0)) =~= seq![(tail_path(e.0), e.1)]);
        }
    }
}

/// The position of the group of directory `dir`, if it has one.
fn find_group(dirs: &Vec<(String, Vec<(String, String)>)>, dir: &str) -> (r: Option<usize>)
    ensures
        match r {
            Some(j) => j < dirs@.len() && groups_view(dirs@)[j as int].0 == dir@,
            None => forall|k: int| 0 <= k < dirs@.len() ==> (#[trigger] groups_view(dirs@)[k]).0 != dir@,
        },
{
    let mut j: usize = 0;
    while j < dirs.len()
        invariant
            j <= dirs@.len(),
            forall|k: int| 0 <= k < j ==> (#[trigger] groups_view(dirs@)[k]).0 != dir@,
        decreases dirs@.len() - j,
    {
        if crate::text::str_eq(dirs[j].0.as_str(), dir) {
            return Some(j);
        }
        j = j + 1;
    }
    None
}

/// Appends a file to the group at `j`.
fn append_to_group(dirs: &mut Vec<(String, Vec<(String, String)>)>, j: usize, rest: String, oid: String)
    requires
        j < old(dirs)@.len(),
    ensures
        groups_view(final(dirs)@) == groups_view(old(dirs)@).update(
            j as int,
            (groups_view(old(dirs)@)[j as int].0, groups_view(old(dirs)@)[j as int].1.push((rest@, oid@))),
        ),
{
    let ghost g0 = groups_view(dirs@);
    let (name, mut group) = dirs.remove(j);
    let ghost before = group@;
    group.push((rest, oid));
    assert(entries_view(group@) =~= entries_view(before).push((rest@, oid@)));
    dirs.insert(j, (name, group));
    assert(groups_view(dirs@) =~= g0.update(j as int, (g0[j as int].0, g0[j as int].1.push((rest@, oid@)))));
}

/// Starts the group of a new directory with one file.
fn push_group(dirs: &mut Vec<(String, Vec<(String, String)>)>, dir: String, rest: String, oid: String)
    ensures
        groups_view(final(dirs)@) == groups_view(old(dirs)@).push((dir@, seq![(rest@, oid@)])),
{
    let ghost g0 = groups_view(dirs@);
    let mut group: Vec<(String, String)> = Vec::new();
    group.push((rest, oid));
    assert(entries_view(group@) =~= seq![(rest@, oid@)]);
    dirs.push((dir, group));
    assert(groups_view(dirs@) =~= g0.push((dir@, seq![(rest@, oid@)])));
}

/// Splits the paths of a tree into the files at its root and, for each
/// directory in order of first appearance, the files under it with the
/// directory taken off: the plan by which a nested tree is built from a
/// flat list of paths.
pub fn group_paths(files: &Vec<(String, String)>) -> (r: (Vec<(String, String)>, Vec<(String, Vec<(String, String)>)>))
    ensures
        grouped(entries_view(files@), entries_view(r.0@), groups_view(r.1@)),
{
    let ghost fs = entries_view(files@);
    let mut root: Vec<(String, String)> = Vec::new();
    let mut dirs: Vec<(String, Vec<(String, String)>)> = Vec::new();
    let mut i: usize = 0;
    assert(fs.subrange(0, 0) =~= Seq::<PathEntry>::empty());
    assert(entries_view(root@) =~= Seq::<PathEntry>::empty());
    assert(groups_view(dirs@) =~= Seq::<(Seq<char>, Seq<PathEntry>)>::empty());
    assert(grouped(fs.subrange(0, 0), entries_view(root@), groups_view(dirs@))) by {
        reveal(grouped);
    }
    while i < files.len()
        invariant
            i <= files@.len(),
            fs == entries_view(files@),
            grouped(fs.subrange(0, i as int), entries_view(root@), groups_view(dirs@)),
        decreases files@.len() - i,
    {
        let ghost pre = fs.subrange(0, i as int);
        assert(fs.subrange(0, i + 1) =~= pre.push(fs[i as int]));
        let path = files[i].0.as_str();
        let oid = &files[i].1;
        let ghost e = fs[i as int];
        assert(e == (path@, oid@));
        let ghost r0 = entries_view(root@);
        let ghost g0 = groups_view(dirs@);
        match slash_at(path) {
            None => {
                let ghost root0 = root@;
                let item = (path.to_owned(), oid.clone());
                assert(item.0@ == path@ && item.1@ == oid@);
                root.push(item);
                assert(root@ == root0.push(item));
                assert(entries_view(root@) =~= r0.push(e));
                proof {
                    lemma_step_root(pre, e, r0, g0);
                }
            },
            Some(at) => {
                let len = path.unicode_len();
                let dir = substring(path, 0, at);
                let rest = substring(path, at + 1, len);
                assert(dir@ == head_dir(path@));
                assert(rest@ == tail_path(path@));
                match find_group(&dirs, dir.as_str()) {
                    Some(j) => {
                        append_to_group(&mut dirs, j, rest, oid.clone());
                        proof {
                            lemma_step_existing(pre, e, r0, g0, j as int);
                        }
                    },
                    None => {
                        push_group(&mut dirs, dir, rest, oid.clone());
                        proof {
                            lemma_step_new(pre, e, r0, g0);
                        }
                    },
                }
            },
        }
        i = i + 1;
    }
    assert(fs.subrange(0, files@.len() as int) =~= fs);
    (root, dirs)
}

/// The directories a list of paths starts with are distinct.
proof fn lemma_names_unique(fs: Seq<PathEntry>, a: int, b: int)
    requires
        0 <= a < dir_names(fs).len(),
        0 <= b < dir_names(fs).len(),
        a != b,
    ensures
        dir_names(fs)[a] != dir_names(fs)[b],
    decreases fs.len(),
{
    if fs.len() > 0 {
        let rest = dir_names(fs.drop_last());
        if fs.last().0.contains('/') && !rest.contains(head_dir(fs.last().0)) {
            if a < rest.len() && b < rest.len() {
                lemma_names_unique(fs.drop_last(), a, b);
            } else if a < rest.len() {
                assert(dir_names(fs)[a] == rest[a]);
            } else {
                assert(dir_names(fs)[b] == rest[b]);
            }
        } else {
            lemma_names_unique(fs.drop_last(), a, b);
        }
    }
}

} // verus!
