//! `jin list`: the modes, scopes and projects that layer refs name.

use vstd::prelude::*;
use vstd::string::*;
use crate::commands::common::strs;
use crate::model::error::JinError;
use crate::order::{sorted_strict, sorted_unique};
use crate::text::{
    concat2, has_prefix, lemma_split_nonempty, piece_is, split_chars, split_spec, str_eq,
    strip_prefix, string_of, views,
};

verus! {

/// A set of names, each held once.
#[derive(Debug)]
pub struct NameSet {
    names: Vec<String>,
}

impl View for NameSet {
    type V = Set<Seq<char>>;

    closed spec fn view(&self) -> Set<Seq<char>> {
        Set::new(|x: Seq<char>| strs(self.names@).contains(x))
    }
}

impl NameSet {
    /// An empty set.
    pub fn new() -> (r: Self)
        ensures
            r@ == Set::<Seq<char>>::empty(),
    {
        let r = NameSet { names: Vec::new() };
        assert(r@ =~= Set::<Seq<char>>::empty());
        r
    }

    /// Whether the set holds a name.
    pub fn contains(&self, name: &str) -> (r: bool)
        ensures
            r == self@.contains(name@),
    {
        let mut i: usize = 0;
        while i < self.names.len()
            invariant
                i <= self.names@.len(),
                forall|j: int| 0 <= j < i ==> strs(self.names@)[j] != name@,
            decreases self.names@.len() - i,
        {
            if str_eq(self.names[i].as_str(), name) {
                assert(strs(self.names@)[i as int] == name@);
                return true;
            }
            i = i + 1;
        }
        assert(!strs(self.names@).contains(name@));
        false
    }

    /// Adds a name.
    pub fn insert(&mut self, name: String)
        ensures
            final(self)@ == old(self)@.insert(name@),
    {
        if !self.contains(name.as_str()) {
            let ghost before = strs(self.names@);
            let ghost n = name@;
            self.names.push(name);
            assert(strs(self.names@) =~= before.push(n));
            assert forall|x: Seq<char>| strs(self.names@).contains(x) <==> (before.contains(x) || x == n) by {
                if strs(self.names@).contains(x) {
                    let j = choose|j: int| 0 <= j < strs(self.names@).len() && strs(self.names@)[j] == x;
                    if j < before.len() {
                        assert(before[j] == x);
                    }
                }
                if before.contains(x) {
                    let j = choose|j: int| 0 <= j < before.len() && before[j] == x;
                    assert(strs(self.names@)[j] == x);
                }
                if x == n {
                    assert(strs(self.names@)[before.len() as int] == x);
                }
            }
            assert(self@ =~= old(self)@.insert(n));
        } else {
            assert(old(self)@.insert(name@) =~= old(self)@);
        }
    }

    /// Whether the set is empty.
    pub fn is_empty(&self) -> (r: bool)
        ensures
            r == (self@ == Set::<Seq<char>>::empty()),
    {
        if self.names.len() == 0 {
            assert(self@ =~= Set::<Seq<char>>::empty());
            true
        } else {
            assert(self@.contains(strs(self.names@)[0]));
            false
        }
    }

    /// The names in increasing order.
    pub fn sorted(&self) -> (r: Vec<String>)
        ensures
            sorted_strict(strs(r@)),
            forall|x: Seq<char>| strs(r@).contains(x) <==> self@.contains(x),
    {
        sorted_unique(&self.names)
    }
}

/// The names a layer ref holds, by the pieces of its path after
/// `refs/jin/layers/`: a mode, a scope and a project, each if present.
pub open spec fn names_of_parts(ps: Seq<Seq<char>>) -> (Option<Seq<char>>, Option<Seq<char>>, Option<Seq<char>>) {
    if ps.len() == 2 && ps[0] == "mode"@ {
        (Some(ps[1]), None, None)
    } else if ps.len() == 4 && ps[0] == "mode"@ && ps[2] == "scope"@ {
        (Some(ps[1]), Some(ps[3]), None)
    } else if ps.len() == 6 && ps[0] == "mode"@ && ps[2] == "scope"@ && ps[4] == "project"@ {
        (Some(ps[1]), Some(ps[3]), Some(ps[5]))
    } else if ps.len() == 4 && ps[0] == "mode"@ && ps[2] == "project"@ {
        (Some(ps[1]), None, Some(ps[3]))
    } else if ps.len() == 2 && ps[0] == "scope"@ {
        (None, Some(ps[1]), None)
    } else if ps.len() == 2 && ps[0] == "project"@ {
        (None, None, Some(ps[1]))
    } else {
        (None, None, None)
    }
}

/// The names a ref path holds; a path outside `refs/jin/layers/` holds
/// none.
pub open spec fn names_of_ref(ref_path: Seq<char>) -> (Option<Seq<char>>, Option<Seq<char>>, Option<Seq<char>>) {
    if has_prefix(ref_path, "refs/jin/layers/"@) {
        names_of_parts(split_spec(ref_path.subrange(16, ref_path.len() as int), '/'))
    } else {
        (None, None, None)
    }
}

/// A set with an optional name added.
pub open spec fn add_opt(s: Set<Seq<char>>, o: Option<Seq<char>>) -> Set<Seq<char>> {
    match o {
        Some(n) => s.insert(n),
        None => s,
    }
}

/// Records the mode, scope and project names a layer ref path holds.
pub fn parse_ref_path(ref_path: &str, modes: &mut NameSet, scopes: &mut NameSet, projects: &mut NameSet)
    ensures
        final(modes)@ == add_opt(old(modes)@, names_of_ref(ref_path@).0),
        final(scopes)@ == add_opt(old(scopes)@, names_of_ref(ref_path@).1),
        final(projects)@ == add_opt(old(projects)@, names_of_ref(ref_path@).2),
{
    proof {
        reveal_strlit("refs/jin/layers/");
    }
    let rest = match strip_prefix(ref_path, "refs/jin/layers/") {
        Some(r) => r,
        None => {
            return;
        },
    };
    let ps = split_chars(rest.as_str(), '/');
    let ghost pv = views(ps@);
    assert(pv == split_spec(ref_path@.subrange(16, ref_path@.len() as int), '/'));
    assert(pv.len() == ps@.len());
    let n = ps.len();
    if n == 2 && piece_is(&ps, 0, "mode") {
        modes.insert(string_of(ps[1].as_slice()));
    } else if n == 4 && piece_is(&ps, 0, "mode") && piece_is(&ps, 2, "scope") {
        modes.insert(string_of(ps[1].as_slice()));
        scopes.insert(string_of(ps[3].as_slice()));
    } else if n == 6 && piece_is(&ps, 0, "mode") && piece_is(&ps, 2, "scope") && piece_is(&ps, 4, "project") {
        modes.insert(string_of(ps[1].as_slice()));
        scopes.insert(string_of(ps[3].as_slice()));
        projects.insert(string_of(ps[5].as_slice()));
    } else if n == 4 && piece_is(&ps, 0, "mode") && piece_is(&ps, 2, "project") {
        modes.insert(string_of(ps[1].as_slice()));
        projects.insert(string_of(ps[3].as_slice()));
    } else if n == 2 && piece_is(&ps, 0, "scope") {
        scopes.insert(string_of(ps[1].as_slice()));
    } else if n == 2 && piece_is(&ps, 0, "project") {
        projects.insert(string_of(ps[1].as_slice()));
    }
}

/// The lines listing one kind of name, or none for an empty list.
pub open spec fn section(title: Seq<char>, names: Seq<Seq<char>>) -> Seq<Seq<char>> {
    if names.len() == 0 {
        seq![]
    } else {
        seq![title] + names.map_values(|n: Seq<char>| "  - "@ + n) + seq![Seq::<char>::empty()]
    }
}

/// The report of `jin list`, given each kind of name in increasing order.
pub open spec fn list_report(modes: Seq<Seq<char>>, scopes: Seq<Seq<char>>, projects: Seq<Seq<char>>) -> Seq<Seq<char>> {
    seq!["Available in Jin repository:"@, Seq::<char>::empty()] + section("Modes:"@, modes) + section(
        "Scopes:"@,
        scopes,
    ) + section("Projects:"@, projects) + (if modes.len() == 0 && scopes.len() == 0
        && projects.len() == 0 {
        seq!["  (no modes, scopes, or projects found)"@, Seq::<char>::empty()]
    } else {
        seq![]
    }) + seq![
        "Use 'jin mode use <mode>' to activate a mode"@,
        "Use 'jin scope use <scope>' to activate a scope"@,
    ]
}

/// Appends the section of one kind of name.
fn push_section(lines: &mut Vec<String>, title: &str, names: &Vec<String>)
    ensures
        strs(final(lines)@) == strs(old(lines)@) + section(title@, strs(names@)),
{
    if names.len() == 0 {
        assert(strs(old(lines)@) + section(title@, strs(names@)) =~= strs(old(lines)@));
        return;
    }
    let ghost start = strs(lines@);
    lines.push(title.to_owned());
    let mut i: usize = 0;
    while i < names.len()
        invariant
            i <= names@.len(),
            strs(lines@) == start + seq![title@] + strs(names@).subrange(0, i as int).map_values(
                |n: Seq<char>| "  - "@ + n,
            ),
        decreases names@.len() - i,
    {
        let ghost before = strs(lines@);
        lines.push(concat2("  - ", names[i].as_str()));
        assert(strs(names@).subrange(0, i + 1).map_values(|n: Seq<char>| "  - "@ + n) =~= strs(names@).subrange(
            0,
            i as int,
        ).map_values(|n: Seq<char>| "  - "@ + n).push("  - "@ + names@[i as int]@));
        assert(strs(lines@) =~= before.push("  - "@ + names@[i as int]@));
        i = i + 1;
    }
    assert(strs(names@).subrange(0, names@.len() as int) =~= strs(names@));
    let ghost before = strs(lines@);
    let e = String::new();
    assert(e@ == Seq::<char>::empty());
    lines.push(e);
    assert(strs(lines@) =~= before.push(Seq::<char>::empty()));
    assert(strs(names@).len() == names@.len());
    assert(strs(lines@) =~= start + section(title@, strs(names@)));
}

/// The report of `jin list` on the layer refs read from the repository;
/// a repository that did not open means Jin is not initialized.
pub fn execute(repo_opened: bool, refs: Result<Vec<String>, JinError>) -> (r: Result<Vec<String>, JinError>)
    ensures
        !repo_opened ==> r matches Err(JinError::NotInitialized),
        repo_opened ==> match refs {
            Err(e) => r == Err::<Vec<String>, JinError>(e),
            Ok(v) => r matches Ok(lines) && exists|m: Seq<Seq<char>>, s: Seq<Seq<char>>, p: Seq<Seq<char>>|
                sorted_strict(m) && sorted_strict(s) && sorted_strict(p) && strs(lines@) == list_report(m, s, p)
                    && (forall|x: Seq<char>| m.contains(x) <==> collected(strs(v@)).0.contains(x))
                    && (forall|x: Seq<char>| s.contains(x) <==> collected(strs(v@)).1.contains(x))
                    && (forall|x: Seq<char>| p.contains(x) <==> collected(strs(v@)).2.contains(x)),
        },
{
    if !repo_opened {
        return Err(JinError::NotInitialized);
    }
    let refs = refs?;
    let mut modes = NameSet::new();
    let mut scopes = NameSet::new();
    let mut projects = NameSet::new();
    let mut i: usize = 0;
    while i < refs.len()
        invariant
            i <= refs@.len(),
            (modes@, scopes@, projects@) == collected(strs(refs@).subrange(0, i as int)),
        decreases refs@.len() - i,
    {
        assert(strs(refs@).subrange(0, i + 1).drop_last() =~= strs(refs@).subrange(0, i as int));
        assert(strs(refs@).subrange(0, i + 1).last() == refs@[i as int]@);
        parse_ref_path(refs[i].as_str(), &mut modes, &mut scopes, &mut projects);
        i = i + 1;
    }
    assert(strs(refs@).subrange(0, refs@.len() as int) =~= strs(refs@));
    let m = modes.sorted();
    let s = scopes.sorted();
    let p = projects.sorted();
    let mut lines: Vec<String> = Vec::new();
    lines.push("Available in Jin repository:".to_owned());
    let e = String::new();
    assert(e@ == Seq::<char>::empty());
    lines.push(e);
    let ghost l0 = strs(lines@);
    assert(l0 =~= seq!["Available in Jin repository:"@, Seq::<char>::empty()]);
    push_section(&mut lines, "Modes:", &m);
    push_section(&mut lines, "Scopes:", &s);
    push_section(&mut lines, "Projects:", &p);
    let ghost mid = strs(lines@);
    assert(mid =~= l0 + section("Modes:"@, strs(m@)) + section("Scopes:"@, strs(s@)) + section(
        "Projects:"@,
        strs(p@),
    ));
    assert(strs(m@).len() == m@.len() && strs(s@).len() == s@.len() && strs(p@).len() == p@.len());
    if m.len() == 0 && s.len() == 0 && p.len() == 0 {
        lines.push("  (no modes, scopes, or projects found)".to_owned());
        let e2 = String::new();
        assert(e2@ == Seq::<char>::empty());
        lines.push(e2);
        assert(strs(lines@) =~= mid + seq!["  (no modes, scopes, or projects found)"@, Seq::<char>::empty()]);
    } else {
        assert(strs(lines@) =~= mid + Seq::<Seq<char>>::empty());
    }
    let ghost mid2 = strs(lines@);
    lines.push("Use 'jin mode use <mode>' to activate a mode".to_owned());
    lines.push("Use 'jin scope use <scope>' to activate a scope".to_owned());
    assert(strs(lines@) =~= mid2 + seq![
        "Use 'jin mode use <mode>' to activate a mode"@,
        "Use 'jin scope use <scope>' to activate a scope"@,
    ]);
    assert(strs(lines@) =~= list_report(strs(m@), strs(s@), strs(p@)));
    Ok(lines)
}

/// The names the ref paths hold, collected into three sets.
pub open spec fn collected(refs: Seq<Seq<char>>) -> (Set<Seq<char>>, Set<Seq<char>>, Set<Seq<char>>)
    decreases refs.len(),
{
    if refs.len() == 0 {
        (Set::empty(), Set::empty(), Set::empty())
    } else {
        let c = collected(refs.drop_last());
        let n = names_of_ref(refs.last());
        (add_opt(c.0, n.0), add_opt(c.1, n.1), add_opt(c.2, n.2))
    }
}

} // verus!
