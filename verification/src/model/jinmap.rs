//! The layer-to-file map: which files each layer ref holds, kept in
//! `.jin/.jinmap` so that a broken repository can be repaired.

use vstd::prelude::*;
use vstd::string::*;
use crate::clock::{rfc3339_utc_text, utc_now_rfc3339};
use crate::commands::common::strs;
use crate::model::config::{ContextView, ProjectContext};
use crate::model::layer::{ref_path_spec, Layer};
use crate::text::str_eq;

verus! {

/// The files of each layer ref, each ref at most once, by their strings.
pub type MappingView = Seq<(Seq<char>, Seq<Seq<char>>)>;

/// No ref occurs twice.
pub open spec fn unique_keys(s: MappingView) -> bool {
    forall|i: int, j: int| 0 <= i < j < s.len() ==> s[i].0 != s[j].0
}

/// The files recorded for a ref.
pub open spec fn lookup(s: MappingView, k: Seq<char>) -> Option<Seq<Seq<char>>>
    decreases s.len(),
{
    if s.len() == 0 {
        None
    } else if s.last().0 == k {
        Some(s.last().1)
    } else {
        lookup(s.drop_last(), k)
    }
}

/// The number of files over all refs.
pub open spec fn total_files(s: MappingView) -> nat
    decreases s.len(),
{
    if s.len() == 0 {
        0
    } else {
        total_files(s.drop_last()) + s.last().1.len()
    }
}

/// Whether some ref records a file.
pub open spec fn records_file(s: MappingView, f: Seq<char>) -> bool {
    exists|i: int| 0 <= i < s.len() && (#[trigger] s[i]).1.contains(f)
}

/// The refs and files of a layer map, in the order they were first
/// recorded.
/// The refs that record a file, in order.
pub open spec fn recording(s: MappingView, f: Seq<char>) -> Seq<Seq<char>>
    decreases s.len(),
{
    if s.len() == 0 {
        seq![]
    } else if s.last().1.contains(f) {
        recording(s.drop_last(), f).push(s.last().0)
    } else {
        recording(s.drop_last(), f)
    }
}

/// Whether a list of names holds `f`.
fn names_hold(files: &Vec<String>, f: &str) -> (r: bool)
    ensures
        r == strs(files@).contains(f@),
{
    let mut j: usize = 0;
    while j < files.len()
        invariant
            j <= files@.len(),
            forall|t: int| 0 <= t < j ==> strs(files@)[t] != f@,
        decreases files@.len() - j,
    {
        if str_eq(files[j].as_str(), f) {
            assert(strs(files@)[j as int] == f@);
            return true;
        }
        j = j + 1;
    }
    false
}

#[derive(Debug)]
pub struct LayerMappings {
    entries: Vec<(String, Vec<String>)>,
}

/// One mapping by its strings.
pub open spec fn pair_view(p: (String, Vec<String>)) -> (Seq<char>, Seq<Seq<char>>) {
    (p.0@, strs(p.1@))
}

impl View for LayerMappings {
    type V = MappingView;

    closed spec fn view(&self) -> MappingView {
        self.entries@.map_values(|p: (String, Vec<String>)| pair_view(p))
    }
}

/// A position of a ref in a list of mappings.
pub open spec fn key_at(s: MappingView, k: Seq<char>, i: int) -> bool {
    0 <= i < s.len() && s[i].0 == k
}

/// The last mapping of a ref wins a lookup; with unique refs it is the
/// only one.
proof fn lemma_lookup_at(s: MappingView, k: Seq<char>, i: int)
    requires
        unique_keys(s),
        key_at(s, k, i),
    ensures
        lookup(s, k) == Some(s[i].1),
    decreases s.len(),
{
    if i < s.len() - 1 {
        assert(s.last().0 != k) by {
            assert(s[i].0 != s[s.len() - 1].0);
        }
        let p = s.drop_last();
        assert(unique_keys(p)) by {
            assert forall|a: int, b: int| 0 <= a < b < p.len() implies p[a].0 != p[b].0 by {
                assert(p[a] == s[a] && p[b] == s[b]);
            }
        }
        assert(p[i] == s[i]);
        lemma_lookup_at(p, k, i);
    }
}

/// A ref with no position has no lookup.
proof fn lemma_lookup_absent(s: MappingView, k: Seq<char>)
    requires
        forall|i: int| 0 <= i < s.len() ==> s[i].0 != k,
    ensures
        lookup(s, k) is None,
    decreases s.len(),
{
    if s.len() > 0 {
        let p = s.drop_last();
        assert forall|i: int| 0 <= i < p.len() implies p[i].0 != k by {
            assert(p[i] == s[i]);
        }
        lemma_lookup_absent(p, k);
    }
}

impl LayerMappings {
    /// Well-formedness: each ref once.
    pub open spec fn wf(&self) -> bool {
        unique_keys(self@)
    }

    /// No mappings.
    pub fn new() -> (r: Self)
        ensures
            r@ == Seq::<(Seq<char>, Seq<Seq<char>>)>::empty(),
            r.wf(),
    {
        let r = LayerMappings { entries: Vec::new() };
        assert(r@ =~= Seq::<(Seq<char>, Seq<Seq<char>>)>::empty());
        r
    }

    /// Whether there is no mapping.
    pub fn is_empty(&self) -> (r: bool)
        ensures
            r == (self@.len() == 0),
    {
        self.entries.len() == 0
    }

    /// The number of refs.
    pub fn len(&self) -> (r: usize)
        ensures
            r == self@.len(),
    {
        self.entries.len()
    }

    /// The position of a ref.
    fn position(&self, k: &str) -> (r: Option<usize>)
        ensures
            r matches Some(i) ==> key_at(self@, k@, i as int),
            r is None ==> forall|i: int| 0 <= i < self@.len() ==> self@[i].0 != k@,
    {
        let mut i: usize = 0;
        while i < self.entries.len()
            invariant
                i <= self@.len(),
                self@.len() == self.entries@.len(),
                forall|j: int| 0 <= j < i ==> self@[j].0 != k@,
            decreases self@.len() - i,
        {
            assert(self@[i as int] == pair_view(self.entries@[i as int]));
            if str_eq(self.entries[i].0.as_str(), k) {
                return Some(i);
            }
            i = i + 1;
        }
        None
    }

    /// The files recorded for a ref.
    pub fn get(&self, k: &str) -> (r: Option<&Vec<String>>)
        requires
            self.wf(),
        ensures
            match r {
                Some(v) => lookup(self@, k@) == Some(strs(v@)),
                None => lookup(self@, k@) is None,
            },
    {
        match self.position(k) {
            Some(i) => {
                proof {
                    lemma_lookup_at(self@, k@, i as int);
                    assert(self@[i as int] == pair_view(self.entries@[i as int]));
                }
                Some(&self.entries[i].1)
            },
            None => {
                proof {
                    lemma_lookup_absent(self@, k@);
                }
                None
            },
        }
    }

    /// Records the files of a ref, replacing what it had.
    pub fn insert(&mut self, k: String, files: Vec<String>)
        requires
            old(self).wf(),
        ensures
            final(self).wf(),
            lookup(final(self)@, k@) == Some(strs(files@)),
            forall|x: Seq<char>| x != k@ ==> lookup(final(self)@, x) == lookup(old(self)@, x),
    {
        let ghost kv = k@;
        let ghost fv = strs(files@);
        let ghost old_s = self@;
        match self.position(k.as_str()) {
            Some(i) => {
                self.entries.set(i, (k, files));
                proof {
                    assert(self@ =~= old_s.update(i as int, (kv, fv)));
                    assert(unique_keys(self@)) by {
                        assert forall|a: int, b: int| 0 <= a < b < self@.len() implies self@[a].0 != self@[b].0 by {
                            if a != i && b != i {
                                assert(self@[a] == old_s[a] && self@[b] == old_s[b]);
                            } else if a == i {
                                assert(self@[b] == old_s[b]);
                                assert(old_s[i as int].0 != old_s[b].0);
                            } else {
                                assert(self@[a] == old_s[a]);
                                assert(old_s[a].0 != old_s[i as int].0);
                            }
                        }
                    }
                    lemma_lookup_at(self@, kv, i as int);
                    assert forall|x: Seq<char>| x != kv implies lookup(self@, x) == lookup(old_s, x) by {
                        if exists|j: int| key_at(old_s, x, j) {
                            let j = choose|j: int| key_at(old_s, x, j);
                            assert(j != i);
                            assert(self@[j] == old_s[j]);
                            lemma_lookup_at(old_s, x, j);
                            lemma_lookup_at(self@, x, j);
                        } else {
                            assert forall|j: int| 0 <= j < self@.len() implies self@[j].0 != x by {
                                if j != i {
                                    assert(self@[j] == old_s[j]);
                                    assert(!key_at(old_s, x, j));
                                }
                            }
                            assert forall|j: int| 0 <= j < old_s.len() implies old_s[j].0 != x by {
                                assert(!key_at(old_s, x, j));
                            }
                            lemma_lookup_absent(self@, x);
                            lemma_lookup_absent(old_s, x);
                        }
                    }
                }
            },
            None => {
                self.entries.push((k, files));
                proof {
                    assert(self@ =~= old_s.push((kv, fv)));
                    assert(self@.drop_last() =~= old_s);
                }
            },
        }
    }

    /// Forgets a ref.
    pub fn remove(&mut self, k: &str)
        requires
            old(self).wf(),
        ensures
            final(self).wf(),
            lookup(final(self)@, k@) is None,
            forall|x: Seq<char>| x != k@ ==> lookup(final(self)@, x) == lookup(old(self)@, x),
    {
        let ghost old_s = self@;
        match self.position(k) {
            Some(i) => {
                self.entries.remove(i);
                proof {
                    assert(self@ =~= old_s.remove(i as int));
                    assert(unique_keys(self@)) by {
                        assert forall|a: int, b: int| 0 <= a < b < self@.len() implies self@[a].0 != self@[b].0 by {
                            let a2 = if a < i { a } else { a + 1 };
                            let b2 = if b < i { b } else { b + 1 };
                            assert(self@[a] == old_s[a2] && self@[b] == old_s[b2]);
                        }
                    }
                    assert forall|j: int| 0 <= j < self@.len() implies self@[j].0 != k@ by {
                        let j2 = if j < i { j } else { j + 1 };
                        assert(self@[j] == old_s[j2]);
                        assert(old_s[j2].0 != old_s[i as int].0);
                    }
                    lemma_lookup_absent(self@, k@);
                    assert forall|x: Seq<char>| x != k@ implies lookup(self@, x) == lookup(old_s, x) by {
                        if exists|j: int| key_at(old_s, x, j) {
                            let j = choose|j: int| key_at(old_s, x, j);
                            assert(j != i);
                            let j2 = if j < i { j } else { j - 1 };
                            assert(self@[j2] == old_s[j]);
                            lemma_lookup_at(old_s, x, j);
                            lemma_lookup_at(self@, x, j2);
                        } else {
                            assert forall|j: int| 0 <= j < self@.len() implies self@[j].0 != x by {
                                let j2 = if j < i { j } else { j + 1 };
                                assert(self@[j] == old_s[j2]);
                                assert(!key_at(old_s, x, j2));
                            }
                            assert forall|j: int| 0 <= j < old_s.len() implies old_s[j].0 != x by {
                                assert(!key_at(old_s, x, j));
                            }
                            lemma_lookup_absent(self@, x);
                            lemma_lookup_absent(old_s, x);
                        }
                    }
                }
            },
            None => {
                proof {
                    lemma_lookup_absent(self@, k@);
                }
            },
        }
    }

    /// The refs, in the order they were first recorded.
    pub fn keys(&self) -> (r: Vec<String>)
        ensures
            strs(r@) == self@.map_values(|p: (Seq<char>, Seq<Seq<char>>)| p.0),
    {
        let mut out: Vec<String> = Vec::new();
        let mut i: usize = 0;
        while i < self.entries.len()
            invariant
                i <= self@.len(),
                self@.len() == self.entries@.len(),
                strs(out@) == self@.subrange(0, i as int).map_values(|p: (Seq<char>, Seq<Seq<char>>)| p.0),
            decreases self@.len() - i,
        {
            assert(self@[i as int] == pair_view(self.entries@[i as int]));
            let ghost o0 = strs(out@);
            out.push(self.entries[i].0.clone());
            assert(self@.subrange(0, i + 1).map_values(|p: (Seq<char>, Seq<Seq<char>>)| p.0) =~= self@.subrange(
                0,
                i as int,
            ).map_values(|p: (Seq<char>, Seq<Seq<char>>)| p.0).push(self@[i as int].0));
            assert(strs(out@) =~= o0.push(self@[i as int].0));
            i = i + 1;
        }
        assert(self@.subrange(0, self@.len() as int) =~= self@);
        out
    }

    /// The refs that record a file, in order.
    pub fn refs_recording(&self, f: &str) -> (r: Vec<String>)
        ensures
            strs(r@) == recording(self@, f@),
    {
        let mut out: Vec<String> = Vec::new();
        let mut i: usize = 0;
        while i < self.entries.len()
            invariant
                i <= self@.len(),
                self@.len() == self.entries@.len(),
                strs(out@) == recording(self@.subrange(0, i as int), f@),
            decreases self@.len() - i,
        {
            assert(self@[i as int] == pair_view(self.entries@[i as int]));
            assert(self@.subrange(0, i + 1).drop_last() =~= self@.subrange(0, i as int));
            assert(self@.subrange(0, i + 1).last() == self@[i as int]);
            if names_hold(&self.entries[i].1, f) {
                let ghost o0 = out@;
                out.push(self.entries[i].0.clone());
                assert(strs(out@) =~= strs(o0).push(self@[i as int].0));
            }
            i = i + 1;
        }
        assert(self@.subrange(0, self@.len() as int) =~= self@);
        out
    }

    /// Whether some ref records a file.
    pub fn contains_file(&self, f: &str) -> (r: bool)
        ensures
            r == records_file(self@, f@),
    {
        let mut i: usize = 0;
        while i < self.entries.len()
            invariant
                i <= self@.len(),
                self@.len() == self.entries@.len(),
                forall|j: int| 0 <= j < i ==> !(#[trigger] self@[j]).1.contains(f@),
            decreases self@.len() - i,
        {
            assert(self@[i as int] == pair_view(self.entries@[i as int]));
            let files = &self.entries[i].1;
            assert(self@[i as int].1 == strs(files@));
            let mut j: usize = 0;
            while j < files.len()
                invariant
                    j <= files@.len(),
                    i < self@.len(),
                    self@.len() == self.entries@.len(),
                    self@[i as int].1 == strs(files@),
                    forall|t: int| 0 <= t < j ==> strs(files@)[t] != f@,
                decreases files@.len() - j,
            {
                if str_eq(files[j].as_str(), f) {
                    assert(strs(files@)[j as int] == f@);
                    assert(self@[i as int].1.contains(f@));
                    return true;
                }
                j = j + 1;
            }
            assert(!strs(files@).contains(f@));
            i = i + 1;
        }
        false
    }

    /// The number of files over all refs.
    pub fn total_file_count(&self) -> (r: usize)
        requires
            total_files(self@) <= usize::MAX,
        ensures
            r == total_files(self@),
    {
        let mut sum: usize = 0;
        let mut i: usize = 0;
        while i < self.entries.len()
            invariant
                i <= self@.len(),
                self@.len() == self.entries@.len(),
                total_files(self@) <= usize::MAX,
                sum == total_files(self@.subrange(0, i as int)),
            decreases self@.len() - i,
        {
            assert(self@[i as int] == pair_view(self.entries@[i as int]));
            assert(self@.subrange(0, i + 1).drop_last() =~= self@.subrange(0, i as int));
            proof {
                lemma_total_prefix(self@, i as int + 1);
            }
            sum = sum + self.entries[i].1.len();
            i = i + 1;
        }
        assert(self@.subrange(0, self@.len() as int) =~= self@);
        sum
    }
}

/// A prefix holds no more files than the whole.
proof fn lemma_total_prefix(s: MappingView, k: int)
    requires
        0 <= k <= s.len(),
    ensures
        total_files(s.subrange(0, k)) <= total_files(s),
    decreases s.len(),
{
    if k < s.len() {
        assert(s.drop_last().subrange(0, k) =~= s.subrange(0, k));
        lemma_total_prefix(s.drop_last(), k);
    } else {
        assert(s.subrange(0, k) =~= s);
    }
}

/// Metadata of the layer map.
#[derive(Debug)]
pub struct JinMapMeta {
    /// What wrote the map.
    pub generated_by: String,
    /// When it was last changed.
    pub last_updated: Option<String>,
}

impl Default for JinMapMeta {
    fn default() -> (r: Self)
        ensures
            r.generated_by@ == "jin"@,
            r.last_updated is None,
    {
        JinMapMeta { generated_by: "jin".to_owned(), last_updated: None }
    }
}

/// The layer-to-file map.
#[derive(Debug)]
pub struct JinMap {
    /// Schema version.
    pub version: u32,
    /// The files of each layer ref.
    pub mappings: LayerMappings,
    /// Metadata.
    pub meta: JinMapMeta,
}

impl Default for JinMap {
    fn default() -> (r: Self)
        ensures
            r.version == 1,
            r.mappings@.len() == 0,
            r.mappings.wf(),
            r.meta.generated_by@ == "jin"@,
            r.meta.last_updated is None,
    {
        JinMap { version: 1, mappings: LayerMappings::new(), meta: JinMapMeta::default() }
    }
}

/// The files recorded for a ref after recording, in order, the files of
/// each (ref, files) pair over `m`: an empty list forgets the ref.
pub open spec fn lookup_after(m: MappingView, ups: Seq<(Seq<char>, Seq<Seq<char>>)>, x: Seq<char>) -> Option<Seq<Seq<char>>>
    decreases ups.len(),
{
    if ups.len() == 0 {
        lookup(m, x)
    } else if ups.last().0 == x {
        if ups.last().1.len() == 0 {
            None
        } else {
            Some(ups.last().1)
        }
    } else {
        lookup_after(m, ups.drop_last(), x)
    }
}

/// The (ref, files) pairs of committed layers in a context.
pub open spec fn commit_records(lf: Seq<(Layer, Vec<String>)>, c: ContextView) -> Seq<(Seq<char>, Seq<Seq<char>>)> {
    lf.map_values(|p: (Layer, Vec<String>)| (ref_path_spec(p.0, c.mode, c.scope, c.project), strs(p.1@)))
}

impl JinMap {
    /// Where the map is kept: `.jin/.jinmap`.
    pub fn default_path() -> (r: String)
        ensures
            r@ == ".jin/.jinmap"@,
    {
        ".jin/.jinmap".to_owned()
    }

    /// Records the files of a layer ref: an empty list forgets the ref.
    pub fn record_layer_files(&mut self, layer_ref: &str, files: Vec<String>)
        requires
            old(self).mappings.wf(),
        ensures
            final(self).mappings.wf(),
            final(self).version == old(self).version,
            final(self).meta == old(self).meta,
            files@.len() == 0 ==> lookup(final(self).mappings@, layer_ref@) is None,
            files@.len() > 0 ==> lookup(final(self).mappings@, layer_ref@) == Some(strs(files@)),
            forall|x: Seq<char>| x != layer_ref@ ==> lookup(final(self).mappings@, x) == lookup(
                old(self).mappings@,
                x,
            ),
    {
        if files.len() == 0 {
            self.mappings.remove(layer_ref);
        } else {
            self.mappings.insert(layer_ref.to_owned(), files);
        }
    }

    /// Records the files of freshly committed layers: each layer's ref in
    /// the context gets the files its commit's tree holds (an empty list
    /// forgets the ref), in order; then the map is stamped with the time
    /// (a clock that reads no time from 1970 on leaves the stamp as it was).
    pub fn update_from_commits(&mut self, layer_files: &Vec<(Layer, Vec<String>)>, context: &ProjectContext)
        requires
            old(self).mappings.wf(),
        ensures
            final(self).mappings.wf(),
            final(self).version == old(self).version,
            final(self).meta.generated_by == old(self).meta.generated_by,
            final(self).meta.last_updated == old(self).meta.last_updated || (final(self).meta.last_updated matches Some(t)
                && rfc3339_utc_text(t@)),
            forall|x: Seq<char>| #[trigger] lookup(final(self).mappings@, x) == lookup_after(
                old(self).mappings@,
                commit_records(layer_files@, context@),
                x,
            ),
    {
        let ghost m0 = self.mappings@;
        let ghost ups = commit_records(layer_files@, context@);
        let m: Option<&str> = match &context.mode {
            Some(x) => Some(x.as_str()),
            None => None,
        };
        let sc: Option<&str> = match &context.scope {
            Some(x) => Some(x.as_str()),
            None => None,
        };
        let p: Option<&str> = match &context.project {
            Some(x) => Some(x.as_str()),
            None => None,
        };
        let mut i: usize = 0;
        while i < layer_files.len()
            invariant
                i <= layer_files@.len(),
                self.mappings.wf(),
                self.version == old(self).version,
                self.meta == old(self).meta,
                ups == commit_records(layer_files@, context@),
                m0 == old(self).mappings@,
                crate::model::layer::opt_view(m) == context@.mode,
                crate::model::layer::opt_view(sc) == context@.scope,
                crate::model::layer::opt_view(p) == context@.project,
                forall|x: Seq<char>| #[trigger] lookup(self.mappings@, x) == lookup_after(m0, ups.subrange(0, i as int), x),
            decreases layer_files@.len() - i,
        {
            let rp = layer_files[i].0.ref_path(m, sc, p);
            let files = layer_files[i].1.clone();
            assert(files@ == layer_files@[i as int].1@);
            let ghost before = self.mappings@;
            self.record_layer_files(rp.as_str(), files);
            proof {
                let pre = ups.subrange(0, i + 1);
                assert(pre.drop_last() =~= ups.subrange(0, i as int));
                assert(pre.last() == ups[i as int]);
                assert forall|x: Seq<char>| #[trigger] lookup(self.mappings@, x) == lookup_after(m0, pre, x) by {
                    if x != rp@ {
                        assert(lookup(self.mappings@, x) == lookup(before, x));
                    }
                }
            }
            i = i + 1;
        }
        assert(ups.subrange(0, layer_files@.len() as int) =~= ups);
        if let Some(t) = utc_now_rfc3339() {
            self.meta.last_updated = Some(t);
        }
    }

    /// Records the files of a layer ref and stamps the map with the time;
    /// a clock that reads no time from 1970 on leaves the stamp as it was.
    pub fn add_layer_mapping(&mut self, layer_ref: &str, files: Vec<String>)
        requires
            old(self).mappings.wf(),
        ensures
            final(self).mappings.wf(),
            final(self).version == old(self).version,
            final(self).meta.generated_by == old(self).meta.generated_by,
            final(self).meta.last_updated == old(self).meta.last_updated || (final(self).meta.last_updated matches Some(t)
                && rfc3339_utc_text(t@)),
            files@.len() == 0 ==> lookup(final(self).mappings@, layer_ref@) is None,
            files@.len() > 0 ==> lookup(final(self).mappings@, layer_ref@) == Some(strs(files@)),
            forall|x: Seq<char>| x != layer_ref@ ==> lookup(final(self).mappings@, x) == lookup(
                old(self).mappings@,
                x,
            ),
    {
        self.record_layer_files(layer_ref, files);
        if let Some(t) = utc_now_rfc3339() {
            self.meta.last_updated = Some(t);
        }
    }

    /// The files recorded for a layer ref.
    pub fn get_layer_files(&self, layer_ref: &str) -> (r: Option<&Vec<String>>)
        requires
            self.mappings.wf(),
        ensures
            match r {
                Some(v) => lookup(self.mappings@, layer_ref@) == Some(strs(v@)),
                None => lookup(self.mappings@, layer_ref@) is None,
            },
    {
        self.mappings.get(layer_ref)
    }

    /// The layer refs with recorded files.
    pub fn layer_refs(&self) -> (r: Vec<String>)
        ensures
            strs(r@) == self.mappings@.map_values(|p: (Seq<char>, Seq<Seq<char>>)| p.0),
    {
        self.mappings.keys()
    }

    /// The layer refs that record a file, in order.
    pub fn layers_recording(&self, file_path: &str) -> (r: Vec<String>)
        ensures
            strs(r@) == recording(self.mappings@, file_path@),
    {
        self.mappings.refs_recording(file_path)
    }

    /// Whether some layer ref records a file.
    pub fn contains_file(&self, file_path: &str) -> (r: bool)
        ensures
            r == records_file(self.mappings@, file_path@),
    {
        self.mappings.contains_file(file_path)
    }

    /// The number of recorded files over all layer refs.
    pub fn total_file_count(&self) -> (r: usize)
        requires
            total_files(self.mappings@) <= usize::MAX,
        ensures
            r == total_files(self.mappings@),
    {
        self.mappings.total_file_count()
    }
}

} // verus!
