//! `jin fetch`: report which layers the remote has updated.

use vstd::prelude::*;
use vstd::string::*;
use crate::commands::common::{loaded_view, opt_is, strs};
use crate::commands::config::loaded_config;
use crate::model::config::{default_context_view, ContextView, ConfigView, JinConfig, ProjectContext};
use crate::model::error::JinError;
use crate::model::layer::opt_sview;
use crate::order::{seq_lt, sorted_strict, sorted_unique};
use crate::text::{
    concat2, concat3, concat4, concat5, contains_spec, contains_str, decimal_spec, has_prefix,
    lemma_split_nonempty, piece_is, split_chars, split_spec, str_eq, strip_prefix, string_of,
    usize_to_string, views,
};
use crate::commands::mode::strip_or_self;

verus! {

/// What `jin fetch` needs before contacting the remote: the remote's URL
/// and the project context. A missing remote is an error; an
/// uninitialized project uses the default context, and any other failure
/// to load the context is an error.
pub fn prepare(config: Result<JinConfig, JinError>, context: Result<ProjectContext, JinError>) -> (r: Result<
    (String, ProjectContext),
    JinError,
>)
    ensures
        match loaded_config(config) {
            Err(e) => r == Err::<(String, ProjectContext), JinError>(e),
            Ok(c) => match c.remote {
                None => r matches Err(JinError::Config(m)) && m@
                    == "No remote configured. Run 'jin link <url>'."@,
                Some(remote) => match loaded_view(context) {
                    Ok(ctx) => r matches Ok((url, x)) && url@ == remote.0 && x@ == ctx,
                    Err(JinError::NotInitialized) => r matches Ok((url, x)) && url@ == remote.0
                        && x@ == default_context_view(),
                    Err(e) => r == Err::<(String, ProjectContext), JinError>(e),
                },
            },
        },
{
    let config = config?;
    let url = match config.remote {
        Some(remote) => remote.url,
        None => {
            return Err(JinError::Config("No remote configured. Run 'jin link <url>'.".to_owned()));
        },
    };
    let ctx = match context {
        Ok(c) => c,
        Err(JinError::NotInitialized) => ProjectContext::default(),
        Err(e) => {
            return Err(e);
        },
    };
    Ok((url, ctx))
}

/// The group a layer path belongs to: its kind and first name for mode,
/// scope and project paths, `global` for the global layer, otherwise the
/// path itself.
pub open spec fn category_spec(path: Seq<char>) -> Seq<char> {
    let ps = split_spec(path, '/');
    if ps[0] == "mode"@ && ps.len() >= 2 {
        ps[0] + "/"@ + ps[1]
    } else if ps[0] == "scope"@ && ps.len() >= 2 {
        ps[0] + "/"@ + ps[1]
    } else if ps[0] == "project"@ && ps.len() >= 2 {
        ps[0] + "/"@ + ps[1]
    } else if ps[0] == "global"@ {
        "global"@
    } else {
        path
    }
}

/// The group a layer path belongs to.
pub fn categorize_layer(path: &str) -> (r: String)
    ensures
        r@ == category_spec(path@),
{
    let ps = split_chars(path, '/');
    proof {
        lemma_split_nonempty(path@, '/');
    }
    let ghost pv = views(ps@);
    assert(pv.len() == ps@.len());
    assert(pv[0] == ps@[0]@);
    let n = ps.len();
    if (piece_is(&ps, 0, "mode") || piece_is(&ps, 0, "scope") || piece_is(&ps, 0, "project")) && n >= 2 {
        assert(pv[1] == ps@[1]@);
        let a = string_of(ps[0].as_slice());
        let b = string_of(ps[1].as_slice());
        concat3(a.as_str(), "/", b.as_str())
    } else if piece_is(&ps, 0, "global") {
        "global".to_owned()
    } else {
        path.to_owned()
    }
}

/// Whether a layer ref concerns the active context: the global layer
/// always does; a mode-and-scope ref when both are active; another mode
/// ref when its mode is active; a scope ref when no mode is active and its
/// scope is.
pub open spec fn relevant_spec(ref_path: Seq<char>, c: ContextView) -> bool {
    if !has_prefix(ref_path, "refs/jin/layers/"@) {
        false
    } else {
        let lp = ref_path.subrange(16, ref_path.len() as int);
        let ps = split_spec(lp, '/');
        if lp == "global"@ {
            true
        } else if ps.len() >= 4 && ps[0] == "mode"@ && ps[2] == "scope"@ {
            c.mode == Some(ps[1]) && c.scope == Some(ps[3])
        } else if ps.len() >= 2 && ps[0] == "mode"@ {
            c.mode == Some(ps[1])
        } else if ps.len() >= 2 && ps[0] == "scope"@ {
            c.mode is None && c.scope == Some(ps[1])
        } else {
            false
        }
    }
}

/// Whether a layer path (a ref without `refs/jin/layers/`) concerns the
/// active context, by the rule for its full ref.
pub open spec fn path_relevant(path: Seq<char>, c: ContextView) -> bool {
    relevant_spec("refs/jin/layers/"@ + path, c)
}

/// Whether a layer ref concerns the active context.
pub fn is_ref_relevant_to_context(ref_path: &str, context: &ProjectContext) -> (r: bool)
    ensures
        r == relevant_spec(ref_path@, context@),
{
    proof {
        reveal_strlit("refs/jin/layers/");
    }
    let lp = match strip_prefix(ref_path, "refs/jin/layers/") {
        Some(p) => p,
        None => {
            return false;
        },
    };
    if str_eq(lp.as_str(), "global") {
        return true;
    }
    let ps = split_chars(lp.as_str(), '/');
    let ghost pv = views(ps@);
    assert(pv.len() == ps@.len());
    let n = ps.len();
    if n >= 4 && piece_is(&ps, 0, "mode") && piece_is(&ps, 2, "scope") {
        assert(pv[1] == ps@[1]@ && pv[3] == ps@[3]@);
        let m = string_of(ps[1].as_slice());
        let s = string_of(ps[3].as_slice());
        opt_is(&context.mode, m.as_str()) && opt_is(&context.scope, s.as_str())
    } else if n >= 2 && piece_is(&ps, 0, "mode") {
        assert(pv[1] == ps@[1]@);
        let m = string_of(ps[1].as_slice());
        opt_is(&context.mode, m.as_str())
    } else if n >= 2 && piece_is(&ps, 0, "scope") {
        assert(pv[1] == ps@[1]@);
        let s = string_of(ps[1].as_slice());
        context.mode.is_none() && opt_is(&context.scope, s.as_str())
    } else {
        false
    }
}

/// The title of the section of updates to the active context.
pub open spec fn active_title_spec(c: ContextView) -> Seq<char> {
    match (c.mode, c.scope) {
        (Some(m), Some(s)) => "Updates for your active context (mode: "@ + m + ", scope: "@ + s + "):"@,
        (Some(m), None) => "Updates for your active context (mode: "@ + m + "):"@,
        (None, Some(s)) => "Updates for your active context (scope: "@ + s + "):"@,
        (None, None) => "Updates for your active context:"@,
    }
}

/// The title of the section of updates to the active context.
pub fn active_title(context: &ProjectContext) -> (r: String)
    ensures
        r@ == active_title_spec(context@),
{
    match (&context.mode, &context.scope) {
        (Some(m), Some(s)) => concat5(
            "Updates for your active context (mode: ",
            m.as_str(),
            ", scope: ",
            s.as_str(),
            "):",
        ),
        (Some(m), None) => concat3("Updates for your active context (mode: ", m.as_str(), "):"),
        (None, Some(s)) => concat3("Updates for your active context (scope: ", s.as_str(), "):"),
        (None, None) => "Updates for your active context:".to_owned(),
    }
}

/// The layer paths of the updated refs, in order: refs of the user-local
/// layer are skipped, and `refs/jin/layers/` is taken off.
pub open spec fn updated_paths(refs: Seq<Seq<char>>, is_update: Seq<bool>) -> Seq<Seq<char>>
    decreases refs.len(),
{
    if refs.len() == 0 {
        seq![]
    } else {
        let n = refs.len() - 1;
        let rest = updated_paths(refs.drop_last(), is_update);
        if !contains_spec(refs[n], "/local"@) && is_update[n] {
            rest.push(strip_or_self(refs[n], "refs/jin/layers/"@))
        } else {
            rest
        }
    }
}

/// The paths of a group, in order.
pub open spec fn paths_of(paths: Seq<Seq<char>>, cat: Seq<char>) -> Seq<Seq<char>>
    decreases paths.len(),
{
    if paths.len() == 0 {
        seq![]
    } else {
        let rest = paths_of(paths.drop_last(), cat);
        if category_spec(paths.last()) == cat {
            rest.push(paths.last())
        } else {
            rest
        }
    }
}

/// Whether a group holds a path that concerns the active context.
pub open spec fn group_relevant(paths: Seq<Seq<char>>, cat: Seq<char>, c: ContextView) -> bool {
    exists|i: int| 0 <= i < paths_of(paths, cat).len() && path_relevant(#[trigger] paths_of(paths, cat)[i], c)
}

/// Whether a group is one of the updated groups.
pub open spec fn is_group(paths: Seq<Seq<char>>, cat: Seq<char>) -> bool {
    exists|i: int| 0 <= i < paths.len() && category_spec(#[trigger] paths[i]) == cat
}

/// The line of one group.
pub open spec fn group_line(paths: Seq<Seq<char>>, cat: Seq<char>) -> Seq<char> {
    "  - "@ + paths_of(paths, cat)[0] + " ("@ + decimal_spec(paths_of(paths, cat).len()) + " file(s))"@
}

/// The lines of a section, given its groups in increasing order.
pub open spec fn section_lines(title: Seq<char>, cats: Seq<Seq<char>>, paths: Seq<Seq<char>>) -> Seq<Seq<char>> {
    if cats.len() == 0 {
        if contains_spec(title, "active context"@) {
            seq![title]
        } else {
            seq![]
        }
    } else {
        seq![Seq::<char>::empty(), title] + cats.map_values(|c: Seq<char>| group_line(paths, c))
    }
}

/// Whether the report lists the active and other groups in increasing
/// order, each line naming the group's first path and its count.
pub open spec fn report_ok(lines: Seq<Seq<char>>, paths: Seq<Seq<char>>, c: ContextView) -> bool {
    exists|act: Seq<Seq<char>>, oth: Seq<Seq<char>>| {
        &&& sorted_strict(act)
        &&& sorted_strict(oth)
        &&& forall|x: Seq<char>| act.contains(x) <==> (is_group(paths, x) && group_relevant(paths, x, c))
        &&& forall|x: Seq<char>| oth.contains(x) <==> (is_group(paths, x) && !group_relevant(paths, x, c))
        &&& lines == section_lines(active_title_spec(c), act, paths) + (if oth.len() > 0 {
            section_lines("Other updates:"@, oth, paths)
        } else {
            seq![]
        }) + (if act.len() > 0 || oth.len() > 0 {
            seq!["\nRun 'jin pull' to merge updates"@]
        } else {
            seq![]
        })
    }
}

/// A group of updated layer paths.
struct Group {
    cat: String,
    paths: Vec<String>,
}

/// The updated layer paths, in order.
fn collect_updated(refs: &Vec<String>, is_update: &Vec<bool>) -> (r: Vec<String>)
    requires
        is_update@.len() == refs@.len(),
    ensures
        strs(r@) == updated_paths(strs(refs@), is_update@),
{
    let mut out: Vec<String> = Vec::new();
    let mut i: usize = 0;
    while i < refs.len()
        invariant
            i <= refs@.len(),
            is_update@.len() == refs@.len(),
            strs(out@) == updated_paths(strs(refs@).subrange(0, i as int), is_update@),
        decreases refs@.len() - i,
    {
        let ghost pre = strs(refs@).subrange(0, i + 1);
        assert(pre.drop_last() =~= strs(refs@).subrange(0, i as int));
        assert(pre[i as int] == refs@[i as int]@);
        let r = refs[i].as_str();
        if !contains_str(r, "/local") && is_update[i] {
            let p = match strip_prefix(r, "refs/jin/layers/") {
                Some(p) => p,
                None => r.to_owned(),
            };
            let ghost o0 = strs(out@);
            out.push(p);
            assert(strs(out@) =~= o0.push(strip_or_self(pre[i as int], "refs/jin/layers/"@)));
        }
        i = i + 1;
    }
    assert(strs(refs@).subrange(0, refs@.len() as int) =~= strs(refs@));
    out
}

/// The paths of one group, in order.
fn group_paths(paths: &Vec<String>, cat: &str) -> (r: Vec<String>)
    ensures
        strs(r@) == paths_of(strs(paths@), cat@),
{
    let mut out: Vec<String> = Vec::new();
    let mut i: usize = 0;
    while i < paths.len()
        invariant
            i <= paths@.len(),
            strs(out@) == paths_of(strs(paths@).subrange(0, i as int), cat@),
        decreases paths@.len() - i,
    {
        let ghost pre = strs(paths@).subrange(0, i + 1);
        assert(pre.drop_last() =~= strs(paths@).subrange(0, i as int));
        assert(pre.last() == paths@[i as int]@);
        let c = categorize_layer(paths[i].as_str());
        if str_eq(c.as_str(), cat) {
            let ghost o0 = strs(out@);
            out.push(paths[i].clone());
            assert(strs(out@) =~= o0.push(paths@[i as int]@));
        }
        i = i + 1;
    }
    assert(strs(paths@).subrange(0, paths@.len() as int) =~= strs(paths@));
    out
}

/// Whether one of the layer paths concerns the active context, each
/// tested as its full ref.
fn any_relevant(ps: &Vec<String>, context: &ProjectContext) -> (r: bool)
    ensures
        r == exists|i: int| 0 <= i < ps@.len() && path_relevant(#[trigger] strs(ps@)[i], context@),
{
    let mut i: usize = 0;
    while i < ps.len()
        invariant
            i <= ps@.len(),
            forall|j: int| 0 <= j < i ==> !path_relevant(#[trigger] strs(ps@)[j], context@),
        decreases ps@.len() - i,
    {
        assert(strs(ps@)[i as int] == ps@[i as int]@);
        let full = concat2("refs/jin/layers/", ps[i].as_str());
        if is_ref_relevant_to_context(full.as_str(), context) {
            return true;
        }
        i = i + 1;
    }
    false
}

/// The categories of the paths, one entry per path.
fn categories(paths: &Vec<String>) -> (r: Vec<String>)
    ensures
        r@.len() == paths@.len(),
        forall|i: int| 0 <= i < paths@.len() ==> (#[trigger] r@[i])@ == category_spec(paths@[i]@),
{
    let mut out: Vec<String> = Vec::new();
    let mut i: usize = 0;
    while i < paths.len()
        invariant
            i <= paths@.len(),
            out@.len() == i,
            forall|j: int| 0 <= j < i ==> (#[trigger] out@[j])@ == category_spec(paths@[j]@),
        decreases paths@.len() - i,
    {
        out.push(categorize_layer(paths[i].as_str()));
        i = i + 1;
    }
    out
}

/// A path of a group lies in the group.
proof fn lemma_paths_of_member(paths: Seq<Seq<char>>, cat: Seq<char>, i: int)
    requires
        0 <= i < paths.len(),
        category_spec(paths[i]) == cat,
    ensures
        paths_of(paths, cat).len() > 0,
    decreases paths.len(),
{
    if i < paths.len() - 1 {
        lemma_paths_of_member(paths.drop_last(), cat, i);
    }
}

/// The lines of a section.
fn section(title: &str, cats: &Vec<String>, paths: &Vec<String>) -> (r: Vec<String>)
    requires
        forall|i: int| 0 <= i < cats@.len() ==> paths_of(strs(paths@), (#[trigger] cats@[i])@).len() > 0,
    ensures
        strs(r@) == section_lines(title@, strs(cats@), strs(paths@)),
{
    let mut lines: Vec<String> = Vec::new();
    if cats.len() == 0 {
        if contains_str(title, "active context") {
            lines.push(title.to_owned());
        }
        assert(strs(lines@) =~= section_lines(title@, strs(cats@), strs(paths@)));
        return lines;
    }
    lines.push(String::new());
    lines.push(title.to_owned());
    let ghost head = strs(lines@);
    assert(head =~= seq![Seq::<char>::empty(), title@]);
    let mut i: usize = 0;
    while i < cats.len()
        invariant
            i <= cats@.len(),
            cats@.len() > 0,
            head == seq![Seq::<char>::empty(), title@],
            forall|k: int| 0 <= k < cats@.len() ==> paths_of(strs(paths@), (#[trigger] cats@[k])@).len() > 0,
            strs(lines@) == head + strs(cats@).subrange(0, i as int).map_values(
                |c: Seq<char>| group_line(strs(paths@), c),
            ),
        decreases cats@.len() - i,
    {
        let ps = group_paths(paths, cats[i].as_str());
        assert(paths_of(strs(paths@), cats@[i as int]@).len() > 0);
        assert(strs(ps@)[0] == ps@[0]@);
        let n = usize_to_string(ps.len());
        let line = concat5("  - ", ps[0].as_str(), " (", n.as_str(), " file(s))");
        let ghost l0 = strs(lines@);
        lines.push(line);
        assert(strs(cats@).subrange(0, i + 1).map_values(|c: Seq<char>| group_line(strs(paths@), c))
            =~= strs(cats@).subrange(0, i as int).map_values(|c: Seq<char>| group_line(strs(paths@), c)).push(
            group_line(strs(paths@), cats@[i as int]@),
        ));
        assert(strs(lines@) =~= l0.push(group_line(strs(paths@), cats@[i as int]@)));
        i = i + 1;
    }
    assert(strs(cats@).subrange(0, cats@.len() as int) =~= strs(cats@));
    lines
}

/// The report `jin fetch` prints, given the remote layer refs and, for
/// each, whether it differs from the local ref (or has none).
pub fn report_updates(refs: &Vec<String>, is_update: &Vec<bool>, context: &ProjectContext) -> (r: Vec<String>)
    requires
        is_update@.len() == refs@.len(),
    ensures
        refs@.len() == 0 ==> strs(r@) == seq!["No remote configurations found"@],
        refs@.len() > 0 && updated_paths(strs(refs@), is_update@).len() == 0 ==> strs(r@) == seq![
            "Already up to date"@,
        ],
        refs@.len() > 0 && updated_paths(strs(refs@), is_update@).len() > 0 ==> report_ok(
            strs(r@),
            updated_paths(strs(refs@), is_update@),
            context@,
        ),
{
    if refs.len() == 0 {
        let mut v: Vec<String> = Vec::new();
        v.push("No remote configurations found".to_owned());
        assert(strs(v@) =~= seq!["No remote configurations found"@]);
        return v;
    }
    let paths = collect_updated(refs, is_update);
    if paths.len() == 0 {
        let mut v: Vec<String> = Vec::new();
        v.push("Already up to date".to_owned());
        assert(strs(v@) =~= seq!["Already up to date"@]);
        return v;
    }
    let ghost pv = strs(paths@);
    let cats = categories(&paths);
    let mut act_all: Vec<String> = Vec::new();
    let mut oth_all: Vec<String> = Vec::new();
    let mut i: usize = 0;
    while i < cats.len()
        invariant
            i <= cats@.len(),
            cats@.len() == paths@.len(),
            pv == strs(paths@),
            forall|j: int| 0 <= j < paths@.len() ==> (#[trigger] cats@[j])@ == category_spec(paths@[j]@),
            forall|x: Seq<char>| strs(act_all@).contains(x) <==> (exists|j: int| 0 <= j < i && (#[trigger] cats@[j])@ == x
                && group_relevant(pv, x, context@)),
            forall|x: Seq<char>| strs(oth_all@).contains(x) <==> (exists|j: int| 0 <= j < i && (#[trigger] cats@[j])@ == x
                && !group_relevant(pv, x, context@)),
        decreases cats@.len() - i,
    {
        let ps = group_paths(&paths, cats[i].as_str());
        let rel = any_relevant(&ps, context);
        let ghost x = cats@[i as int]@;
        assert(rel == group_relevant(pv, x, context@));
        let ghost a0 = strs(act_all@);
        let ghost o0 = strs(oth_all@);
        if rel {
            act_all.push(cats[i].clone());
            assert(strs(act_all@) =~= a0.push(x));
            assert(strs(oth_all@) == o0);
        } else {
            oth_all.push(cats[i].clone());
            assert(strs(oth_all@) =~= o0.push(x));
            assert(strs(act_all@) == a0);
        }
        assert forall|y: Seq<char>| strs(act_all@).contains(y) <==> (exists|j: int| 0 <= j < i + 1 && (#[trigger] cats@[j])@ == y
            && group_relevant(pv, y, context@)) by {
            if strs(act_all@).contains(y) && !a0.contains(y) {
                assert(cats@[i as int]@ == y);
            }
            if a0.contains(y) {
                let k = choose|k: int| 0 <= k < a0.len() && a0[k] == y;
                assert(strs(act_all@)[k] == y);
            }
            if exists|j: int| 0 <= j < i + 1 && (#[trigger] cats@[j])@ == y && group_relevant(pv, y, context@) {
                let j = choose|j: int| 0 <= j < i + 1 && (#[trigger] cats@[j])@ == y && group_relevant(pv, y, context@);
                if j == i {
                    assert(strs(act_all@)[strs(act_all@).len() - 1] == y);
                }
            }
        }
        assert forall|y: Seq<char>| strs(oth_all@).contains(y) <==> (exists|j: int| 0 <= j < i + 1 && (#[trigger] cats@[j])@ == y
            && !group_relevant(pv, y, context@)) by {
            if strs(oth_all@).contains(y) && !o0.contains(y) {
                assert(cats@[i as int]@ == y);
            }
            if o0.contains(y) {
                let k = choose|k: int| 0 <= k < o0.len() && o0[k] == y;
                assert(strs(oth_all@)[k] == y);
            }
            if exists|j: int| 0 <= j < i + 1 && (#[trigger] cats@[j])@ == y && !group_relevant(pv, y, context@) {
                let j = choose|j: int| 0 <= j < i + 1 && (#[trigger] cats@[j])@ == y && !group_relevant(pv, y, context@);
                if j == i {
                    assert(strs(oth_all@)[strs(oth_all@).len() - 1] == y);
                }
            }
        }
        i = i + 1;
    }
    let act = sorted_unique(&act_all);
    let oth = sorted_unique(&oth_all);
    proof {
        assert forall|x: Seq<char>| strs(act@).contains(x) <==> (is_group(pv, x) && group_relevant(pv, x, context@)) by {
            if is_group(pv, x) {
                let j = choose|j: int| 0 <= j < pv.len() && category_spec(#[trigger] pv[j]) == x;
                assert(cats@[j]@ == x);
            }
            if exists|j: int| 0 <= j < cats@.len() && (#[trigger] cats@[j])@ == x {
                let j = choose|j: int| 0 <= j < cats@.len() && (#[trigger] cats@[j])@ == x;
                assert(category_spec(pv[j]) == x);
            }
        }
        assert forall|x: Seq<char>| strs(oth@).contains(x) <==> (is_group(pv, x) && !group_relevant(pv, x, context@)) by {
            if is_group(pv, x) {
                let j = choose|j: int| 0 <= j < pv.len() && category_spec(#[trigger] pv[j]) == x;
                assert(cats@[j]@ == x);
            }
            if exists|j: int| 0 <= j < cats@.len() && (#[trigger] cats@[j])@ == x {
                let j = choose|j: int| 0 <= j < cats@.len() && (#[trigger] cats@[j])@ == x;
                assert(category_spec(pv[j]) == x);
            }
        }
        assert forall|k: int| 0 <= k < act@.len() implies paths_of(pv, (#[trigger] act@[k])@).len() > 0 by {
            assert(strs(act@)[k] == act@[k]@);
            assert(strs(act@).contains(act@[k]@));
            assert(is_group(pv, act@[k]@));
            let j = choose|j: int| 0 <= j < pv.len() && category_spec(#[trigger] pv[j]) == act@[k]@;
            lemma_paths_of_member(pv, act@[k]@, j);
        }
        assert forall|k: int| 0 <= k < oth@.len() implies paths_of(pv, (#[trigger] oth@[k])@).len() > 0 by {
            assert(strs(oth@)[k] == oth@[k]@);
            assert(strs(oth@).contains(oth@[k]@));
            assert(is_group(pv, oth@[k]@));
            let j = choose|j: int| 0 <= j < pv.len() && category_spec(#[trigger] pv[j]) == oth@[k]@;
            lemma_paths_of_member(pv, oth@[k]@, j);
        }
    }
    let title = active_title(context);
    let mut lines = section(title.as_str(), &act, &paths);
    let ghost l0 = strs(lines@);
    if oth.len() > 0 {
        let mut more = section("Other updates:", &oth, &paths);
        lines.append(&mut more);
    }
    let ghost l1 = strs(lines@);
    if act.len() > 0 || oth.len() > 0 {
        lines.push("\nRun 'jin pull' to merge updates".to_owned());
    }
    proof {
        assert(strs(act@).len() == act@.len() && strs(oth@).len() == oth@.len());
        assert(l1 =~= l0 + (if oth@.len() > 0 {
            section_lines("Other updates:"@, strs(oth@), pv)
        } else {
            seq![]
        }));
        assert(strs(lines@) =~= l1 + (if act@.len() > 0 || oth@.len() > 0 {
            seq!["\nRun 'jin pull' to merge updates"@]
        } else {
            seq![]
        }));
        assert(report_ok(strs(lines@), pv, context@));
    }
    lines
}

/// The error of a failed fetch: an authentication failure, or the Git
/// error itself.
pub fn fetch_error(auth_failed: bool, message: &str) -> (r: JinError)
    ensures
        auth_failed ==> (r matches JinError::Config(m) && m@ == "Authentication failed. Check your SSH keys or credentials.\nTry: ssh -T git@github.com (for GitHub)"@),
        !auth_failed ==> (r matches JinError::Git(m) && m@ == message@),
{
    if auth_failed {
        JinError::Config(
            "Authentication failed. Check your SSH keys or credentials.\nTry: ssh -T git@github.com (for GitHub)".to_owned(),
        )
    } else {
        JinError::Git(message.to_owned())
    }
}

/// The line `jin fetch` prints before fetching.
pub fn fetching_line(url: &str) -> (r: String)
    ensures
        r@ == "Fetching from origin ("@ + url@ + ")..."@,
{
    concat3("Fetching from origin (", url, ")...")
}

} // verus!
