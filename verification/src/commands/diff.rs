//! `jin diff`: which comparison a diff makes, and the line-by-line text
//! diff it prints.

use vstd::prelude::*;
use vstd::string::*;
use crate::cli::args::DiffArgs;
use crate::commands::common::{
    context_ref_path, layer_named, loaded_view, parse_layer_name, resolve_context,
    resolved_context, strs, unknown_layer_message,
};
use crate::model::config::{ContextView, ProjectContext};
use crate::model::error::JinError;
use crate::model::layer::{layer_display_spec, ref_path_spec, Layer};
use crate::staging::index::{StagedEntry, StagingIndex};
use crate::text::{concat2, concat3, concat4, str_eq};

verus! {

/// The comparison `jin diff` makes.
#[derive(Debug)]
pub enum DiffPlan {
    /// The staged changes.
    Staged,
    /// Two layers, by their refs.
    Layers { layer1: Layer, layer2: Layer, ref1: String, ref2: String },
    /// The workspace against one layer, by its ref.
    WorkspaceVsLayer { layer: Layer, ref_path: String },
    /// The workspace against the merge of the applicable layers.
    WorkspaceVsActive,
}

/// The ref path of a layer in a context view.
pub open spec fn ref_in(l: Layer, c: ContextView) -> Seq<char> {
    ref_path_spec(l, c.mode, c.scope, c.project)
}

/// Decides the comparison: `--staged` first, then two layer names, then
/// one; with none, the workspace against the merged layers.
pub fn execute(args: &DiffArgs, context: Result<ProjectContext, JinError>) -> (r: Result<
    (DiffPlan, ProjectContext),
    JinError,
>)
    ensures
        match resolved_context(loaded_view(context)) {
            Err(_) => r matches Err(JinError::NotInitialized),
            Ok(c) => if args.staged {
                r matches Ok((DiffPlan::Staged, x)) && x@ == c
            } else if args.layer1 is Some && args.layer2 is Some {
                let n1 = args.layer1->Some_0@;
                let n2 = args.layer2->Some_0@;
                match (layer_named(n1), layer_named(n2)) {
                    (None, _) => r matches Err(JinError::Other(m)) && m@ == unknown_layer_message(n1),
                    (Some(_), None) => r matches Err(JinError::Other(m)) && m@ == unknown_layer_message(
                        n2,
                    ),
                    (Some(l1), Some(l2)) => r matches Ok(
                        (DiffPlan::Layers { layer1, layer2, ref1, ref2 }, x),
                    ) && layer1 == l1 && layer2 == l2 && ref1@ == ref_in(l1, c) && ref2@ == ref_in(l2, c)
                        && x@ == c,
                }
            } else if args.layer1 is Some {
                let n1 = args.layer1->Some_0@;
                match layer_named(n1) {
                    None => r matches Err(JinError::Other(m)) && m@ == unknown_layer_message(n1),
                    Some(l) => r matches Ok((DiffPlan::WorkspaceVsLayer { layer, ref_path }, x)) && layer
                        == l && ref_path@ == ref_in(l, c) && x@ == c,
                }
            } else {
                r matches Ok((DiffPlan::WorkspaceVsActive, x)) && x@ == c
            },
        },
{
    let context = resolve_context(context)?;
    if args.staged {
        return Ok((DiffPlan::Staged, context));
    }
    match (&args.layer1, &args.layer2) {
        (Some(a), Some(b)) => {
            let l1 = parse_layer_name(a.as_str())?;
            let l2 = parse_layer_name(b.as_str())?;
            let ref1 = context_ref_path(l1, &context);
            let ref2 = context_ref_path(l2, &context);
            Ok((DiffPlan::Layers { layer1: l1, layer2: l2, ref1, ref2 }, context))
        },
        (Some(a), None) => {
            let l = parse_layer_name(a.as_str())?;
            let ref_path = context_ref_path(l, &context);
            Ok((DiffPlan::WorkspaceVsLayer { layer: l, ref_path }, context))
        },
        _ => Ok((DiffPlan::WorkspaceVsActive, context)),
    }
}

/// How far ahead the text diff looks for matching lines.
pub open spec fn search_radius() -> int {
    5
}

/// The first position at or after `oi + j`, within the radius, where
/// `other` holds `line`.
pub open spec fn match_in(line: Seq<char>, other: Seq<Seq<char>>, oi: int, j: int) -> Option<int>
    decreases 6 - j,
{
    if j > search_radius() || j < 0 || oi + j >= other.len() {
        None
    } else if line == other[oi + j] {
        Some(oi + j)
    } else {
        match_in(line, other, oi, j + 1)
    }
}

/// The first pair of positions, lines of `cur` from `ci + i` and lines of
/// `other` from `oi`, both within the radius, that hold the same line.
pub open spec fn next_match(cur: Seq<Seq<char>>, ci: int, other: Seq<Seq<char>>, oi: int, i: int) -> Option<(int, int)>
    decreases 6 - i,
{
    if i > search_radius() || i < 0 || ci + i >= cur.len() {
        None
    } else {
        match match_in(cur[ci + i], other, oi, 0) {
            Some(op) => Some((ci + i, op)),
            None => next_match(cur, ci, other, oi, i + 1),
        }
    }
}

/// Where the run of removed (or added) lines ends: at the next matching
/// line, or at the end when there is none.
pub open spec fn run_end(lines: Seq<Seq<char>>, at: int, m: Option<(int, int)>) -> int {
    match m {
        Some(p) => p.0,
        None => if at < lines.len() {
            lines.len() as int
        } else {
            at
        },
    }
}

/// A match found from `ci` lies at or after `ci` and inside `cur`.
pub proof fn lemma_next_match_range(cur: Seq<Seq<char>>, ci: int, other: Seq<Seq<char>>, oi: int, i: int)
    requires
        0 <= ci,
        0 <= i,
    ensures
        next_match(cur, ci, other, oi, i) matches Some(p) ==> ci <= p.0 < cur.len() && p.0 >= ci + i,
    decreases 6 - i,
{
    if !(i > search_radius() || ci + i >= cur.len()) {
        lemma_next_match_range(cur, ci, other, oi, i + 1);
    }
}

/// The part of the diff measure that a position has left to cover.
pub open spec fn left(len: int, at: int) -> int {
    if at < len {
        len - at
    } else {
        0
    }
}

/// The lines from `from` up to `to`, none when the span is empty.
pub open spec fn span(lines: Seq<Seq<char>>, from: int, to: int) -> Seq<Seq<char>> {
    if from < to {
        lines.subrange(from, to)
    } else {
        seq![]
    }
}

/// A line kept in both.
pub open spec fn same_line(l: Seq<char>) -> Seq<char> {
    " "@ + l
}

/// A line only in the old text, in red.
pub open spec fn removed_line(l: Seq<char>) -> Seq<char> {
    "\u{1b}[31m-"@ + l + "\u{1b}[0m"@
}

/// A line only in the new text, in green.
pub open spec fn added_line(l: Seq<char>) -> Seq<char> {
    "\u{1b}[32m+"@ + l + "\u{1b}[0m"@
}

/// The line at a position, or the empty line past the end.
pub open spec fn line_at(lines: Seq<Seq<char>>, i: int) -> Seq<char> {
    if 0 <= i < lines.len() {
        lines[i]
    } else {
        Seq::<char>::empty()
    }
}

/// The lines the text diff prints from positions `o` and `n` on, or
/// `None` where it would loop forever: where the lines differ and neither
/// side's next line occurs within reach past the other side's, so that
/// neither run advances.
pub open spec fn diff_from(old: Seq<Seq<char>>, new: Seq<Seq<char>>, o: int, n: int) -> Option<Seq<Seq<char>>>
    decreases left(old.len() as int, o) + left(new.len() as int, n),
{
    if o < 0 || n < 0 || !(o < old.len() || n < new.len()) {
        Some(seq![])
    } else {
        let ol = line_at(old, o);
        let nl = line_at(new, n);
        if ol == nl {
            match diff_from(old, new, o + 1, n + 1) {
                Some(rest) => Some(seq![same_line(ol)] + rest),
                None => None,
            }
        } else {
            let on = next_match(old, o, new, n, 0);
            let nn = next_match(new, n, old, o, 0);
            let o2 = run_end(old, o, on);
            let n2 = run_end(new, n, nn);
            proof {
                lemma_next_match_range(old, o, new, n, 0);
                lemma_next_match_range(new, n, old, o, 0);
            }
            if o2 == o && n2 == n {
                None
            } else {
                match diff_from(old, new, o2, n2) {
                    Some(rest) => Some(
                        span(old, o, o2).map_values(|l: Seq<char>| removed_line(l)) + span(
                            new,
                            n,
                            n2,
                        ).map_values(|l: Seq<char>| added_line(l)) + rest,
                    ),
                    None => None,
                }
            }
        }
    }
}

/// The first position of `other`, from `oi` within the radius, holding
/// `line`.
fn match_in_exec(line: &str, other: &Vec<String>, oi: usize, j: usize) -> (r: Option<usize>)
    requires
        j <= 6,
        oi + 6 <= usize::MAX,
    ensures
        match r {
            Some(p) => match_in(line@, strs(other@), oi as int, j as int) == Some(p as int),
            None => match_in(line@, strs(other@), oi as int, j as int) is None,
        },
    decreases 6 - j,
{
    if j > 5 || oi + j >= other.len() {
        return None;
    }
    assert(strs(other@)[oi + j] == other@[oi + j]@);
    if str_eq(line, other[oi + j].as_str()) {
        Some(oi + j)
    } else {
        match_in_exec(line, other, oi, j + 1)
    }
}

/// The next pair of matching lines within the radius, as
/// `find_next_match` finds it.
fn find_next_match(cur: &Vec<String>, ci: usize, other: &Vec<String>, oi: usize, i: usize) -> (r: Option<(usize, usize)>)
    requires
        i <= 6,
        ci + 6 <= usize::MAX,
        oi + 6 <= usize::MAX,
    ensures
        match r {
            Some(p) => next_match(strs(cur@), ci as int, strs(other@), oi as int, i as int) == Some(
                (p.0 as int, p.1 as int),
            ),
            None => next_match(strs(cur@), ci as int, strs(other@), oi as int, i as int) is None,
        },
    decreases 6 - i,
{
    if i > 5 || ci + i >= cur.len() {
        return None;
    }
    assert(strs(cur@)[ci + i] == cur@[ci + i]@);
    match match_in_exec(cur[ci + i].as_str(), other, oi, 0) {
        Some(op) => Some((ci + i, op)),
        None => find_next_match(cur, ci, other, oi, i + 1),
    }
}

/// The diff from positions `o` and `n` on, after the lines already
/// printed.
pub open spec fn after(printed: Seq<Seq<char>>, d: Option<Seq<Seq<char>>>) -> Option<Seq<Seq<char>>> {
    match d {
        Some(x) => Some(printed + x),
        None => None,
    }
}

/// The line-by-line diff of two texts, as `jin diff` prints it: kept lines
/// with a space, removed lines in red, added lines in green; `None` where
/// the diff would never end, because at some point neither side's run of
/// differing lines advances.
pub fn text_diff(old: &Vec<String>, new: &Vec<String>) -> (r: Option<Vec<String>>)
    requires
        old@.len() + new@.len() + 6 <= usize::MAX,
    ensures
        match diff_from(strs(old@), strs(new@), 0, 0) {
            Some(d) => r matches Some(v) && strs(v@) == d,
            None => r is None,
        },
{
    let ghost os = strs(old@);
    let ghost ns = strs(new@);
    let mut out: Vec<String> = Vec::new();
    let mut o: usize = 0;
    let mut n: usize = 0;
    assert(after(strs(out@), diff_from(os, ns, 0, 0)) =~= diff_from(os, ns, 0, 0)) by {
        if diff_from(os, ns, 0, 0) is Some {
            assert(strs(out@) + diff_from(os, ns, 0, 0)->Some_0 =~= diff_from(os, ns, 0, 0)->Some_0);
        }
    }
    while o < old.len() || n < new.len()
        invariant
            os == strs(old@),
            ns == strs(new@),
            old@.len() + new@.len() + 6 <= usize::MAX,
            o <= old@.len() + n,
            n <= new@.len() + o,
            o <= old@.len() + new@.len(),
            n <= old@.len() + new@.len(),
            diff_from(os, ns, 0, 0) == after(strs(out@), diff_from(os, ns, o as int, n as int)),
        decreases left(old@.len() as int, o as int) + left(new@.len() as int, n as int),
    {
        let ol: &str = if o < old.len() {
            old[o].as_str()
        } else {
            ""
        };
        let nl: &str = if n < new.len() {
            new[n].as_str()
        } else {
            ""
        };
        proof {
            reveal_strlit("");
            if o < old@.len() {
                assert(os[o as int] == old@[o as int]@);
            }
            if n < new@.len() {
                assert(ns[n as int] == new@[n as int]@);
            }
            assert(ol@ == line_at(os, o as int));
            assert(nl@ == line_at(ns, n as int));
        }
        let ghost rest = diff_from(os, ns, o as int, n as int)->Some_0;
        let ghost whole = diff_from(os, ns, o as int, n as int);
        if str_eq(ol, nl) {
            let ghost o0 = strs(out@);
            let line = concat3(" ", ol, "");
            proof {
                reveal_strlit("");
            }
            out.push(line);
            assert(strs(out@) =~= o0.push(same_line(ol@)));
            assert(after(strs(out@), diff_from(os, ns, o + 1, n + 1)) == after(o0, diff_from(os, ns, o as int, n as int))) by {
                if diff_from(os, ns, o + 1, n + 1) is Some {
                    assert(rest == seq![same_line(ol@)] + diff_from(os, ns, o + 1, n + 1)->Some_0);
                    assert(strs(out@) + diff_from(os, ns, o + 1, n + 1)->Some_0 =~= o0 + rest);
                }
            }
            o = o + 1;
            n = n + 1;
        } else {
            let on = find_next_match(old, o, new, n, 0);
            let nn = find_next_match(new, n, old, o, 0);
            proof {
                lemma_next_match_range(os, o as int, ns, n as int, 0);
                lemma_next_match_range(ns, n as int, os, o as int, 0);
            }
            let o2: usize = match on {
                Some(p) => p.0,
                None => if o < old.len() {
                    old.len()
                } else {
                    o
                },
            };
            let n2: usize = match nn {
                Some(p) => p.0,
                None => if n < new.len() {
                    new.len()
                } else {
                    n
                },
            };
            assert(o2 as int == run_end(os, o as int, next_match(os, o as int, ns, n as int, 0)));
            assert(n2 as int == run_end(ns, n as int, next_match(ns, n as int, os, o as int, 0)));
            if o2 == o && n2 == n {
                assert(whole is None);
                return None;
            }
            let ghost o0 = strs(out@);
            assert(strs(out@) =~= o0 + span(os, o as int, o as int).map_values(|l: Seq<char>| removed_line(l)));
            let mut k = o;
            while k < o2
                invariant
                    o <= k <= o2,
                    o2 == o || o2 <= old@.len(),
                    os == strs(old@),
                    strs(out@) == o0 + span(os, o as int, k as int).map_values(|l: Seq<char>| removed_line(l)),
                decreases o2 - k,
            {
                let ghost before = strs(out@);
                out.push(concat3("\u{1b}[31m-", old[k].as_str(), "\u{1b}[0m"));
                assert(os[k as int] == old@[k as int]@);
                assert(span(os, o as int, k + 1).map_values(|l: Seq<char>| removed_line(l)) =~= span(
                    os,
                    o as int,
                    k as int,
                ).map_values(|l: Seq<char>| removed_line(l)).push(removed_line(os[k as int])));
                assert(strs(out@) =~= before.push(removed_line(os[k as int])));
                k = k + 1;
            }
            let ghost o1 = strs(out@);
            assert(strs(out@) =~= o1 + span(ns, n as int, n as int).map_values(|l: Seq<char>| added_line(l)));
            let mut k = n;
            while k < n2
                invariant
                    n <= k <= n2,
                    n2 == n || n2 <= new@.len(),
                    ns == strs(new@),
                    strs(out@) == o1 + span(ns, n as int, k as int).map_values(|l: Seq<char>| added_line(l)),
                decreases n2 - k,
            {
                let ghost before = strs(out@);
                out.push(concat3("\u{1b}[32m+", new[k].as_str(), "\u{1b}[0m"));
                assert(ns[k as int] == new@[k as int]@);
                assert(span(ns, n as int, k + 1).map_values(|l: Seq<char>| added_line(l)) =~= span(
                    ns,
                    n as int,
                    k as int,
                ).map_values(|l: Seq<char>| added_line(l)).push(added_line(ns[k as int])));
                assert(strs(out@) =~= before.push(added_line(ns[k as int])));
                k = k + 1;
            }
            assert(after(strs(out@), diff_from(os, ns, o2 as int, n2 as int)) == after(o0, whole)) by {
                if diff_from(os, ns, o2 as int, n2 as int) is Some {
                    assert(strs(out@) + diff_from(os, ns, o2 as int, n2 as int)->Some_0 =~= o0 + rest);
                }
            }
            o = o2;
            n = n2;
        }
    }
    assert(diff_from(os, ns, o as int, n as int) == Some(Seq::<Seq<char>>::empty()));
    assert(strs(out@) + Seq::<Seq<char>>::empty() =~= strs(out@));
    Some(out)
}

/// What `jin diff --staged` prints: each staged file with its layer, and
/// a note under those whose workspace content no longer matches what was
/// staged (`modified`, one flag per entry).
pub open spec fn staged_diff_report(s: Seq<StagedEntry>, modified: Seq<bool>) -> Seq<Seq<char>>
    decreases s.len(),
{
    if s.len() == 0 {
        seq![]
    } else {
        staged_diff_report(s.drop_last(), modified.drop_last()) + seq![
            "  "@ + s.last().path@ + " -> "@ + layer_display_spec(s.last().target_layer),
        ] + if modified.len() > 0 && modified.last() {
            seq!["    (modified since staging)"@]
        } else {
            seq![]
        }
    }
}

/// What `jin diff --staged` prints.
pub fn staged_diff_lines(staging: &StagingIndex, modified: &Vec<bool>) -> (r: Vec<String>)
    requires
        modified@.len() == staging@.len(),
    ensures
        strs(r@) == (if staging@.len() == 0 {
            seq!["No staged changes"@]
        } else {
            seq!["Staged changes:"@, seq![]] + staged_diff_report(staging@, modified@)
        }),
{
    let entries = staging.entries();
    let mut lines: Vec<String> = Vec::new();
    if entries.len() == 0 {
        lines.push("No staged changes".to_owned());
        assert(strs(lines@) =~= seq!["No staged changes"@]);
        return lines;
    }
    lines.push("Staged changes:".to_owned());
    lines.push(String::new());
    let ghost head = strs(lines@);
    let mut i: usize = 0;
    while i < entries.len()
        invariant
            i <= entries@.len(),
            entries@ == staging@,
            modified@.len() == staging@.len(),
            strs(lines@) == head + staged_diff_report(entries@.subrange(0, i as int), modified@.subrange(0, i as int)),
        decreases entries@.len() - i,
    {
        let e = &entries[i];
        let layer = e.target_layer.to_string();
        let ghost l0 = strs(lines@);
        lines.push(concat4("  ", e.path.as_str(), " -> ", layer.as_str()));
        if modified[i] {
            lines.push("    (modified since staging)".to_owned());
        }
        assert(entries@.subrange(0, i + 1).drop_last() =~= entries@.subrange(0, i as int));
        assert(modified@.subrange(0, i + 1).drop_last() =~= modified@.subrange(0, i as int));
        assert(strs(lines@) =~= l0 + seq!["  "@ + e.path@ + " -> "@ + layer_display_spec(e.target_layer)] + if modified@[i as int] {
            seq!["    (modified since staging)"@]
        } else {
            seq![]
        });
        i = i + 1;
    }
    assert(entries@.subrange(0, entries@.len() as int) =~= entries@);
    assert(modified@.subrange(0, modified@.len() as int) =~= modified@);
    lines
}

/// The error of a layer whose ref does not exist.
pub fn no_commits_error(layer: Layer) -> (r: JinError)
    ensures
        r matches JinError::Other(m) && m@ == "Layer "@ + layer_display_spec(layer) + " has no commits"@,
{
    let name = layer.to_string();
    JinError::Other(concat3("Layer ", name.as_str(), " has no commits"))
}

/// What a diff of two layers prints before the patch, or alone where the
/// trees are the same.
pub fn layers_diff_heading(layer1: Layer, layer2: Layer, changes: usize) -> (r: Vec<String>)
    ensures
        strs(r@) == (if changes == 0 {
            seq!["No differences between "@ + layer_display_spec(layer1) + " and "@ + layer_display_spec(layer2)]
        } else {
            seq!["diff --jin a/"@ + layer_display_spec(layer1) + " b/"@ + layer_display_spec(layer2), seq![]]
        }),
{
    let a = layer1.to_string();
    let b = layer2.to_string();
    let lines = if changes == 0 {
        vec![concat4("No differences between ", a.as_str(), " and ", b.as_str())]
    } else {
        vec![concat4("diff --jin a/", a.as_str(), " b/", b.as_str()), String::new()]
    };
    assert(strs(lines@) =~= (if changes == 0 {
        seq!["No differences between "@ + layer_display_spec(layer1) + " and "@ + layer_display_spec(layer2)]
    } else {
        seq!["diff --jin a/"@ + layer_display_spec(layer1) + " b/"@ + layer_display_spec(layer2), seq![]]
    }));
    lines
}

/// How one line of a Git patch is printed, by its origin: added lines in
/// green, removed lines in red, context lines after a space, file and hunk
/// headers after their markers, anything else as it is. Content that is
/// not UTF-8 (`None`) prints as `<binary>`.
pub open spec fn patch_text(origin: char, content: Option<Seq<char>>) -> Seq<char> {
    let c = match content {
        Some(t) => t,
        None => "<binary>"@,
    };
    if origin == '+' {
        "\u{1b}[32m+"@ + c + "\u{1b}[0m"@
    } else if origin == '-' {
        "\u{1b}[31m-"@ + c + "\u{1b}[0m"@
    } else if origin == ' ' {
        " "@ + c
    } else if origin == 'F' {
        "--- "@ + c
    } else if origin == 'T' {
        "+++ "@ + c
    } else if origin == 'H' {
        "@@ "@ + c
    } else {
        c
    }
}

/// How one line of a Git patch is printed.
pub fn patch_line(origin: char, content: Option<&str>) -> (r: String)
    ensures
        r@ == patch_text(origin, match content {
            Some(t) => Some(t@),
            None => None,
        }),
{
    let c = match content {
        Some(t) => t,
        None => "<binary>",
    };
    if origin == '+' {
        concat3("\u{1b}[32m+", c, "\u{1b}[0m")
    } else if origin == '-' {
        concat3("\u{1b}[31m-", c, "\u{1b}[0m")
    } else if origin == ' ' {
        concat2(" ", c)
    } else if origin == 'F' {
        concat2("--- ", c)
    } else if origin == 'T' {
        concat2("+++ ", c)
    } else if origin == 'H' {
        concat2("@@ ", c)
    } else {
        c.to_owned()
    }
}

/// What the executable found of one file of a layer, against the
/// workspace.
#[derive(Debug)]
pub enum FileComparison {
    /// The layer's content or the workspace file could not be read.
    Unreadable,
    /// The workspace holds the same content.
    Same,
    /// The workspace holds other content; the lines of each side.
    Differs { layer_lines: Vec<String>, workspace_lines: Vec<String> },
    /// The file is not in the workspace.
    Missing,
}

/// What a diff of the workspace against a layer prints for one file:
/// nothing when it is the same or unreadable; the text diff between
/// headers when it differs (`None` where that diff never ends); a note
/// when it is missing.
pub open spec fn file_report(layer: Layer, path: Seq<char>, c: FileComparison) -> Option<Seq<Seq<char>>> {
    match c {
        FileComparison::Unreadable => Some(seq![]),
        FileComparison::Same => Some(seq![]),
        FileComparison::Missing => Some(seq!["Only in "@ + layer_display_spec(layer) + ": "@ + path, seq![]]),
        FileComparison::Differs { layer_lines, workspace_lines } => match diff_from(
            strs(layer_lines@),
            strs(workspace_lines@),
            0,
            0,
        ) {
            Some(d) => Some(seq!["--- a/"@ + path + " (layer)"@, "+++ b/"@ + path + " (workspace)"@] + d + seq![
                seq![],
            ]),
            None => None,
        },
    }
}

/// What a diff of the workspace against a layer prints for one file.
pub fn file_lines(layer: Layer, path: &str, c: &FileComparison) -> (r: Option<Vec<String>>)
    requires
        c matches FileComparison::Differs { layer_lines, workspace_lines } ==> layer_lines@.len()
            + workspace_lines@.len() + 6 <= usize::MAX,
    ensures
        match file_report(layer, path@, *c) {
            Some(x) => r matches Some(v) && strs(v@) == x,
            None => r is None,
        },
{
    let mut lines: Vec<String> = Vec::new();
    match c {
        FileComparison::Unreadable | FileComparison::Same => {
            assert(strs(lines@) =~= seq![]);
            Some(lines)
        },
        FileComparison::Missing => {
            let name = layer.to_string();
            lines.push(concat4("Only in ", name.as_str(), ": ", path));
            lines.push(String::new());
            assert(strs(lines@) =~= seq!["Only in "@ + layer_display_spec(layer) + ": "@ + path@, seq![]]);
            Some(lines)
        },
        FileComparison::Differs { layer_lines, workspace_lines } => {
            let d = match text_diff(layer_lines, workspace_lines) {
                Some(d) => d,
                None => return None,
            };
            lines.push(concat3("--- a/", path, " (layer)"));
            lines.push(concat3("+++ b/", path, " (workspace)"));
            let ghost head = strs(lines@);
            let mut k: usize = 0;
            while k < d.len()
                invariant
                    k <= d@.len(),
                    strs(lines@) == head + strs(d@).subrange(0, k as int),
                decreases d@.len() - k,
            {
                let ghost l0 = strs(lines@);
                lines.push(d[k].clone());
                assert(strs(d@).subrange(0, k + 1) =~= strs(d@).subrange(0, k as int).push(d@[k as int]@));
                assert(strs(lines@) =~= l0.push(d@[k as int]@));
                k = k + 1;
            }
            assert(strs(d@).subrange(0, d@.len() as int) =~= strs(d@));
            let ghost l1 = strs(lines@);
            lines.push(String::new());
            assert(strs(lines@) =~= l1 + seq![seq![]]);
            Some(lines)
        },
    }
}

/// What a diff of the workspace against a layer prints around the files:
/// the heading, and the closing line where no file differed.
pub fn workspace_diff_frame(layer: Layer, changed: bool) -> (r: (Vec<String>, Vec<String>))
    ensures
        strs(r.0@) == seq!["Comparing workspace vs "@ + layer_display_spec(layer), seq![]],
        strs(r.1@) == (if changed {
            seq![]
        } else {
            seq!["No differences between workspace and "@ + layer_display_spec(layer)]
        }),
{
    let name = layer.to_string();
    let head = vec![concat2("Comparing workspace vs ", name.as_str()), String::new()];
    let tail = if changed {
        Vec::new()
    } else {
        vec![concat2("No differences between workspace and ", name.as_str())]
    };
    assert(strs(head@) =~= seq!["Comparing workspace vs "@ + layer_display_spec(layer), seq![]]);
    assert(strs(tail@) =~= (if changed {
        seq![]
    } else {
        seq!["No differences between workspace and "@ + layer_display_spec(layer)]
    }));
    (head, tail)
}

/// A text compared with itself shows every line kept, in order.
pub proof fn lemma_diff_of_identical_texts(s: Seq<Seq<char>>)
    ensures
        diff_from(s, s, 0, 0) == Some(s.map_values(|l: Seq<char>| same_line(l))),
{
    lemma_diff_identical_from(s, 0);
    assert(s.subrange(0, s.len() as int) =~= s);
}

proof fn lemma_diff_identical_from(s: Seq<Seq<char>>, i: int)
    requires
        0 <= i <= s.len(),
    ensures
        diff_from(s, s, i, i) == Some(s.subrange(i, s.len() as int).map_values(|l: Seq<char>| same_line(l))),
    decreases s.len() - i,
{
    if i == s.len() {
        assert(s.subrange(i, s.len() as int).map_values(|l: Seq<char>| same_line(l)) =~= Seq::<Seq<char>>::empty());
    } else {
        lemma_diff_identical_from(s, i + 1);
        assert(s.subrange(i, s.len() as int).map_values(|l: Seq<char>| same_line(l)) =~= seq![same_line(s[i])]
            + s.subrange(i + 1, s.len() as int).map_values(|l: Seq<char>| same_line(l)));
    }
}

} // verus!
