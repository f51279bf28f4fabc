//! `jin status`: what the report shows of the active context, the
//! workspace, the staged changes and the layers that hold files.

use vstd::prelude::*;
use vstd::string::*;
use crate::commands::common::strs;
use crate::model::config::{ContextView, ProjectContext};
use crate::model::error::JinError;
use crate::model::layer::{
    layer_display_spec, precedence_order, ref_path_spec, requires_mode_spec, requires_scope_spec,
    storage_path_spec, Layer,
};
use crate::staging::index::{entries_of_layer, StagedEntry, StagingIndex};
use crate::text::{concat2, concat3, concat4, decimal_spec, plural, plural_of, str_eq, usize_to_string};

verus! {

/// The line of an optional name: its value with a suffix, or `(none)`.
pub open spec fn named_line(label: Seq<char>, v: Option<Seq<char>>, suffix: Seq<char>) -> Seq<char> {
    match v {
        Some(n) => label + n + suffix,
        None => label + "(none)"@,
    }
}

/// The opening of the report: the active mode, scope and project.
pub open spec fn context_report(c: ContextView) -> Seq<Seq<char>> {
    seq![
        "Jin status:"@,
        seq![],
        named_line("  Mode:  "@, c.mode, " (active)"@),
        named_line("  Scope: "@, c.scope, " (active)"@),
        named_line("  Project: "@, c.project, seq![]),
        seq![],
    ]
}

fn named(label: &str, v: &Option<String>, suffix: &str) -> (r: String)
    ensures
        r@ == named_line(label@, match v {
            Some(s) => Some(s@),
            None => None,
        }, suffix@),
{
    match v {
        Some(n) => concat3(label, n.as_str(), suffix),
        None => concat2(label, "(none)"),
    }
}

/// The opening of the report.
pub fn context_lines(context: &ProjectContext) -> (r: Vec<String>)
    ensures
        strs(r@) == context_report(context@),
{
    proof {
        reveal_strlit("");
    }
    let lines = vec![
        "Jin status:".to_owned(),
        String::new(),
        named("  Mode:  ", &context.mode, " (active)"),
        named("  Scope: ", &context.scope, " (active)"),
        named("  Project: ", &context.project, ""),
        String::new(),
    ];
    assert(strs(lines@) =~= context_report(context@));
    lines
}

/// What the executable saw of one file recorded in the workspace
/// metadata: the hash it was applied with, and the hash of its current
/// content, or `None` if it no longer exists.
#[derive(Debug)]
pub struct FileObservation {
    /// The file's path.
    pub path: String,
    /// The blob hash recorded when it was applied.
    pub expected_hash: String,
    /// The blob hash of its current content, if it exists.
    pub current_hash: Option<String>,
}

/// Whether the workspace differs from what was applied.
#[derive(Debug)]
pub enum WorkspaceState {
    /// Every applied file is as it was applied.
    Clean,
    /// Some applied files were changed or removed.
    Dirty { modified: Vec<String>, deleted: Vec<String> },
}

/// The observations by their strings.
pub open spec fn obs_view(v: Seq<FileObservation>) -> Seq<(Seq<char>, Seq<char>, Option<Seq<char>>)> {
    v.map_values(
        |o: FileObservation|
            (o.path@, o.expected_hash@, match o.current_hash {
                Some(h) => Some(h@),
                None => None,
            }),
    )
}

/// The paths of the files whose content changed, in order.
pub open spec fn modified_paths(v: Seq<(Seq<char>, Seq<char>, Option<Seq<char>>)>) -> Seq<Seq<char>>
    decreases v.len(),
{
    if v.len() == 0 {
        seq![]
    } else {
        let rest = modified_paths(v.drop_last());
        match v.last().2 {
            Some(h) => if h != v.last().1 {
                rest.push(v.last().0)
            } else {
                rest
            },
            None => rest,
        }
    }
}

/// The paths of the files that no longer exist, in order.
pub open spec fn deleted_paths(v: Seq<(Seq<char>, Seq<char>, Option<Seq<char>>)>) -> Seq<Seq<char>>
    decreases v.len(),
{
    if v.len() == 0 {
        seq![]
    } else {
        let rest = deleted_paths(v.drop_last());
        match v.last().2 {
            Some(_) => rest,
            None => rest.push(v.last().0),
        }
    }
}

/// The state of the workspace from the result of loading its metadata and
/// observing each recorded file: no metadata means nothing was applied,
/// so the workspace is clean; another failure is the error.
pub fn workspace_state(observed: Result<Vec<FileObservation>, JinError>) -> (r: Result<WorkspaceState, JinError>)
    ensures
        match observed {
            Err(JinError::NotFound(_)) => r matches Ok(WorkspaceState::Clean),
            Err(e) => r == Err::<WorkspaceState, JinError>(e),
            Ok(v) => {
                let m = modified_paths(obs_view(v@));
                let d = deleted_paths(obs_view(v@));
                if m.len() == 0 && d.len() == 0 {
                    r matches Ok(WorkspaceState::Clean)
                } else {
                    r matches Ok(WorkspaceState::Dirty { modified, deleted }) && strs(modified@) == m
                        && strs(deleted@) == d
                }
            },
        },
{
    let v = match observed {
        Err(JinError::NotFound(_)) => return Ok(WorkspaceState::Clean),
        Err(e) => return Err(e),
        Ok(v) => v,
    };
    let ghost ov = obs_view(v@);
    let mut modified: Vec<String> = Vec::new();
    let mut deleted: Vec<String> = Vec::new();
    let mut i: usize = 0;
    while i < v.len()
        invariant
            i <= v@.len(),
            ov == obs_view(v@),
            strs(modified@) == modified_paths(ov.subrange(0, i as int)),
            strs(deleted@) == deleted_paths(ov.subrange(0, i as int)),
        decreases v@.len() - i,
    {
        assert(ov.subrange(0, i + 1).drop_last() =~= ov.subrange(0, i as int));
        assert(ov.subrange(0, i + 1).last() == ov[i as int]);
        let o = &v[i];
        match &o.current_hash {
            Some(h) => {
                if !str_eq(h.as_str(), o.expected_hash.as_str()) {
                    let ghost m0 = modified@;
                    modified.push(o.path.clone());
                    assert(strs(modified@) =~= strs(m0).push(o.path@));
                }
            },
            None => {
                let ghost d0 = deleted@;
                deleted.push(o.path.clone());
                assert(strs(deleted@) =~= strs(d0).push(o.path@));
            },
        }
        i = i + 1;
    }
    assert(ov.subrange(0, v@.len() as int) =~= ov);
    if modified.len() == 0 && deleted.len() == 0 {
        Ok(WorkspaceState::Clean)
    } else {
        Ok(WorkspaceState::Dirty { modified, deleted })
    }
}

/// The lines of each path with a note after it.
pub open spec fn noted(paths: Seq<Seq<char>>, note: Seq<char>) -> Seq<Seq<char>> {
    paths.map_values(|p: Seq<char>| "  "@ + p + note)
}

/// What the report says of the workspace.
pub open spec fn workspace_report(modified: Seq<Seq<char>>, deleted: Seq<Seq<char>>) -> Seq<Seq<char>> {
    if modified.len() == 0 && deleted.len() == 0 {
        seq!["Workspace state: Clean"@, seq![]]
    } else {
        let total = modified.len() + deleted.len();
        seq!["Workspace state: Dirty ("@ + decimal_spec(total) + " file"@ + plural(total) + " modified)"@]
            + noted(modified, " (modified)"@) + noted(deleted, " (deleted)"@) + seq![
            seq![],
            "Use 'jin diff' to see changes or 'jin add <file>' to stage them."@,
            seq![],
        ]
    }
}

fn push_noted(lines: &mut Vec<String>, paths: &Vec<String>, note: &str)
    ensures
        strs(final(lines)@) == strs(old(lines)@) + noted(strs(paths@), note@),
{
    let ghost start = strs(lines@);
    let mut k: usize = 0;
    while k < paths.len()
        invariant
            k <= paths@.len(),
            strs(lines@) == start + noted(strs(paths@).subrange(0, k as int), note@),
        decreases paths@.len() - k,
    {
        let ghost l0 = lines@;
        lines.push(concat3("  ", paths[k].as_str(), note));
        assert(noted(strs(paths@).subrange(0, k + 1), note@) =~= noted(
            strs(paths@).subrange(0, k as int),
            note@,
        ).push("  "@ + paths@[k as int]@ + note@));
        assert(strs(lines@) =~= strs(l0).push("  "@ + paths@[k as int]@ + note@));
        k = k + 1;
    }
    assert(strs(paths@).subrange(0, paths@.len() as int) =~= strs(paths@));
}

/// What the report says of the workspace.
pub fn workspace_lines(state: &WorkspaceState) -> (r: Vec<String>)
    requires
        state matches WorkspaceState::Dirty { modified, deleted } ==> modified@.len() + deleted@.len()
            <= usize::MAX,
    ensures
        strs(r@) == match state {
            WorkspaceState::Clean => workspace_report(seq![], seq![]),
            WorkspaceState::Dirty { modified, deleted } => workspace_report(strs(modified@), strs(deleted@)),
        },
{
    let mut lines: Vec<String> = Vec::new();
    match state {
        WorkspaceState::Clean => {
            lines.push("Workspace state: Clean".to_owned());
            lines.push(String::new());
            assert(strs(lines@) =~= workspace_report(seq![], seq![]));
        },
        WorkspaceState::Dirty { modified, deleted } => {
            if modified.len() == 0 && deleted.len() == 0 {
                lines.push("Workspace state: Clean".to_owned());
                lines.push(String::new());
                assert(strs(lines@) =~= workspace_report(strs(modified@), strs(deleted@)));
                return lines;
            }
            let total = modified.len() + deleted.len();
            let n = usize_to_string(total);
            lines.push(concat4("Workspace state: Dirty (", n.as_str(), " file", plural_of(total)));
            let first = lines.pop().unwrap();
            lines.push(concat2(first.as_str(), " modified)"));
            push_noted(&mut lines, modified, " (modified)");
            push_noted(&mut lines, deleted, " (deleted)");
            let ghost l0 = strs(lines@);
            lines.push(String::new());
            lines.push("Use 'jin diff' to see changes or 'jin add <file>' to stage them.".to_owned());
            lines.push(String::new());
            assert(strs(lines@) =~= l0 + seq![
                seq![],
                "Use 'jin diff' to see changes or 'jin add <file>' to stage them."@,
                seq![],
            ]);
            assert(strs(modified@).len() + strs(deleted@).len() == total);
            assert(strs(lines@) =~= workspace_report(strs(modified@), strs(deleted@)));
        },
    }
    lines
}

/// The line of one staged entry.
pub open spec fn staged_line(e: StagedEntry) -> Seq<char> {
    "  "@ + e.path@ + " -> "@ + layer_display_spec(e.target_layer)
}

/// What the report says of the staged changes.
pub open spec fn staged_report(c: ContextView, s: Seq<StagedEntry>) -> Seq<Seq<char>> {
    if s.len() == 0 {
        seq![
            "No staged changes."@,
            seq![],
            if c.mode is None && c.scope is None && c.project is None {
                "Use 'jin add <file> --mode' to stage files to a mode layer."@
            } else {
                "Use 'jin add <file>' to stage files for commit."@
            },
        ]
    } else {
        seq!["Staged changes ("@ + decimal_spec(s.len()) + " file"@ + plural(s.len()) + "):"@]
            + s.map_values(|e: StagedEntry| staged_line(e)) + seq![
            seq![],
            "Use 'jin commit -m <message>' to commit staged changes."@,
        ]
    }
}

/// What the report says of the staged changes.
pub fn staged_lines(context: &ProjectContext, staging: &StagingIndex) -> (r: Vec<String>)
    ensures
        strs(r@) == staged_report(context@, staging@),
{
    let entries = staging.entries();
    let mut lines: Vec<String> = Vec::new();
    if entries.len() == 0 {
        lines.push("No staged changes.".to_owned());
        lines.push(String::new());
        if context.mode.is_none() && context.scope.is_none() && context.project.is_none() {
            lines.push("Use 'jin add <file> --mode' to stage files to a mode layer.".to_owned());
        } else {
            lines.push("Use 'jin add <file>' to stage files for commit.".to_owned());
        }
        assert(strs(lines@) =~= staged_report(context@, staging@));
        return lines;
    }
    let n = entries.len();
    let c = usize_to_string(n);
    lines.push(concat4("Staged changes (", c.as_str(), " file", plural_of(n)));
    let h = lines.pop().unwrap();
    lines.push(concat2(h.as_str(), "):"));
    let ghost start = strs(lines@);
    let mut k: usize = 0;
    while k < n
        invariant
            k <= n,
            n == entries@.len(),
            entries@ == staging@,
            strs(lines@) == start + entries@.subrange(0, k as int).map_values(|e: StagedEntry| staged_line(e)),
        decreases n - k,
    {
        let e = &entries[k];
        let layer = e.target_layer.to_string();
        let ghost l0 = lines@;
        lines.push(concat4("  ", e.path.as_str(), " -> ", layer.as_str()));
        assert(entries@.subrange(0, k + 1).map_values(|e: StagedEntry| staged_line(e)) =~= entries@.subrange(
            0,
            k as int,
        ).map_values(|e: StagedEntry| staged_line(e)).push(staged_line(entries@[k as int])));
        assert(strs(lines@) =~= strs(l0).push(staged_line(entries@[k as int])));
        k = k + 1;
    }
    assert(entries@.subrange(0, n as int) =~= entries@);
    let ghost l1 = strs(lines@);
    lines.push(String::new());
    lines.push("Use 'jin commit -m <message>' to commit staged changes.".to_owned());
    assert(strs(lines@) =~= l1 + seq![seq![], "Use 'jin commit -m <message>' to commit staged changes."@]);
    assert(strs(lines@) =~= staged_report(context@, staging@));
    lines
}

/// Whether a layer applies in a context: it needs no mode or scope that
/// the context lacks.
pub open spec fn applies(l: Layer, c: ContextView) -> bool {
    !(requires_mode_spec(l) && c.mode is None) && !(requires_scope_spec(l) && c.scope is None)
}

/// The layers of a list that apply in a context, in order.
pub open spec fn applicable(order: Seq<Layer>, c: ContextView) -> Seq<Layer>
    decreases order.len(),
{
    if order.len() == 0 {
        seq![]
    } else if applies(order.last(), c) {
        applicable(order.drop_last(), c).push(order.last())
    } else {
        applicable(order.drop_last(), c)
    }
}

/// The layers the summary covers, in precedence order, with their refs in
/// the context.
pub fn summary_targets(context: &ProjectContext) -> (r: Vec<(Layer, String)>)
    ensures
        r@.len() == applicable(precedence_order(), context@).len(),
        forall|i: int|
            0 <= i < r@.len() ==> (#[trigger] r@[i]).0 == applicable(precedence_order(), context@)[i]
                && r@[i].1@ == ref_path_spec(
                r@[i].0,
                context@.mode,
                context@.scope,
                context@.project,
            ),
{
    let order = Layer::all_in_precedence_order();
    let ghost c = context@;
    let mut out: Vec<(Layer, String)> = Vec::new();
    let mut i: usize = 0;
    while i < order.len()
        invariant
            i <= order@.len(),
            order@ == precedence_order(),
            c == context@,
            out@.len() == applicable(order@.subrange(0, i as int), c).len(),
            forall|j: int|
                0 <= j < out@.len() ==> (#[trigger] out@[j]).0 == applicable(order@.subrange(0, i as int), c)[j]
                    && out@[j].1@ == ref_path_spec(out@[j].0, c.mode, c.scope, c.project),
        decreases order@.len() - i,
    {
        let l = order[i];
        assert(order@.subrange(0, i + 1).drop_last() =~= order@.subrange(0, i as int));
        assert(order@.subrange(0, i + 1).last() == l);
        let skip = (l.requires_mode() && context.mode.is_none()) || (l.requires_scope() && context.scope.is_none());
        if !skip {
            let m: Option<&str> = match &context.mode {
                Some(s) => Some(s.as_str()),
                None => None,
            };
            let s: Option<&str> = match &context.scope {
                Some(x) => Some(x.as_str()),
                None => None,
            };
            let p: Option<&str> = match &context.project {
                Some(x) => Some(x.as_str()),
                None => None,
            };
            let rp = l.ref_path(m, s, p);
            out.push((l, rp));
        }
        i = i + 1;
    }
    assert(order@.subrange(0, order@.len() as int) =~= order@);
    out
}

/// The line of one layer in the summary, if it holds files: its storage
/// path, its committed and staged files together, and the staged ones.
pub open spec fn layer_line(l: Layer, c: ContextView, committed: nat, staged: nat) -> Option<Seq<char>> {
    if committed > 0 || staged > 0 {
        let total = committed + staged;
        Some(
            "  "@ + storage_path_spec(l, c.mode, c.scope, c.project) + ": "@ + decimal_spec(total) + " file"@
                + plural(total) + if staged > 0 {
                " ("@ + decimal_spec(staged) + " staged)"@
            } else {
                seq![]
            },
        )
    } else {
        None
    }
}

/// The lines of the layers that hold files.
pub open spec fn layer_lines(ls: Seq<Layer>, c: ContextView, committed: Seq<usize>, s: Seq<StagedEntry>) -> Seq<
    Seq<char>,
>
    decreases ls.len(),
{
    if ls.len() == 0 {
        seq![]
    } else {
        let rest = layer_lines(ls.drop_last(), c, committed.drop_last(), s);
        match layer_line(ls.last(), c, committed.last() as nat, entries_of_layer(s, ls.last()).len()) {
            Some(line) => rest.push(line),
            None => rest,
        }
    }
}

/// The layer summary, given the number of committed files in each layer
/// that `summary_targets` lists.
pub open spec fn summary_report(c: ContextView, committed: Seq<usize>, s: Seq<StagedEntry>) -> Seq<Seq<char>> {
    let body = layer_lines(applicable(precedence_order(), c), c, committed, s);
    seq![seq![], "Layer summary:"@] + if body.len() == 0 {
        seq!["  (no layers with files)"@]
    } else {
        body
    }
}

/// The layer summary, given the number of committed files in each layer
/// that `summary_targets` lists (zero where the ref is missing).
pub fn layer_summary(context: &ProjectContext, committed: &Vec<usize>, staging: &StagingIndex) -> (r: Vec<
    String,
>)
    requires
        committed@.len() == applicable(precedence_order(), context@).len(),
        forall|i: int| 0 <= i < committed@.len() ==> #[trigger] committed@[i] + staging@.len() <= usize::MAX,
    ensures
        strs(r@) == summary_report(context@, committed@, staging@),
{
    let targets = summary_targets(context);
    let ghost ls = applicable(precedence_order(), context@);
    let mut body: Vec<String> = Vec::new();
    let mut i: usize = 0;
    while i < targets.len()
        invariant
            i <= targets@.len(),
            targets@.len() == ls.len(),
            committed@.len() == ls.len(),
            ls == applicable(precedence_order(), context@),
            forall|j: int| 0 <= j < targets@.len() ==> (#[trigger] targets@[j]).0 == ls[j],
            forall|j: int| 0 <= j < committed@.len() ==> #[trigger] committed@[j] + staging@.len() <= usize::MAX,
            strs(body@) == layer_lines(
                ls.subrange(0, i as int),
                context@,
                committed@.subrange(0, i as int),
                staging@,
            ),
        decreases targets@.len() - i,
    {
        let l = targets[i].0;
        assert(ls.subrange(0, i + 1).drop_last() =~= ls.subrange(0, i as int));
        assert(committed@.subrange(0, i + 1).drop_last() =~= committed@.subrange(0, i as int));
        assert(ls.subrange(0, i + 1).last() == l);
        let staged = staging.entries_for_layer(l).len();
        proof {
            lemma_entries_of_layer_len(staging@, l);
        }
        let done = committed[i];
        assert(committed@.subrange(0, i + 1).last() == done);
        let ghost expected = layer_line(l, context@, done as nat, staged as nat);
        if done > 0 || staged > 0 {
            let total = done + staged;
            let m: Option<&str> = match &context.mode {
                Some(s) => Some(s.as_str()),
                None => None,
            };
            let s: Option<&str> = match &context.scope {
                Some(x) => Some(x.as_str()),
                None => None,
            };
            let p: Option<&str> = match &context.project {
                Some(x) => Some(x.as_str()),
                None => None,
            };
            let sp = l.storage_path(m, s, p);
            let t = usize_to_string(total);
            let mut line = concat4("  ", sp.as_str(), ": ", t.as_str());
            line = concat3(line.as_str(), " file", plural_of(total));
            if staged > 0 {
                let st = usize_to_string(staged);
                line = concat4(line.as_str(), " (", st.as_str(), " staged)");
            }
            assert(line@ =~= expected->Some_0);
            let ghost b0 = body@;
            body.push(line);
            assert(strs(body@) =~= strs(b0).push(line@));
        }
        i = i + 1;
    }
    assert(ls.subrange(0, ls.len() as int) =~= ls);
    assert(committed@.subrange(0, committed@.len() as int) =~= committed@);
    let mut lines: Vec<String> = Vec::new();
    lines.push(String::new());
    lines.push("Layer summary:".to_owned());
    if body.len() == 0 {
        lines.push("  (no layers with files)".to_owned());
        assert(strs(lines@) =~= summary_report(context@, committed@, staging@));
        return lines;
    }
    let ghost head = strs(lines@);
    let mut k: usize = 0;
    while k < body.len()
        invariant
            k <= body@.len(),
            strs(lines@) == head + strs(body@).subrange(0, k as int),
        decreases body@.len() - k,
    {
        let ghost l0 = lines@;
        lines.push(body[k].clone());
        assert(strs(body@).subrange(0, k + 1) =~= strs(body@).subrange(0, k as int).push(body@[k as int]@));
        assert(strs(lines@) =~= strs(l0).push(body@[k as int]@));
        k = k + 1;
    }
    assert(strs(body@).subrange(0, body@.len() as int) =~= strs(body@));
    assert(strs(lines@) =~= summary_report(context@, committed@, staging@));
    lines
}

/// A layer has no more staged entries than the index.
proof fn lemma_entries_of_layer_len(s: Seq<StagedEntry>, l: Layer)
    ensures
        entries_of_layer(s, l).len() <= s.len(),
    decreases s.len(),
{
    if s.len() > 0 {
        lemma_entries_of_layer_len(s.drop_last(), l);
    }
}

} // verus!
