//! `jin log`: which layer refs a history listing shows, in which order,
//! and how each commit is shown.

use vstd::prelude::*;
use vstd::string::*;
use crate::cli::args::LogArgs;
use crate::commands::common::{
    context_ref_path, layer_named, loaded_view, parse_layer_name, resolve_context,
    resolved_context, strs, unknown_layer_message,
};
use crate::model::config::{ContextView, ProjectContext};
use crate::model::error::JinError;
use crate::clock::{format_utc_time, utc_time_text};
use crate::text::{concat2, concat3, concat4, decimal_spec, substring, trim, trim_spec, usize_to_string};
use crate::model::layer::{
    layer_display_spec, parse_layer_spec, precedence_order, ref_path_spec, requires_mode_spec,
    requires_scope_spec, Layer,
};

verus! {

/// Whether a layer's history is shown in a context: the mode layers need
/// an active mode, and the scope layers an active scope.
pub open spec fn shown_in(l: Layer, c: ContextView) -> bool {
    !(requires_mode_spec(l) && c.mode is None) && !(requires_scope_spec(l) && c.scope is None)
}

/// The refs of a layer, in the order listed.
pub open spec fn refs_of_layer(refs: Seq<Seq<char>>, l: Layer) -> Seq<Seq<char>>
    decreases refs.len(),
{
    if refs.len() == 0 {
        seq![]
    } else {
        let rest = refs_of_layer(refs.drop_last(), l);
        if parse_layer_spec(refs.last()) == Some(l) {
            rest.push(refs.last())
        } else {
            rest
        }
    }
}

/// The layer refs whose history `jin log` shows, each with its layer:
/// layers in precedence order, those the context does not show skipped,
/// each layer's refs in the order listed.
pub open spec fn log_targets(layers: Seq<Layer>, refs: Seq<Seq<char>>, c: ContextView) -> Seq<(Layer, Seq<char>)>
    decreases layers.len(),
{
    if layers.len() == 0 {
        seq![]
    } else {
        let l = layers.last();
        let rest = log_targets(layers.drop_last(), refs, c);
        if shown_in(l, c) {
            rest + refs_of_layer(refs, l).map_values(|r: Seq<char>| (l, r))
        } else {
            rest
        }
    }
}

/// Which history `jin log` shows.
#[derive(Debug)]
pub enum LogPlan {
    /// The history of one layer, by its ref in the context.
    Layer { layer: Layer, ref_path: String },
    /// The history of every listed layer ref, each with its layer.
    All(Vec<(Layer, String)>),
}

/// The targets by their strings.
pub open spec fn targets_view(v: Seq<(Layer, String)>) -> Seq<(Layer, Seq<char>)> {
    v.map_values(|t: (Layer, String)| (t.0, t.1@))
}

/// The refs of one layer, in order.
fn layer_refs(refs: &Vec<String>, layer: Layer) -> (r: Vec<String>)
    ensures
        strs(r@) == refs_of_layer(strs(refs@), layer),
{
    let mut out: Vec<String> = Vec::new();
    let mut i: usize = 0;
    while i < refs.len()
        invariant
            i <= refs@.len(),
            strs(out@) == refs_of_layer(strs(refs@).subrange(0, i as int), layer),
        decreases refs@.len() - i,
    {
        let ghost pre = strs(refs@).subrange(0, i + 1);
        assert(pre.drop_last() =~= strs(refs@).subrange(0, i as int));
        assert(pre.last() == refs@[i as int]@);
        if Layer::parse_layer_from_ref_path(refs[i].as_str()) == Some(layer) {
            let ghost o0 = strs(out@);
            out.push(refs[i].clone());
            assert(strs(out@) =~= o0.push(refs@[i as int]@));
        }
        i = i + 1;
    }
    assert(strs(refs@).subrange(0, refs@.len() as int) =~= strs(refs@));
    out
}

/// Decides what `jin log` shows: with `--layer`, that layer's ref in the
/// context; otherwise every listed layer ref the context shows, in
/// precedence order.
pub fn execute(args: &LogArgs, context: Result<ProjectContext, JinError>, all_refs: &Vec<String>) -> (r: Result<
    LogPlan,
    JinError,
>)
    ensures
        match resolved_context(loaded_view(context)) {
            Err(_) => r matches Err(JinError::NotInitialized),
            Ok(c) => match args.layer {
                Some(name) => match layer_named(name@) {
                    None => r matches Err(JinError::Other(m)) && m@ == unknown_layer_message(name@),
                    Some(l) => r matches Ok(LogPlan::Layer { layer, ref_path }) && layer == l
                        && ref_path@ == ref_path_spec(l, c.mode, c.scope, c.project),
                },
                None => r matches Ok(LogPlan::All(v)) && targets_view(v@) == log_targets(
                    precedence_order(),
                    strs(all_refs@),
                    c,
                ),
            },
        },
{
    let context = resolve_context(context)?;
    if let Some(name) = &args.layer {
        let layer = parse_layer_name(name.as_str())?;
        let ref_path = context_ref_path(layer, &context);
        return Ok(LogPlan::Layer { layer, ref_path });
    }
    let order = Layer::all_in_precedence_order();
    let mut out: Vec<(Layer, String)> = Vec::new();
    let mut i: usize = 0;
    while i < order.len()
        invariant
            i <= order@.len(),
            order@ == precedence_order(),
            targets_view(out@) == log_targets(order@.subrange(0, i as int), strs(all_refs@), context@),
        decreases order@.len() - i,
    {
        let l = order[i];
        let ghost pre = order@.subrange(0, i + 1);
        assert(pre.drop_last() =~= order@.subrange(0, i as int));
        assert(pre.last() == l);
        let skip = (l.requires_mode() && context.mode.is_none()) || (l.requires_scope() && context.scope.is_none());
        if !skip {
            let rs = layer_refs(all_refs, l);
            let ghost o0 = targets_view(out@);
            let mut k: usize = 0;
            while k < rs.len()
                invariant
                    k <= rs@.len(),
                    targets_view(out@) == o0 + strs(rs@).subrange(0, k as int).map_values(
                        |r: Seq<char>| (l, r),
                    ),
                decreases rs@.len() - k,
            {
                let ghost before = targets_view(out@);
                out.push((l, rs[k].clone()));
                assert(strs(rs@).subrange(0, k + 1).map_values(|r: Seq<char>| (l, r)) =~= strs(rs@).subrange(
                    0,
                    k as int,
                ).map_values(|r: Seq<char>| (l, r)).push((l, rs@[k as int]@)));
                assert(targets_view(out@) =~= before.push((l, rs@[k as int]@)));
                k = k + 1;
            }
            assert(strs(rs@).subrange(0, rs@.len() as int) =~= strs(rs@));
        }
        i = i + 1;
    }
    assert(order@.subrange(0, order@.len() as int) =~= order@);
    Ok(LogPlan::All(out))
}

/// What the executable read of one commit.
#[derive(Debug)]
pub struct CommitFacts {
    /// The commit id in hex.
    pub hash: String,
    /// The author's name, where it is valid UTF-8.
    pub author_name: Option<String>,
    /// The author's e-mail, where it is valid UTF-8.
    pub author_email: Option<String>,
    /// The message, where it is valid UTF-8.
    pub message: Option<String>,
    /// The commit time, in seconds since the Unix epoch.
    pub time: i64,
    /// The files the commit changed (all its files for a root commit).
    pub files_changed: usize,
}

/// A text, or a stand-in where there is none.
pub open spec fn or_else(o: Option<String>, d: Seq<char>) -> Seq<char> {
    match o {
        Some(s) => s@,
        None => d,
    }
}

/// The lines of one commit in a layer's history.
pub open spec fn commit_entry(c: CommitFacts, layer: Layer) -> Seq<Seq<char>> {
    seq![
        "commit "@ + c.hash@.subrange(0, 7) + " ("@ + layer_display_spec(layer) + ")"@,
        "Author: "@ + or_else(c.author_name, "unknown"@) + " <"@ + or_else(c.author_email, "unknown"@) + ">"@,
        "Date:   "@ + utc_time_text(c.time as int),
        seq![],
        "    "@ + trim_spec(or_else(c.message, "(no message)"@)),
        seq![],
        "    "@ + decimal_spec(c.files_changed as nat) + " file(s) changed"@,
        seq![],
    ]
}

fn text_or(o: &Option<String>, d: &str) -> (r: String)
    ensures
        r@ == or_else(*o, d@),
{
    match o {
        Some(s) => s.clone(),
        None => d.to_owned(),
    }
}

/// The lines of one commit in a layer's history: its short id and layer,
/// its author, its date, its trimmed message and how many files it
/// changed.
pub fn commit_lines(c: &CommitFacts, layer: Layer) -> (r: Vec<String>)
    requires
        c.hash@.len() >= 7,
    ensures
        strs(r@) == commit_entry(*c, layer),
{
    let short = substring(c.hash.as_str(), 0, 7);
    let name = layer.to_string();
    let author = text_or(&c.author_name, "unknown");
    let email = text_or(&c.author_email, "unknown");
    let message = text_or(&c.message, "(no message)");
    let date = format_utc_time(c.time);
    let n = usize_to_string(c.files_changed);
    let first = concat4("commit ", short.as_str(), " (", name.as_str());
    let lines = vec![
        concat2(first.as_str(), ")"),
        concat4(concat2("Author: ", author.as_str()).as_str(), " <", email.as_str(), ">"),
        concat2("Date:   ", date.as_str()),
        String::new(),
        concat2("    ", trim(message.as_str()).as_str()),
        String::new(),
        concat3("    ", n.as_str(), " file(s) changed"),
        String::new(),
    ];
    assert(strs(lines@) =~= commit_entry(*c, layer));
    lines
}

/// The heading of one ref's history; every heading after the first
/// follows a blank line.
pub fn section_heading(layer: Layer, first: bool) -> (r: Vec<String>)
    ensures
        strs(r@) == (if first {
            seq![]
        } else {
            seq![Seq::<char>::empty()]
        }) + seq!["=== "@ + layer_display_spec(layer) + " ==="@, seq![]],
{
    let mut lines: Vec<String> = Vec::new();
    if !first {
        lines.push(String::new());
    }
    let ghost head = strs(lines@);
    let name = layer.to_string();
    lines.push(concat3("=== ", name.as_str(), " ==="));
    lines.push(String::new());
    assert(strs(lines@) =~= head + seq!["=== "@ + layer_display_spec(layer) + " ==="@, seq![]]);
    assert(head =~= (if first {
        seq![]
    } else {
        seq![Seq::<char>::empty()]
    }));
    lines
}

/// The line of a layer whose ref does not exist.
pub fn no_commits_line(layer: Layer) -> (r: String)
    ensures
        r@ == "No commits yet for layer: "@ + layer_display_spec(layer),
{
    let name = layer.to_string();
    concat2("No commits yet for layer: ", name.as_str())
}

} // verus!
