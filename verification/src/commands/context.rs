//! `jin context`: the report of the active context.

use vstd::prelude::*;
use vstd::string::*;
use crate::commands::common::strs;
use crate::model::config::{ContextView, ProjectContext};
use crate::text::concat2;

verus! {

/// A name, or the text shown where there is none.
pub open spec fn or_text(v: Option<Seq<char>>, none: Seq<char>) -> Seq<char> {
    match v {
        Some(n) => n,
        None => none,
    }
}

/// The report of `jin context`.
pub open spec fn context_report(c: ContextView) -> Seq<Seq<char>> {
    seq![
        "Current Jin context:"@,
        seq![],
        "  Active mode:   "@ + or_text(c.mode, "(none)"@),
        "  Active scope:  "@ + or_text(c.scope, "(none)"@),
        "  Project:       "@ + or_text(c.project, "(auto-inferred)"@),
    ] + match c.last_updated {
        Some(t) => seq!["  Last updated:  "@ + t],
        None => seq![],
    }
}

fn line_or(label: &str, v: &Option<String>, none: &str) -> (r: String)
    ensures
        r@ == label@ + or_text(
            match v {
                Some(s) => Some(s@),
                None => None,
            },
            none@,
        ),
{
    match v {
        Some(n) => concat2(label, n.as_str()),
        None => concat2(label, none),
    }
}

/// The report of `jin context` on the context the command works in.
pub fn context_lines(context: &ProjectContext) -> (r: Vec<String>)
    ensures
        strs(r@) == context_report(context@),
{
    let mut lines = vec![
        "Current Jin context:".to_owned(),
        String::new(),
        line_or("  Active mode:   ", &context.mode, "(none)"),
        line_or("  Active scope:  ", &context.scope, "(none)"),
        line_or("  Project:       ", &context.project, "(auto-inferred)"),
    ];
    let ghost head = strs(lines@);
    if let Some(t) = &context.last_updated {
        lines.push(concat2("  Last updated:  ", t.as_str()));
        assert(strs(lines@) =~= head + seq!["  Last updated:  "@ + t@]);
    } else {
        assert(strs(lines@) =~= head + seq![]);
    }
    assert(head =~= seq![
        "Current Jin context:"@,
        seq![],
        "  Active mode:   "@ + or_text(context@.mode, "(none)"@),
        "  Active scope:  "@ + or_text(context@.scope, "(none)"@),
        "  Project:       "@ + or_text(context@.project, "(auto-inferred)"@),
    ]);
    lines
}

} // verus!
