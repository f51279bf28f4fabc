//! `jin layers`: the layer composition of the active context and its
//! merge order.

use vstd::prelude::*;
use vstd::string::*;
use crate::commands::common::strs;
use crate::commands::status::{applicable, summary_targets};
use crate::model::config::{ContextView, ProjectContext};
use crate::model::layer::{layer_display_spec, precedence_order, precedence_spec, storage_path_spec, Layer};
use crate::text::{concat2, concat3, concat4, decimal_spec, pad_left, pad_left_spec, pad_right, pad_right_spec, usize_to_string};

verus! {

/// The lines naming the active mode, scope and project.
pub open spec fn active_names(c: ContextView) -> Seq<Seq<char>> {
    if c.mode is None && c.scope is None && c.project is None {
        seq!["  (no active mode/scope/project)"@]
    } else {
        (match c.mode {
            Some(m) => seq!["  Mode:    "@ + m],
            None => seq![],
        }) + (match c.scope {
            Some(s) => seq!["  Scope:   "@ + s],
            None => seq![],
        }) + (match c.project {
            Some(p) => seq!["  Project: "@ + p],
            None => seq![],
        })
    }
}

/// The line of one layer: a check mark where its ref exists, its
/// precedence, its name, its storage path, and its file count where it
/// has files. `found` is `None` where the ref does not exist, otherwise
/// the number of files in its tree.
pub open spec fn layer_entry(l: Layer, c: ContextView, found: Option<usize>) -> Seq<char> {
    "  "@ + (if found is Some {
        "\u{2713}"@
    } else {
        " "@
    }) + " "@ + pad_left_spec(decimal_spec(precedence_spec(l) as nat), 2) + ". "@ + pad_right_spec(
        layer_display_spec(l),
        20,
    ) + " ["@ + storage_path_spec(l, c.mode, c.scope, c.project) + "]"@ + match found {
        Some(n) => if n > 0 {
            " ("@ + decimal_spec(n as nat) + " files)"@
        } else {
            seq![]
        },
        None => seq![],
    }
}

/// The lines of the layers, in order.
pub open spec fn layer_entries(ls: Seq<Layer>, c: ContextView, found: Seq<Option<usize>>) -> Seq<Seq<char>>
    decreases ls.len(),
{
    if ls.len() == 0 || found.len() == 0 {
        seq![]
    } else {
        layer_entries(ls.drop_last(), c, found.drop_last()).push(layer_entry(ls.last(), c, found.last()))
    }
}

/// How many layers have a ref.
pub open spec fn count_found(found: Seq<Option<usize>>) -> nat
    decreases found.len(),
{
    if found.len() == 0 {
        0
    } else {
        count_found(found.drop_last()) + if found.last() is Some {
            1nat
        } else {
            0nat
        }
    }
}

/// The files of all layers with a ref.
pub open spec fn sum_found(found: Seq<Option<usize>>) -> nat
    decreases found.len(),
{
    if found.len() == 0 {
        0
    } else {
        sum_found(found.drop_last()) + match found.last() {
            Some(n) => n as nat,
            None => 0nat,
        }
    }
}

/// The report of `jin layers`.
pub open spec fn layers_report(c: ContextView, found: Seq<Option<usize>>) -> Seq<Seq<char>> {
    seq!["Layer composition for current context:"@] + active_names(c) + seq![
        seq![],
        "Merge order (lowest to highest precedence):"@,
    ] + layer_entries(applicable(precedence_order(), c), c, found) + seq![
        seq![],
        "Active layers: "@ + decimal_spec(count_found(found)) + " of 9 layers have files"@,
        "Total files in workspace: "@ + decimal_spec(sum_found(found)),
    ]
}

proof fn lemma_count_found_le(found: Seq<Option<usize>>)
    ensures
        count_found(found) <= found.len(),
    decreases found.len(),
{
    if found.len() > 0 {
        lemma_count_found_le(found.drop_last());
    }
}

/// The report of `jin layers`, given for each layer that
/// `status::summary_targets` lists whether its ref exists and how many
/// files its tree holds.
pub fn layers_lines(context: &ProjectContext, found: &Vec<Option<usize>>) -> (r: Vec<String>)
    requires
        found@.len() == applicable(precedence_order(), context@).len(),
        sum_found(found@) <= usize::MAX,
    ensures
        strs(r@) == layers_report(context@, found@),
{
    let mut lines: Vec<String> = Vec::new();
    lines.push("Layer composition for current context:".to_owned());
    if context.mode.is_none() && context.scope.is_none() && context.project.is_none() {
        lines.push("  (no active mode/scope/project)".to_owned());
    } else {
        if let Some(m) = &context.mode {
            lines.push(concat2("  Mode:    ", m.as_str()));
        }
        if let Some(s) = &context.scope {
            lines.push(concat2("  Scope:   ", s.as_str()));
        }
        if let Some(p) = &context.project {
            lines.push(concat2("  Project: ", p.as_str()));
        }
    }
    assert(strs(lines@) =~= seq!["Layer composition for current context:"@] + active_names(context@));
    lines.push(String::new());
    lines.push("Merge order (lowest to highest precedence):".to_owned());
    let ghost head = strs(lines@);
    assert(head =~= seq!["Layer composition for current context:"@] + active_names(context@) + seq![
        seq![],
        "Merge order (lowest to highest precedence):"@,
    ]);
    let targets = summary_targets(context);
    let ghost ls = applicable(precedence_order(), context@);
    let mut active: usize = 0;
    let mut total: usize = 0;
    let mut i: usize = 0;
    while i < targets.len()
        invariant
            i <= targets@.len(),
            targets@.len() == ls.len(),
            found@.len() == ls.len(),
            ls == applicable(precedence_order(), context@),
            forall|j: int| 0 <= j < targets@.len() ==> (#[trigger] targets@[j]).0 == ls[j],
            sum_found(found@) <= usize::MAX,
            active == count_found(found@.subrange(0, i as int)),
            total == sum_found(found@.subrange(0, i as int)),
            strs(lines@) == head + layer_entries(ls.subrange(0, i as int), context@, found@.subrange(0, i as int)),
        decreases targets@.len() - i,
    {
        let l = targets[i].0;
        let f = found[i];
        let ghost fs = found@.subrange(0, i + 1);
        assert(fs.drop_last() =~= found@.subrange(0, i as int));
        assert(fs.last() == f);
        assert(ls.subrange(0, i + 1).drop_last() =~= ls.subrange(0, i as int));
        assert(ls.subrange(0, i + 1).last() == l);
        proof {
            lemma_sum_prefix(found@, i + 1);
            lemma_count_found_le(fs);
        }
        let mark = if f.is_some() {
            "\u{2713}"
        } else {
            " "
        };
        let p = usize_to_string(l.precedence() as usize);
        let num = pad_left(p.as_str(), 2);
        let name = pad_right(l.name(), 20);
        let m: Option<&str> = match &context.mode {
            Some(s) => Some(s.as_str()),
            None => None,
        };
        let s: Option<&str> = match &context.scope {
            Some(x) => Some(x.as_str()),
            None => None,
        };
        let pj: Option<&str> = match &context.project {
            Some(x) => Some(x.as_str()),
            None => None,
        };
        let storage = l.storage_path(m, s, pj);
        let mut line = concat4("  ", mark, " ", num.as_str());
        line = concat4(line.as_str(), ". ", name.as_str(), " [");
        line = concat3(line.as_str(), storage.as_str(), "]");
        match f {
            Some(n) => {
                active = active + 1;
                total = total + n;
                if n > 0 {
                    let c = usize_to_string(n);
                    line = concat4(line.as_str(), " (", c.as_str(), " files)");
                }
            },
            None => {},
        }
        assert(line@ =~= layer_entry(l, context@, f));
        let ghost l0 = lines@;
        lines.push(line);
        assert(strs(lines@) =~= strs(l0).push(layer_entry(l, context@, f)));
        i = i + 1;
    }
    assert(ls.subrange(0, ls.len() as int) =~= ls);
    assert(found@.subrange(0, found@.len() as int) =~= found@);
    let ghost body = strs(lines@);
    lines.push(String::new());
    let a = usize_to_string(active);
    lines.push(concat3("Active layers: ", a.as_str(), " of 9 layers have files"));
    let t = usize_to_string(total);
    lines.push(concat2("Total files in workspace: ", t.as_str()));
    assert(strs(lines@) =~= body + seq![
        seq![],
        "Active layers: "@ + decimal_spec(count_found(found@)) + " of 9 layers have files"@,
        "Total files in workspace: "@ + decimal_spec(sum_found(found@)),
    ]);
    lines
}

/// The files of a prefix are no more than those of the whole list.
proof fn lemma_sum_prefix(found: Seq<Option<usize>>, k: int)
    requires
        0 <= k <= found.len(),
    ensures
        sum_found(found.subrange(0, k)) <= sum_found(found),
    decreases found.len() - k,
{
    if k < found.len() {
        lemma_sum_prefix(found, k + 1);
        assert(found.subrange(0, k + 1).drop_last() =~= found.subrange(0, k));
    } else {
        assert(found.subrange(0, k) =~= found);
    }
}

} // verus!
