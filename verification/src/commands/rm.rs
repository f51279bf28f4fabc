//! `jin rm`: mark staged files for deletion from their layer.

use vstd::prelude::*;
use vstd::string::*;
use crate::cli::args::RmArgs;
use crate::commands::common::{
    batch_outcome, batch_failure_reason, loaded_view, resolve_context, resolved_context, strs,
};
use crate::model::config::ProjectContext;
use crate::model::error::JinError;
use crate::model::layer::{layer_display_spec, Layer};
use crate::staging::index::{has_path, unique_paths, StagedEntry, StagedOperation, StagingIndex};
use crate::staging::routing::{
    route_to_layer, routed_layer_spec, routing_valid_spec, validate_routing_options, routing_error_spec,
    RoutingOptions,
};
use crate::text::{concat2, concat3, concat4, concat5, decimal_spec, usize_to_string};

verus! {

/// The routing flags of `jin rm`.
pub open spec fn rm_options(args: RmArgs) -> RoutingOptions {
    RoutingOptions { mode: args.mode, scope: args.scope, project: args.project, global: args.global }
}

/// Decides the layer `jin rm` works on: files must be given, the context
/// must load, the flags must combine, and a mode flag needs an active
/// mode.
pub fn execute(args: &RmArgs, context: Result<ProjectContext, JinError>) -> (r: Result<Layer, JinError>)
    ensures
        args.files@.len() == 0 ==> (r matches Err(JinError::Other(m)) && m@ == "No files specified"@),
        args.files@.len() > 0 ==> match resolved_context(loaded_view(context)) {
            Err(_) => r matches Err(JinError::NotInitialized),
            Ok(c) => if !routing_valid_spec(rm_options(*args)) {
                r matches Err(JinError::Other(m)) && m@ == routing_error_spec(rm_options(*args))
            } else if args.mode && c.mode is None {
                r matches Err(JinError::NoActiveContext { context_type }) && context_type@ == "mode"@
            } else {
                r == Ok::<Layer, JinError>(routed_layer_spec(rm_options(*args)))
            },
        },
{
    if args.files.len() == 0 {
        return Err(JinError::Other("No files specified".to_owned()));
    }
    let context = resolve_context(context)?;
    let options = RoutingOptions {
        mode: args.mode,
        scope: crate::model::config::clone_opt(&args.scope),
        project: args.project,
        global: args.global,
    };
    validate_routing_options(&options)?;
    route_to_layer(&options, &context)
}

/// The line `jin rm --dry-run` prints for a staged file.
pub open spec fn would_remove_line(path: Seq<char>, force: bool, exists: bool) -> Seq<char> {
    "Would remove: "@ + path + " ("@ + (if force && exists {
        "and from workspace"@
    } else {
        "from staging only"@
    }) + ")"@
}

/// The lines `jin rm --dry-run` prints, to standard output and to
/// standard error.
pub open spec fn dry_run_lines(
    files: Seq<Seq<char>>,
    staged: Seq<StagedEntry>,
    force: bool,
    exists: Seq<bool>,
) -> (Seq<Seq<char>>, Seq<Seq<char>>)
    decreases files.len(),
{
    if files.len() == 0 {
        (seq![], seq![])
    } else {
        let n = (files.len() - 1) as int;
        let rest = dry_run_lines(files.drop_last(), staged, force, exists);
        if has_path(staged, files[n]) {
            (rest.0.push(would_remove_line(files[n], force, exists[n])), rest.1)
        } else {
            (rest.0, rest.1.push("Warning: "@ + files[n] + " not in staging"@))
        }
    }
}

/// The report of `jin rm --dry-run`, given whether each file exists.
pub fn dry_run(files: &Vec<String>, staging: &StagingIndex, force: bool, exists: &Vec<bool>) -> (r: (
    Vec<String>,
    Vec<String>,
))
    requires
        staging.wf(),
        exists@.len() == files@.len(),
    ensures
        (strs(r.0@), strs(r.1@)) == dry_run_lines(strs(files@), staging@, force, exists@),
{
    let mut out: Vec<String> = Vec::new();
    let mut err: Vec<String> = Vec::new();
    let mut i: usize = 0;
    while i < files.len()
        invariant
            staging.wf(),
            i <= files@.len(),
            exists@.len() == files@.len(),
            (strs(out@), strs(err@)) == dry_run_lines(strs(files@).subrange(0, i as int), staging@, force, exists@),
        decreases files@.len() - i,
    {
        let f = files[i].as_str();
        let ghost fs = strs(files@).subrange(0, i + 1);
        assert(fs.drop_last() =~= strs(files@).subrange(0, i as int));
        assert(fs[i as int] == f@);
        let ghost o0 = out@;
        let ghost e0 = err@;
        if staging.get(f).is_some() {
            let action = if force && exists[i] {
                "and from workspace"
            } else {
                "from staging only"
            };
            out.push(concat5("Would remove: ", f, " (", action, ")"));
            assert(strs(out@) =~= strs(o0).push(would_remove_line(f@, force, exists@[i as int])));
        } else {
            err.push(concat3("Warning: ", f, " not in staging"));
            assert(strs(err@) =~= strs(e0).push("Warning: "@ + f@ + " not in staging"@));
        }
        i = i + 1;
    }
    assert(strs(files@).subrange(0, files@.len() as int) =~= strs(files@));
    (out, err)
}

/// The number of files that are staged, exist and `--force` would
/// remove from the workspace.
pub open spec fn workspace_removal_count(
    files: Seq<Seq<char>>,
    staged: Seq<StagedEntry>,
    force: bool,
    exists: Seq<bool>,
) -> nat
    decreases files.len(),
{
    if files.len() == 0 {
        0
    } else {
        let n = (files.len() - 1) as int;
        workspace_removal_count(files.drop_last(), staged, force, exists) + (if has_path(
            staged,
            files[n],
        ) && exists[n] && force {
            1nat
        } else {
            0nat
        })
    }
}

/// Whether `jin rm` asks before removing files from the workspace: when
/// some file would be removed and `--force` is not given.
pub fn needs_confirmation(files: &Vec<String>, staging: &StagingIndex, force: bool, exists: &Vec<bool>) -> (r: bool)
    requires
        staging.wf(),
        exists@.len() == files@.len(),
    ensures
        r == (workspace_removal_count(strs(files@), staging@, force, exists@) > 0 && !force),
{
    let mut count: usize = 0;
    let mut i: usize = 0;
    while i < files.len()
        invariant
            staging.wf(),
            i <= files@.len(),
            exists@.len() == files@.len(),
            count == workspace_removal_count(strs(files@).subrange(0, i as int), staging@, force, exists@),
            count <= i,
        decreases files@.len() - i,
    {
        let ghost fs = strs(files@).subrange(0, i + 1);
        assert(fs.drop_last() =~= strs(files@).subrange(0, i as int));
        assert(fs[i as int] == files@[i as int]@);
        if staging.get(files[i].as_str()).is_some() && exists[i] && force {
            count = count + 1;
        }
        i = i + 1;
    }
    assert(strs(files@).subrange(0, files@.len() as int) =~= strs(files@));
    count > 0 && !force
}

/// Marks a staged file for deletion: its entry is replaced by a deletion
/// of the path from the layer. A path that is not staged is an error and
/// leaves the index as it was.
pub fn unstage_file(staging: &mut StagingIndex, path: &str, layer: Layer) -> (r: Result<(), JinError>)
    requires
        old(staging).wf(),
    ensures
        final(staging).wf(),
        !has_path(old(staging)@, path@) ==> (r matches Err(JinError::NotFound(m)) && m@
            == "File not in staging: "@ + path@ && final(staging)@ == old(staging)@),
        has_path(old(staging)@, path@) ==> r is Ok && exists|i: int|
            0 <= i < old(staging)@.len() && old(staging)@[i].path@ == path@ && final(staging)@
                == old(staging)@.remove(i).push(final(staging)@.last()),
        has_path(old(staging)@, path@) ==> ({
            let e = final(staging)@.last();
            &&& e.path@ == path@
            &&& e.target_layer == layer
            &&& e.operation == StagedOperation::Delete
            &&& e.content_hash@.len() == 0
        }),
{
    if staging.get(path).is_none() {
        return Err(JinError::NotFound(concat2("File not in staging: ", path)));
    }
    staging.remove(path);
    let ghost mid = staging@;
    let e = StagedEntry::delete(path.to_owned(), layer);
    staging.add(e);
    assert(!has_path(mid, path@));
    Ok(())
}

/// How `jin rm` names a layer.
pub fn format_layer_name(layer: Layer) -> (r: &'static str)
    ensures
        r@ == layer_display_spec(layer),
{
    layer.name()
}

/// The summary `jin rm` prints.
pub open spec fn rm_summary(removed: nat, layer: Layer) -> Seq<Seq<char>> {
    if removed > 0 {
        seq![
            "Removed "@ + decimal_spec(removed) + " file(s) from "@ + layer_display_spec(layer)
                + " layer"@,
        ]
    } else {
        seq![]
    }
}

/// Ends `jin rm`: the summary line, and the error when every file failed.
pub fn finish(layer: Layer, removed: usize, failed: usize) -> (r: (Vec<String>, Result<(), JinError>))
    ensures
        strs(r.0@) == rm_summary(removed as nat, layer),
        r.1 is Err <==> failed > 0 && removed == 0,
        r.1 matches Err(e) ==> (e matches JinError::StagingFailed { path, reason } && path@
            == "multiple files"@ && reason@ == batch_failure_reason(failed as nat, "remove"@)),
{
    let mut lines: Vec<String> = Vec::new();
    if removed > 0 {
        let n = usize_to_string(removed);
        lines.push(concat5("Removed ", n.as_str(), " file(s) from ", layer.name(), " layer"));
    }
    assert(strs(lines@) =~= rm_summary(removed as nat, layer));
    (lines, batch_outcome(removed, failed, "remove"))
}

} // verus!
