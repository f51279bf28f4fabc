//! `jin mv`: move staged files to new paths within their layer.

use vstd::prelude::*;
use vstd::string::*;
use crate::cli::args::MvArgs;
use crate::commands::common::{
    batch_outcome, batch_failure_reason, loaded_view, resolve_context, resolved_context, strs,
};
use crate::model::config::ProjectContext;
use crate::model::error::JinError;
use crate::model::layer::{layer_display_spec, Layer};
use crate::staging::index::{has_path, StagedEntry, StagedOperation, StagingIndex};
use crate::staging::routing::{
    route_to_layer, routed_layer_spec, routing_valid_spec, validate_routing_options, routing_error_spec,
    RoutingOptions,
};
use crate::text::{concat2, concat3, concat5, decimal_spec, usize_to_string};

verus! {

/// The routing flags of `jin mv`.
pub open spec fn mv_options(args: MvArgs) -> RoutingOptions {
    RoutingOptions { mode: args.mode, scope: args.scope, project: args.project, global: args.global }
}

/// Decides the layer `jin mv` works on: files must be given in
/// source/destination pairs, the context must load, the flags must
/// combine, and a mode flag needs an active mode.
pub fn execute(args: &MvArgs, context: Result<ProjectContext, JinError>) -> (r: Result<Layer, JinError>)
    ensures
        args.files@.len() == 0 ==> (r matches Err(JinError::Other(m)) && m@ == "No files specified"@),
        args.files@.len() > 0 && args.files@.len() % 2 == 1 ==> (r matches Err(JinError::Other(m))
            && m@ == "Files must be specified in source/destination pairs"@),
        args.files@.len() > 0 && args.files@.len() % 2 == 0 ==> match resolved_context(
            loaded_view(context),
        ) {
            Err(_) => r matches Err(JinError::NotInitialized),
            Ok(c) => if !routing_valid_spec(mv_options(*args)) {
                r matches Err(JinError::Other(m)) && m@ == routing_error_spec(mv_options(*args))
            } else if args.mode && c.mode is None {
                r matches Err(JinError::NoActiveContext { context_type }) && context_type@ == "mode"@
            } else {
                r == Ok::<Layer, JinError>(routed_layer_spec(mv_options(*args)))
            },
        },
{
    if args.files.len() == 0 {
        return Err(JinError::Other("No files specified".to_owned()));
    }
    if args.files.len() % 2 != 0 {
        return Err(JinError::Other("Files must be specified in source/destination pairs".to_owned()));
    }
    let context = resolve_context(context)?;
    let options = RoutingOptions {
        mode: args.mode,
        scope: crate::model::config::clone_opt(&args.scope),
        project: args.project,
        global: args.global,
    };
    validate_routing_options(&options)?;
    route_to_layer(&options, &context)
}

/// The line `jin mv --dry-run` prints for a staged source.
pub open spec fn would_move_line(src: Seq<char>, dst: Seq<char>, force: bool, exists: bool) -> Seq<char> {
    "Would move: "@ + src + " -> "@ + dst + " ("@ + (if force && exists {
        "and from workspace"@
    } else {
        "from staging only"@
    }) + ")"@
}

/// The lines `jin mv --dry-run` prints for the first `k` pairs, to
/// standard output and to standard error; `exists` tells for each pair
/// whether its source exists.
pub open spec fn dry_run_lines(
    files: Seq<Seq<char>>,
    k: nat,
    staged: Seq<StagedEntry>,
    force: bool,
    exists: Seq<bool>,
) -> (Seq<Seq<char>>, Seq<Seq<char>>)
    decreases k,
{
    if k == 0 {
        (seq![], seq![])
    } else {
        let p = (k - 1) as int;
        let rest = dry_run_lines(files, (k - 1) as nat, staged, force, exists);
        let src = files[2 * p];
        let dst = files[2 * p + 1];
        if has_path(staged, src) {
            (rest.0.push(would_move_line(src, dst, force, exists[p])), rest.1)
        } else {
            (rest.0, rest.1.push("Warning: "@ + src + " not in staging"@))
        }
    }
}

/// The report of `jin mv --dry-run`, given whether each pair's source
/// exists.
pub fn dry_run(files: &Vec<String>, staging: &StagingIndex, force: bool, exists: &Vec<bool>) -> (r: (
    Vec<String>,
    Vec<String>,
))
    requires
        staging.wf(),
        files@.len() % 2 == 0,
        exists@.len() == files@.len() / 2,
    ensures
        (strs(r.0@), strs(r.1@)) == dry_run_lines(
            strs(files@),
            (files@.len() / 2) as nat,
            staging@,
            force,
            exists@,
        ),
{
    let mut out: Vec<String> = Vec::new();
    let mut err: Vec<String> = Vec::new();
    let n = files.len() / 2;
    let mut p: usize = 0;
    while p < n
        invariant
            staging.wf(),
            n == files@.len() / 2,
            2 * n == files@.len(),
            files@.len() <= usize::MAX,
            files@.len() % 2 == 0,
            p <= n,
            exists@.len() == n,
            (strs(out@), strs(err@)) == dry_run_lines(strs(files@), p as nat, staging@, force, exists@),
        decreases n - p,
    {
        let src = files[2 * p].as_str();
        let dst = files[2 * p + 1].as_str();
        let ghost o0 = out@;
        let ghost e0 = err@;
        if staging.get(src).is_some() {
            let action = if force && exists[p] {
                "and from workspace"
            } else {
                "from staging only"
            };
            let line = concat5("Would move: ", src, " -> ", dst, " (");
            out.push(concat3(line.as_str(), action, ")"));
            assert(strs(out@) =~= strs(o0).push(would_move_line(src@, dst@, force, exists@[p as int])));
        } else {
            err.push(concat3("Warning: ", src, " not in staging"));
            assert(strs(err@) =~= strs(e0).push("Warning: "@ + src@ + " not in staging"@));
        }
        p = p + 1;
    }
    (out, err)
}

/// The number of pairs whose source is staged and exists.
pub open spec fn workspace_move_count(files: Seq<Seq<char>>, k: nat, staged: Seq<StagedEntry>, exists: Seq<bool>) -> nat
    decreases k,
{
    if k == 0 {
        0
    } else {
        let p = (k - 1) as int;
        workspace_move_count(files, (k - 1) as nat, staged, exists) + (if has_path(staged, files[2 * p])
            && exists[p] {
            1nat
        } else {
            0nat
        })
    }
}

/// Whether `jin mv` asks before moving files in the workspace: when some
/// staged source exists and `--force` is not given.
pub fn needs_confirmation(files: &Vec<String>, staging: &StagingIndex, force: bool, exists: &Vec<bool>) -> (r: bool)
    requires
        staging.wf(),
        files@.len() % 2 == 0,
        exists@.len() == files@.len() / 2,
    ensures
        r == (workspace_move_count(strs(files@), (files@.len() / 2) as nat, staging@, exists@) > 0
            && !force),
{
    let n = files.len() / 2;
    let mut count: usize = 0;
    let mut p: usize = 0;
    while p < n
        invariant
            staging.wf(),
            n == files@.len() / 2,
            2 * n == files@.len(),
            files@.len() <= usize::MAX,
            files@.len() % 2 == 0,
            p <= n,
            exists@.len() == n,
            count == workspace_move_count(strs(files@), p as nat, staging@, exists@),
            count <= p,
        decreases n - p,
    {
        if staging.get(files[2 * p].as_str()).is_some() && exists[p] {
            count = count + 1;
        }
        p = p + 1;
    }
    count > 0 && !force
}

/// Moves a staged file: the entry of `src` is replaced by an entry of
/// `dst` in the layer that keeps the content hash and mode. A source that
/// is not staged, or a destination that is, is an error and leaves the
/// index as it was. On success the result says whether the workspace file
/// moves too: with `--force` (`force`) when the source file exists
/// (`src_exists`).
pub fn move_file(staging: &mut StagingIndex, src: &str, dst: &str, layer: Layer, force: bool, src_exists: bool) -> (r: Result<bool, JinError>)
    requires
        old(staging).wf(),
    ensures
        final(staging).wf(),
        !has_path(old(staging)@, src@) ==> (r matches Err(JinError::NotFound(m)) && m@
            == "Source file not in staging: "@ + src@ && final(staging)@ == old(staging)@),
        has_path(old(staging)@, src@) && has_path(old(staging)@, dst@) ==> (r matches Err(
            JinError::Other(m),
        ) && m@ == "Destination already in staging: "@ + dst@ && final(staging)@ == old(staging)@),
        has_path(old(staging)@, src@) && !has_path(old(staging)@, dst@) ==> r == Ok::<bool, JinError>(force
            && src_exists) && exists|i: int|
            0 <= i < old(staging)@.len() && old(staging)@[i].path@ == src@ && final(staging)@
                == old(staging)@.remove(i).push(final(staging)@.last()) && ({
                let e = final(staging)@.last();
                &&& e.path@ == dst@
                &&& e.target_layer == layer
                &&& e.content_hash@ == old(staging)@[i].content_hash@
                &&& e.mode == old(staging)@[i].mode
                &&& e.operation == StagedOperation::Rename
            }),
{
    let (hash, mode) = match staging.get(src) {
        None => {
            return Err(JinError::NotFound(concat2("Source file not in staging: ", src)));
        },
        Some(e) => (e.content_hash.clone(), e.mode),
    };
    if staging.get(dst).is_some() {
        return Err(JinError::Other(concat2("Destination already in staging: ", dst)));
    }
    let ghost before = staging@;
    staging.remove(src);
    let ghost mid = staging@;
    let entry = StagedEntry::rename(src.to_owned(), dst.to_owned(), layer, hash, mode);
    proof {
        let i = choose|i: int| 0 <= i < before.len() && before[i].path@ == src@ && mid == before.remove(i);
        assert(before[i].path@ == src@);
        if has_path(mid, dst@) {
            let k = choose|k: int| 0 <= k < mid.len() && mid[k].path@ == dst@;
            if k < i {
                assert(mid[k] == before[k]);
            } else {
                assert(mid[k] == before[k + 1]);
            }
            assert(has_path(before, dst@));
        }
    }
    staging.add(entry);
    Ok(force && src_exists)
}

/// How `jin mv` names a layer.
pub fn format_layer_name(layer: Layer) -> (r: &'static str)
    ensures
        r@ == layer_display_spec(layer),
{
    layer.name()
}

/// The summary `jin mv` prints.
pub open spec fn mv_summary(moved: nat, layer: Layer) -> Seq<Seq<char>> {
    if moved > 0 {
        seq!["Moved "@ + decimal_spec(moved) + " file(s) in "@ + layer_display_spec(layer) + " layer"@]
    } else {
        seq![]
    }
}

/// Ends `jin mv`: the summary line, and the error when every pair failed.
pub fn finish(layer: Layer, moved: usize, failed: usize) -> (r: (Vec<String>, Result<(), JinError>))
    ensures
        strs(r.0@) == mv_summary(moved as nat, layer),
        r.1 is Err <==> failed > 0 && moved == 0,
        r.1 matches Err(e) ==> (e matches JinError::StagingFailed { path, reason } && path@
            == "multiple files"@ && reason@ == batch_failure_reason(failed as nat, "move"@)),
{
    let mut lines: Vec<String> = Vec::new();
    if moved > 0 {
        let n = usize_to_string(moved);
        lines.push(concat5("Moved ", n.as_str(), " file(s) in ", layer.name(), " layer"));
    }
    assert(strs(lines@) =~= mv_summary(moved as nat, layer));
    (lines, batch_outcome(moved, failed, "move"))
}

} // verus!
