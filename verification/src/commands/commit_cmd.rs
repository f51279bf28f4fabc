//! `jin commit`: commit the staged files through the commit pipeline.

use vstd::prelude::*;
use vstd::string::*;
use crate::cli::args::CommitArgs;
use crate::commands::common::strs;
use crate::commit::pipeline::{execute_outcome, CommitConfig, CommitPipeline, CommitResult, PipelineStep};
use crate::model::config::ProjectContext;
use crate::model::error::JinError;
use crate::model::layer::{layer_display_spec, Layer};
use crate::staging::index::{StagedEntry, StagingIndex};
use crate::text::{concat3, concat4, concat5, decimal_spec, usize_to_string};

verus! {

/// The message for a commit with nothing staged.
pub open spec fn nothing_staged_message() -> Seq<char> {
    "No staged files to commit. Use 'jin add' to stage files first."@
}

/// Runs `jin commit` up to the point where the executable writes the
/// commits: the project must be initialized and the staging index must
/// load (their errors are the command's), and an empty index gets a
/// friendlier message. Returns the pipeline and its decision.
pub fn execute(args: &CommitArgs, context: Result<ProjectContext, JinError>, staging: Result<StagingIndex, JinError>) -> (r: Result<
    (CommitPipeline, PipelineStep),
    JinError,
>)
    ensures
        context is Err ==> r == Err::<(CommitPipeline, PipelineStep), JinError>(context->Err_0),
        context is Ok && staging is Err ==> r == Err::<(CommitPipeline, PipelineStep), JinError>(
            staging->Err_0,
        ),
        context is Ok && staging is Ok ==> ({
            let s = staging->Ok_0;
            if s@.len() == 0 {
                r matches Err(JinError::Other(m)) && m@ == nothing_staged_message()
            } else {
                match r {
                    Ok((p, step)) => p@ == s@ && (s.wf() ==> p.wf()) && execute_outcome(
                        s@,
                        args.dry_run,
                        Ok::<PipelineStep, JinError>(step),
                    ),
                    Err(e) => execute_outcome(s@, args.dry_run, Err::<PipelineStep, JinError>(e)),
                }
            }
        }),
{
    let _context = context?;
    let staging = staging?;
    let config = CommitConfig::new(args.message.clone()).dry_run(args.dry_run);
    let ghost s = staging@;
    let mut pipeline = CommitPipeline::new(staging);
    match pipeline.execute(&config) {
        Ok(step) => Ok((pipeline, step)),
        Err(JinError::Other(m)) => {
            if crate::text::str_eq(m.as_str(), "Nothing to commit") {
                Err(JinError::Other("No staged files to commit. Use 'jin add' to stage files first.".to_owned()))
            } else {
                Err(JinError::Other(m))
            }
        },
        Err(e) => Err(e),
    }
}

/// The lines of each committed layer and its commit.
pub open spec fn hash_lines(v: Seq<(Layer, String)>) -> Seq<Seq<char>> {
    v.map_values(|h: (Layer, String)| "  "@ + layer_display_spec(h.0) + ": "@ + h.1@)
}

/// What `jin commit` prints of a result: nothing for a dry run (the
/// pipeline reported it), otherwise the counts and each layer's commit.
pub open spec fn commit_report(file_count: nat, layers: nat, hashes: Seq<(Layer, String)>) -> Seq<Seq<char>> {
    if hashes.len() == 0 {
        seq![]
    } else {
        seq![
            "Committed "@ + decimal_spec(file_count) + " file(s) to "@ + decimal_spec(layers)
                + " layer(s):"@,
        ] + hash_lines(hashes)
    }
}

/// What `jin commit` prints of a result.
pub fn display_commit_result(result: &CommitResult) -> (r: Vec<String>)
    ensures
        strs(r@) == commit_report(
            result.file_count as nat,
            result.committed_layers@.len(),
            result.commit_hashes@,
        ),
{
    let mut lines: Vec<String> = Vec::new();
    if result.commit_hashes.len() == 0 {
        assert(strs(lines@) =~= commit_report(
            result.file_count as nat,
            result.committed_layers@.len(),
            result.commit_hashes@,
        ));
        return lines;
    }
    let n = usize_to_string(result.file_count);
    let m = usize_to_string(result.committed_layers.len());
    lines.push(concat5("Committed ", n.as_str(), " file(s) to ", m.as_str(), " layer(s):"));
    let ghost head = strs(lines@);
    let mut i: usize = 0;
    while i < result.commit_hashes.len()
        invariant
            i <= result.commit_hashes@.len(),
            strs(lines@) == head + hash_lines(result.commit_hashes@.subrange(0, i as int)),
        decreases result.commit_hashes@.len() - i,
    {
        let (l, h) = (result.commit_hashes[i].0, &result.commit_hashes[i].1);
        let ghost before = strs(lines@);
        lines.push(concat4("  ", l.name(), ": ", h.as_str()));
        assert(hash_lines(result.commit_hashes@.subrange(0, i + 1)) =~= hash_lines(
            result.commit_hashes@.subrange(0, i as int),
        ).push("  "@ + layer_display_spec(l) + ": "@ + h@));
        assert(strs(lines@) =~= before.push("  "@ + layer_display_spec(l) + ": "@ + h@));
        i = i + 1;
    }
    assert(result.commit_hashes@.subrange(0, result.commit_hashes@.len() as int) =~= result.commit_hashes@);
    lines
}

} // verus!
