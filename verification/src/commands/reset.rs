//! `jin reset`: unstage or discard the staged files of a layer.

use vstd::prelude::*;
use vstd::string::*;
use crate::cli::args::ResetArgs;
use crate::commands::common::{loaded_view, resolve_context, resolved_context, strs};
use crate::model::config::{ContextView, ProjectContext};
use crate::model::error::JinError;
use crate::model::layer::{layer_display_spec, Layer};
use crate::staging::index::{entries_not_of_layer, entries_of_layer, StagedEntry, StagingIndex};
use crate::text::{chars_of, concat2, concat3, decimal_spec, trim, trim_spec, usize_to_string};

verus! {

/// How far a reset goes.
#[derive(Debug, Clone, Copy, PartialEq, Eq, Structural)]
pub enum ResetMode {
    /// Keep the changes in staging.
    Soft,
    /// Unstage, keep the workspace files (the default).
    Mixed,
    /// Unstage and delete the workspace files.
    Hard,
}

/// The mode the flags select: `--soft` first, then `--hard`, otherwise
/// mixed.
pub open spec fn reset_mode_spec(args: ResetArgs) -> ResetMode {
    if args.soft {
        ResetMode::Soft
    } else if args.hard {
        ResetMode::Hard
    } else {
        ResetMode::Mixed
    }
}

/// The staging index after a reset of a layer in a mode: a soft reset
/// keeps it, another one drops the layer's entries.
pub open spec fn staging_after_reset(mode: ResetMode, s: Seq<StagedEntry>, layer: Layer) -> Seq<StagedEntry> {
    if mode == ResetMode::Soft {
        s
    } else {
        entries_not_of_layer(s, layer)
    }
}

/// The mode the flags select.
pub fn reset_mode(args: &ResetArgs) -> (r: ResetMode)
    ensures
        r == reset_mode_spec(*args),
{
    if args.soft {
        ResetMode::Soft
    } else if args.hard {
        ResetMode::Hard
    } else {
        ResetMode::Mixed
    }
}

/// The layer a reset targets, when the flags combine.
pub open spec fn target_layer_spec(args: ResetArgs) -> Option<Layer> {
    if args.mode && args.scope is Some && args.project {
        Some(Layer::ModeScopeProject)
    } else if args.mode && args.scope is Some {
        Some(Layer::ModeScope)
    } else if args.mode && args.project {
        Some(Layer::ModeProject)
    } else if args.mode {
        Some(Layer::ModeBase)
    } else if args.scope is Some {
        Some(Layer::ScopeBase)
    } else if args.project {
        None
    } else {
        Some(Layer::ProjectBase)
    }
}

/// Picks the layer a reset targets: the mode layers need an active mode,
/// and `--project` needs `--mode`.
pub fn determine_target_layer(args: &ResetArgs, context: &ProjectContext) -> (r: Result<Layer, JinError>)
    ensures
        args.mode && context.mode is None ==> (r matches Err(JinError::NoActiveContext { context_type })
            && context_type@ == "mode"@),
        !(args.mode && context.mode is None) ==> match target_layer_spec(*args) {
            Some(l) => r == Ok::<Layer, JinError>(l),
            None => r matches Err(JinError::Other(m)) && m@
                == "--project requires --mode (use --mode --project)"@,
        },
{
    if args.mode && args.scope.is_some() && args.project {
        context.require_mode()?;
        return Ok(Layer::ModeScopeProject);
    }
    if args.mode && args.scope.is_some() {
        context.require_mode()?;
        return Ok(Layer::ModeScope);
    }
    if args.mode && args.project {
        context.require_mode()?;
        return Ok(Layer::ModeProject);
    }
    if args.mode {
        context.require_mode()?;
        return Ok(Layer::ModeBase);
    }
    if args.scope.is_some() {
        return Ok(Layer::ScopeBase);
    }
    if args.project {
        return Err(JinError::Other("--project requires --mode (use --mode --project)".to_owned()));
    }
    Ok(Layer::ProjectBase)
}

/// Unstages every entry of a layer, keeping the others in order.
pub fn reset_staging(staging: &mut StagingIndex, layer: Layer) -> (r: Result<(), JinError>)
    requires
        old(staging).wf(),
    ensures
        r is Ok,
        final(staging).wf(),
        final(staging)@ == entries_not_of_layer(old(staging)@, layer),
{
    staging.remove_layer(layer);
    Ok(())
}

/// How `jin reset` names a layer.
pub fn layer_name(layer: Layer) -> (r: &'static str)
    ensures
        r@ == layer_display_spec(layer),
{
    layer.name()
}

/// What `jin reset` decided before asking or changing anything.
#[derive(Debug)]
pub enum ResetPlan {
    /// The layer has nothing staged; print the line and stop.
    Nothing(String),
    /// Reset `count` entries of the layer; a hard reset first asks the
    /// question in `confirm`.
    Reset { mode: ResetMode, layer: Layer, count: usize, confirm: Option<String> },
}

/// The question a hard reset asks.
pub open spec fn hard_question(count: nat) -> Seq<char> {
    "This will discard "@ + decimal_spec(count)
        + " file(s) from staging AND workspace. Type 'yes' to confirm:"@
}

/// Decides a reset: the mode, the context (an uninitialized project is an
/// error), the layer, and how many staged entries it has.
pub fn execute(args: &ResetArgs, context: Result<ProjectContext, JinError>, staging: &StagingIndex) -> (r: Result<
    ResetPlan,
    JinError,
>)
    ensures
        match resolved_context(loaded_view(context)) {
            Err(_) => r matches Err(JinError::NotInitialized),
            Ok(c) => if args.mode && c.mode is None {
                r matches Err(JinError::NoActiveContext { context_type }) && context_type@ == "mode"@
            } else {
                match target_layer_spec(*args) {
                    None => r matches Err(JinError::Other(m)) && m@
                        == "--project requires --mode (use --mode --project)"@,
                    Some(l) => if entries_of_layer(staging@, l).len() == 0 {
                        r matches Ok(ResetPlan::Nothing(m)) && m@ == "Nothing to reset for layer: "@
                            + layer_display_spec(l)
                    } else {
                        r matches Ok(ResetPlan::Reset { mode, layer, count, confirm }) && mode
                            == reset_mode_spec(*args) && layer == l && count == entries_of_layer(
                            staging@,
                            l,
                        ).len() && (mode == ResetMode::Hard ==> (confirm matches Some(q) && q@
                            == hard_question(count as nat))) && (mode != ResetMode::Hard
                            ==> confirm is None)
                    },
                }
            },
        },
{
    let mode = reset_mode(args);
    let context = resolve_context(context)?;
    let layer = determine_target_layer(args, &context)?;
    let entries = staging.entries_for_layer(layer);
    if entries.len() == 0 {
        return Ok(ResetPlan::Nothing(concat2("Nothing to reset for layer: ", layer.name())));
    }
    let count = entries.len();
    let confirm = if mode == ResetMode::Hard {
        let n = usize_to_string(count);
        Some(concat3(
            "This will discard ",
            n.as_str(),
            " file(s) from staging AND workspace. Type 'yes' to confirm:",
        ))
    } else {
        None
    };
    Ok(ResetPlan::Reset { mode, layer, count, confirm })
}

/// The line a reset prints once done.
pub open spec fn reset_done_line(mode: ResetMode, count: nat) -> Seq<char> {
    match mode {
        ResetMode::Soft => "Reset "@ + decimal_spec(count) + " file(s) (kept in staging)"@,
        ResetMode::Mixed => "Unstaged "@ + decimal_spec(count) + " file(s) (kept in workspace)"@,
        ResetMode::Hard => "Discarded "@ + decimal_spec(count)
            + " file(s) from staging and workspace"@,
    }
}

/// Carries out a reset: a soft reset changes nothing, a mixed or hard one
/// unstages the layer. Returns the entries whose workspace files a hard
/// reset deletes, and the line to print.
pub fn apply(mode: ResetMode, layer: Layer, count: usize, staging: &mut StagingIndex) -> (r: (
    Vec<StagedEntry>,
    String,
))
    requires
        old(staging).wf(),
    ensures
        final(staging).wf(),
        final(staging)@ == staging_after_reset(mode, old(staging)@, layer),
        mode == ResetMode::Soft ==> final(staging)@ == old(staging)@ && r.0@.len() == 0,
        mode != ResetMode::Soft ==> final(staging)@ == entries_not_of_layer(old(staging)@, layer),
        mode == ResetMode::Mixed ==> r.0@.len() == 0,
        mode == ResetMode::Hard ==> r.0@ == entries_of_layer(old(staging)@, layer),
        r.1@ == reset_done_line(mode, count as nat),
{
    let n = usize_to_string(count);
    match mode {
        ResetMode::Soft => (Vec::new(), concat3("Reset ", n.as_str(), " file(s) (kept in staging)")),
        ResetMode::Mixed => {
            let _ = reset_staging(staging, layer);
            (Vec::new(), concat3("Unstaged ", n.as_str(), " file(s) (kept in workspace)"))
        },
        ResetMode::Hard => {
            let entries = staging.entries_for_layer(layer);
            let _ = reset_staging(staging, layer);
            (entries, concat3("Discarded ", n.as_str(), " file(s) from staging and workspace"))
        },
    }
}

/// Whether a reply to the confirmation question agrees: once trimmed, it
/// is `yes` in any mix of ASCII case.
pub open spec fn agrees(reply: Seq<char>) -> bool {
    let t = trim_spec(reply);
    &&& t.len() == 3
    &&& (t[0] == 'y' || t[0] == 'Y')
    &&& (t[1] == 'e' || t[1] == 'E')
    &&& (t[2] == 's' || t[2] == 'S')
}

/// Whether a reply to the confirmation question agrees.
pub fn confirmed(reply: &str) -> (r: bool)
    ensures
        r == agrees(reply@),
{
    let t = trim(reply);
    let cs = chars_of(t.as_str());
    cs.len() == 3 && (cs[0] == 'y' || cs[0] == 'Y') && (cs[1] == 'e' || cs[1] == 'E') && (cs[2] == 's'
        || cs[2] == 'S')
}

/// What a reset prints when its confirmation is refused.
pub fn cancelled_line() -> (r: String)
    ensures
        r@ == "Reset cancelled"@,
{
    "Reset cancelled".to_owned()
}

/// Law: `--soft` keeps the staging index as it is, whatever else is
/// given; without it the reset layer is left with no staged entry; and
/// only `--hard` without `--soft` discards workspace files.
pub proof fn lemma_reset_flags_meaning(args: ResetArgs, s: Seq<StagedEntry>, layer: Layer)
    ensures
        args.soft ==> staging_after_reset(reset_mode_spec(args), s, layer) == s,
        !args.soft ==> forall|k: int|
            0 <= k < staging_after_reset(reset_mode_spec(args), s, layer).len() ==> (#[trigger] staging_after_reset(
                reset_mode_spec(args),
                s,
                layer,
            )[k]).target_layer != layer,
        reset_mode_spec(args) == ResetMode::Hard <==> (args.hard && !args.soft),
{
    crate::staging::index::lemma_remove_layer(s, layer);
}

} // verus!
