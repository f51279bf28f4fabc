//! `jin add`: stage files to the layer that the flags select.

use vstd::prelude::*;
use vstd::string::*;
use crate::cli::args::AddArgs;
use crate::commands::common::{
    batch_outcome, batch_failure_reason, directory_message, loaded_view, resolve_context,
    resolved_context, strs, FileFacts,
};
use crate::model::config::{ContextView, ProjectContext};
use crate::model::error::JinError;
use crate::model::layer::Layer;
use crate::staging::routing::{
    route_to_layer, routed_layer_spec, routing_valid_spec, validate_routing_options, routing_error_spec,
    RoutingOptions,
};
use crate::text::{concat2, concat3, concat4, concat5, decimal_spec, usize_to_string};

verus! {

/// The routing flags of `jin add`.
pub open spec fn add_options(args: AddArgs) -> RoutingOptions {
    RoutingOptions { mode: args.mode, scope: args.scope, project: args.project, global: args.global }
}

/// What `jin add` decided before touching any file: the target layer and
/// the context it was chosen in.
#[derive(Debug)]
pub struct AddPlan {
    /// The layer the files are staged to.
    pub layer: Layer,
    /// The project context.
    pub context: ProjectContext,
}

/// Decides the target layer of `jin add`: files must be given, the
/// context must load (an uninitialized project is an error, another
/// failure falls back to the default), the flags must combine, and a mode
/// flag needs an active mode.
pub fn execute(args: &AddArgs, context: Result<ProjectContext, JinError>) -> (r: Result<AddPlan, JinError>)
    ensures
        args.files@.len() == 0 ==> (r matches Err(JinError::Other(m)) && m@ == "No files specified"@),
        args.files@.len() > 0 ==> match resolved_context(loaded_view(context)) {
            Err(_) => r matches Err(JinError::NotInitialized),
            Ok(c) => if !routing_valid_spec(add_options(*args)) {
                r matches Err(JinError::Other(m)) && m@ == routing_error_spec(add_options(*args))
            } else if args.mode && c.mode is None {
                r matches Err(JinError::NoActiveContext { context_type }) && context_type@ == "mode"@
            } else {
                r matches Ok(p) && p.layer == routed_layer_spec(add_options(*args)) && p.context@ == c
            },
        },
{
    if args.files.len() == 0 {
        return Err(JinError::Other("No files specified".to_owned()));
    }
    let context = resolve_context(context)?;
    let options = RoutingOptions {
        mode: args.mode,
        scope: crate::model::config::clone_opt(&args.scope),
        project: args.project,
        global: args.global,
    };
    validate_routing_options(&options)?;
    let layer = route_to_layer(&options, &context)?;
    Ok(AddPlan { layer, context })
}

/// Checks a file before staging it: it exists, is not a directory, is not
/// a symbolic link and is not tracked by the project's Git.
pub fn validate_file(path: &str, facts: FileFacts) -> (r: Result<(), JinError>)
    ensures
        !facts.exists ==> (r matches Err(JinError::NotFound(m)) && m@ == path@),
        facts.exists && facts.is_dir ==> (r matches Err(JinError::Other(m)) && m@
            == directory_message(path@)),
        facts.exists && !facts.is_dir ==> match facts.is_symlink {
            Err(e) => r == Err::<(), JinError>(e),
            Ok(true) => r matches Err(JinError::Symlink { path: p }) && p@ == path@,
            Ok(false) => match facts.git_tracked {
                Err(e) => r == Err::<(), JinError>(e),
                Ok(true) => r matches Err(JinError::GitTracked { path: p }) && p@ == path@,
                Ok(false) => r is Ok,
            },
        },
{
    if !facts.exists {
        return Err(JinError::NotFound(path.to_owned()));
    }
    if facts.is_dir {
        return Err(JinError::Other(concat2(path, " is a directory, not a file")));
    }
    match facts.is_symlink {
        Err(e) => {
            return Err(e);
        },
        Ok(true) => {
            return Err(JinError::Symlink { path: path.to_owned() });
        },
        Ok(false) => {},
    }
    match facts.git_tracked {
        Err(e) => Err(e),
        Ok(true) => Err(JinError::GitTracked { path: path.to_owned() }),
        Ok(false) => Ok(()),
    }
}

/// How a layer is named in messages, with the active mode and scope.
pub open spec fn layer_with_context_spec(layer: Layer, c: ContextView) -> Seq<char> {
    match layer {
        Layer::GlobalBase => "global"@,
        Layer::ModeBase => match c.mode {
            Some(m) => "'"@ + m + "' (mode)"@,
            None => "mode-base"@,
        },
        Layer::ModeScope => match (c.mode, c.scope) {
            (Some(m), Some(s)) => "'"@ + m + "/"@ + s + "' (mode/scope)"@,
            _ => "mode-scope"@,
        },
        Layer::ModeScopeProject => "mode-scope-project"@,
        Layer::ModeProject => match c.mode {
            Some(m) => "'"@ + m + "/project' (mode/project)"@,
            None => "mode-project"@,
        },
        Layer::ScopeBase => match c.scope {
            Some(s) => "'"@ + s + "' (scope)"@,
            None => "scope-base"@,
        },
        Layer::ProjectBase => "project"@,
        Layer::UserLocal => "user-local"@,
        Layer::WorkspaceActive => "workspace-active"@,
    }
}

/// How a layer is named in messages, with the active mode and scope.
pub fn format_layer_name_with_context(layer: Layer, context: &ProjectContext) -> (r: String)
    ensures
        r@ == layer_with_context_spec(layer, context@),
{
    match layer {
        Layer::GlobalBase => "global".to_owned(),
        Layer::ModeBase => match &context.mode {
            Some(m) => concat3("'", m.as_str(), "' (mode)"),
            None => "mode-base".to_owned(),
        },
        Layer::ModeScope => match (&context.mode, &context.scope) {
            (Some(m), Some(s)) => concat5("'", m.as_str(), "/", s.as_str(), "' (mode/scope)"),
            _ => "mode-scope".to_owned(),
        },
        Layer::ModeScopeProject => "mode-scope-project".to_owned(),
        Layer::ModeProject => match &context.mode {
            Some(m) => concat3("'", m.as_str(), "/project' (mode/project)"),
            None => "mode-project".to_owned(),
        },
        Layer::ScopeBase => match &context.scope {
            Some(s) => concat3("'", s.as_str(), "' (scope)"),
            None => "scope-base".to_owned(),
        },
        Layer::ProjectBase => "project".to_owned(),
        Layer::UserLocal => "user-local".to_owned(),
        Layer::WorkspaceActive => "workspace-active".to_owned(),
    }
}

/// The summary `jin add` prints once the files were handled.
pub open spec fn add_summary(staged: nat, layer: Layer, c: ContextView) -> Seq<Seq<char>> {
    if staged > 0 {
        seq![
            "Staged "@ + decimal_spec(staged) + " file(s) to "@ + layer_with_context_spec(layer, c)
                + " layer"@,
        ]
    } else {
        seq![]
    }
}

/// Ends `jin add`: the summary line, and the error when every file failed.
pub fn finish(plan: &AddPlan, staged: usize, failed: usize) -> (r: (Vec<String>, Result<(), JinError>))
    ensures
        strs(r.0@) == add_summary(staged as nat, plan.layer, plan.context@),
        r.1 is Err <==> failed > 0 && staged == 0,
        r.1 matches Err(e) ==> (e matches JinError::StagingFailed { path, reason } && path@
            == "multiple files"@ && reason@ == batch_failure_reason(failed as nat, "stage"@)),
{
    let mut lines: Vec<String> = Vec::new();
    if staged > 0 {
        let n = usize_to_string(staged);
        let name = format_layer_name_with_context(plan.layer, &plan.context);
        lines.push(concat5("Staged ", n.as_str(), " file(s) to ", name.as_str(), " layer"));
        assert(strs(lines@) =~= add_summary(staged as nat, plan.layer, plan.context@));
    } else {
        assert(strs(lines@) =~= add_summary(staged as nat, plan.layer, plan.context@));
    }
    (lines, batch_outcome(staged, failed, "stage"))
}

} // verus!
