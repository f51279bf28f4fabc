//! Routing of layer flags to a target layer.

use vstd::prelude::*;
use crate::model::config::ProjectContext;
use crate::model::error::JinError;
use crate::model::layer::{is_project_specific_spec, requires_mode_spec, requires_scope_spec, Layer};

verus! {

/// The layer flags of a staging command.
#[derive(Debug)]
pub struct RoutingOptions {
    /// `--mode`: target the active mode.
    pub mode: bool,
    /// `--scope=<X>`: target a scope.
    pub scope: Option<String>,
    /// `--project`: target the project (with `--mode`).
    pub project: bool,
    /// `--global`: target the global layer.
    pub global: bool,
}

impl Default for RoutingOptions {
    fn default() -> (r: Self)
        ensures
            !r.mode,
            r.scope is None,
            !r.project,
            !r.global,
    {
        RoutingOptions { mode: false, scope: None, project: false, global: false }
    }
}

/// Whether a flag combination is accepted: `--global` stands alone, and
/// `--project` needs `--mode`.
pub open spec fn routing_valid_spec(o: RoutingOptions) -> bool {
    !(o.global && (o.mode || o.scope is Some || o.project)) && !(o.project && !o.mode)
}

/// The message that refuses a flag combination.
pub open spec fn routing_error_spec(o: RoutingOptions) -> Seq<char> {
    if o.global && (o.mode || o.scope is Some || o.project) {
        "Cannot combine --global with other layer flags"@
    } else {
        "--project requires --mode (use --mode --project)"@
    }
}

/// The layer that a flag combination routes to, ignoring whether a mode
/// is active.
pub open spec fn routed_layer_spec(o: RoutingOptions) -> Layer {
    if o.global {
        Layer::GlobalBase
    } else if o.mode && o.scope is Some && o.project {
        Layer::ModeScopeProject
    } else if o.mode && o.scope is Some {
        Layer::ModeScope
    } else if o.mode && o.project {
        Layer::ModeProject
    } else if o.mode {
        Layer::ModeBase
    } else if o.scope is Some {
        Layer::ScopeBase
    } else {
        Layer::ProjectBase
    }
}

/// Checks that the flag combination is accepted.
pub fn validate_routing_options(options: &RoutingOptions) -> (r: Result<(), JinError>)
    ensures
        r is Ok <==> routing_valid_spec(*options),
        r matches Err(e) ==> (e matches JinError::Other(m) && m@ == routing_error_spec(*options)),
{
    if options.global && (options.mode || options.scope.is_some() || options.project) {
        return Err(JinError::Other("Cannot combine --global with other layer flags".to_owned()));
    }
    if options.project && !options.mode {
        return Err(JinError::Other("--project requires --mode (use --mode --project)".to_owned()));
    }
    Ok(())
}

/// Routes the flags to a target layer; a mode flag needs an active mode.
pub fn route_to_layer(options: &RoutingOptions, context: &ProjectContext) -> (r: Result<
    Layer,
    JinError,
>)
    ensures
        r is Ok <==> routing_valid_spec(*options) && (options.mode ==> context.mode is Some),
        r matches Ok(l) ==> l == routed_layer_spec(*options),
        !routing_valid_spec(*options) ==> (r matches Err(JinError::Other(m)) && m@ == routing_error_spec(
            *options,
        )),
        routing_valid_spec(*options) && options.mode && context.mode is None ==> (r matches Err(
            JinError::NoActiveContext { context_type },
        ) && context_type@ == "mode"@),
{
    validate_routing_options(options)?;
    if options.global {
        return Ok(Layer::GlobalBase);
    }
    if options.mode {
        context.require_mode()?;
        if options.scope.is_some() && options.project {
            return Ok(Layer::ModeScopeProject);
        }
        if options.scope.is_some() {
            return Ok(Layer::ModeScope);
        }
        if options.project {
            return Ok(Layer::ModeProject);
        }
        return Ok(Layer::ModeBase);
    }
    if options.scope.is_some() {
        return Ok(Layer::ScopeBase);
    }
    Ok(Layer::ProjectBase)
}

/// Law: the routed layer carries what the flags ask for. With valid
/// flags, `--project` routes to a layer of the project and `--global` or
/// `--mode` without it to a layer shared by all projects; `--mode` routes
/// to a layer of the mode and a scope to a layer of the scope, and only
/// they do; `--global` routes to the global layer and no flag to the
/// project base.
pub proof fn lemma_routing_follows_flags(o: RoutingOptions)
    requires
        routing_valid_spec(o),
    ensures
        o.project ==> is_project_specific_spec(routed_layer_spec(o)),
        (o.global || o.mode) && !o.project ==> !is_project_specific_spec(routed_layer_spec(o)),
        requires_mode_spec(routed_layer_spec(o)) <==> o.mode,
        requires_scope_spec(routed_layer_spec(o)) <==> o.scope is Some,
        o.global ==> routed_layer_spec(o) == Layer::GlobalBase,
        !o.global && !o.mode && o.scope is None ==> routed_layer_spec(o) == Layer::ProjectBase,
{
}

} // verus!
