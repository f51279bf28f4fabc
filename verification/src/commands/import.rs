//! Routing of an import to a layer and the names it is stored under.

use vstd::prelude::*;
use vstd::string::*;
use crate::model::config::{clone_opt, ContextView, ProjectContext};
use crate::model::error::JinError;
use crate::model::layer::{opt_sview, Layer};

verus! {

/// The files and layer flags of an import.
#[derive(Debug)]
pub struct ImportCommand {
    /// Files to import.
    pub files: Vec<String>,
    /// Target the active mode.
    pub mode: bool,
    /// Target a scope.
    pub scope: Option<String>,
    /// Target the project.
    pub project: bool,
    /// Target the global layer.
    pub global: bool,
}

/// A layer together with the mode, scope and project it is stored under.
#[derive(Debug)]
pub struct LayerTarget {
    /// The layer.
    pub layer: Layer,
    /// The mode of a mode layer.
    pub mode: Option<String>,
    /// The scope of a scope layer.
    pub scope: Option<String>,
    /// The project of a project layer.
    pub project: Option<String>,
}

/// A target by its strings.
pub open spec fn target_view(t: LayerTarget) -> (Layer, Option<Seq<char>>, Option<Seq<char>>, Option<Seq<char>>) {
    (t.layer, opt_sview(t.mode), opt_sview(t.scope), opt_sview(t.project))
}

/// The layer that explicit names select: global first, then the mode
/// layers by which names come with the mode, then a scope, then a
/// project; nothing when no name is given.
pub open spec fn from_flags_spec(
    mode: Option<Seq<char>>,
    scope: Option<Seq<char>>,
    project: Option<Seq<char>>,
    global: bool,
) -> Option<(Layer, Option<Seq<char>>, Option<Seq<char>>, Option<Seq<char>>)> {
    if global {
        Some((Layer::GlobalBase, None, None, None))
    } else if mode is Some && scope is Some && project is Some {
        Some((Layer::ModeScopeProject, mode, scope, project))
    } else if mode is Some && scope is Some {
        Some((Layer::ModeScope, mode, scope, None))
    } else if mode is Some && project is Some {
        Some((Layer::ModeProject, mode, None, project))
    } else if mode is Some {
        Some((Layer::ModeBase, mode, None, None))
    } else if scope is Some {
        Some((Layer::ScopeBase, None, scope, None))
    } else if project is Some {
        Some((Layer::ProjectBase, None, None, project))
    } else {
        None
    }
}

/// The layer that explicit names select.
fn from_flags(mode: Option<String>, scope: Option<String>, project: Option<String>, global: bool) -> (r: Option<LayerTarget>)
    ensures
        match r {
            Some(t) => from_flags_spec(opt_sview(mode), opt_sview(scope), opt_sview(project), global)
                == Some(target_view(t)),
            None => from_flags_spec(opt_sview(mode), opt_sview(scope), opt_sview(project), global) is None,
        },
{
    if global {
        return Some(LayerTarget { layer: Layer::GlobalBase, mode: None, scope: None, project: None });
    }
    match (mode, scope, project) {
        (Some(m), Some(s), Some(p)) => Some(
            LayerTarget { layer: Layer::ModeScopeProject, mode: Some(m), scope: Some(s), project: Some(p) },
        ),
        (Some(m), Some(s), None) => Some(
            LayerTarget { layer: Layer::ModeScope, mode: Some(m), scope: Some(s), project: None },
        ),
        (Some(m), None, Some(p)) => Some(
            LayerTarget { layer: Layer::ModeProject, mode: Some(m), scope: None, project: Some(p) },
        ),
        (Some(m), None, None) => Some(
            LayerTarget { layer: Layer::ModeBase, mode: Some(m), scope: None, project: None },
        ),
        (None, Some(s), _) => Some(
            LayerTarget { layer: Layer::ScopeBase, mode: None, scope: Some(s), project: None },
        ),
        (None, None, Some(p)) => Some(
            LayerTarget { layer: Layer::ProjectBase, mode: None, scope: None, project: Some(p) },
        ),
        (None, None, None) => None,
    }
}

/// The layer an import goes to: with flags, the names they select (the
/// mode from the context, the scope from the flag or else the context, the
/// detected project); without flags, the context's mode and scope, then
/// its scope, then the project.
pub open spec fn determine_layer_spec(
    cmd: ImportCommand,
    c: ContextView,
    project: Seq<char>,
) -> Option<(Layer, Option<Seq<char>>, Option<Seq<char>>, Option<Seq<char>>)> {
    if cmd.mode || cmd.scope is Some || cmd.project || cmd.global {
        from_flags_spec(
            if cmd.mode {
                c.mode
            } else {
                None
            },
            match cmd.scope {
                Some(s) => Some(s@),
                None => c.scope,
            },
            if cmd.project {
                Some(project)
            } else {
                None
            },
            cmd.global,
        )
    } else {
        match (c.mode, c.scope) {
            (Some(m), Some(s)) => Some((Layer::ModeScope, Some(m), Some(s), None)),
            (Some(m), None) => Some((Layer::ModeBase, Some(m), None, None)),
            (None, Some(s)) => Some((Layer::ScopeBase, None, Some(s), None)),
            (None, None) => Some((Layer::ProjectBase, None, None, Some(project))),
        }
    }
}

/// Picks the layer an import goes to.
pub fn determine_layer(cmd: &ImportCommand, context: &ProjectContext, project: &str) -> (r: Result<
    LayerTarget,
    JinError,
>)
    ensures
        match determine_layer_spec(*cmd, context@, project@) {
            Some(t) => r matches Ok(x) && target_view(x) == t,
            None => r matches Err(JinError::Other(m)) && m@
                == "No routing target specified. Use --mode, --scope, --project, or --global"@,
        },
{
    if cmd.mode || cmd.scope.is_some() || cmd.project || cmd.global {
        let mode = if cmd.mode {
            clone_opt(&context.mode)
        } else {
            None
        };
        let scope = match &cmd.scope {
            Some(s) => Some(s.clone()),
            None => clone_opt(&context.scope),
        };
        let proj = if cmd.project {
            Some(project.to_owned())
        } else {
            None
        };
        return match from_flags(mode, scope, proj, cmd.global) {
            Some(t) => Ok(t),
            None => Err(
                JinError::Other(
                    "No routing target specified. Use --mode, --scope, --project, or --global".to_owned(),
                ),
            ),
        };
    }
    match (&context.mode, &context.scope) {
        (Some(m), Some(s)) => Ok(
            LayerTarget { layer: Layer::ModeScope, mode: Some(m.clone()), scope: Some(s.clone()), project: None },
        ),
        (Some(m), None) => Ok(
            LayerTarget { layer: Layer::ModeBase, mode: Some(m.clone()), scope: None, project: None },
        ),
        (None, Some(s)) => Ok(
            LayerTarget { layer: Layer::ScopeBase, mode: None, scope: Some(s.clone()), project: None },
        ),
        (None, None) => Ok(
            LayerTarget { layer: Layer::ProjectBase, mode: None, scope: None, project: Some(project.to_owned()) },
        ),
    }
}

} // verus!
