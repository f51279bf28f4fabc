//! `jin import`: move Git-tracked files under Jin's management.

use vstd::prelude::*;
use vstd::string::*;
use crate::cli::args::ImportArgs;
use crate::commands::common::{
    batch_outcome, batch_failure_reason, directory_message, loaded_view, resolve_context,
    resolved_context, strs, FileFacts,
};
use crate::model::config::ProjectContext;
use crate::model::error::JinError;
use crate::model::layer::{layer_display_spec, Layer};
use crate::staging::routing::{route_to_layer, validate_routing_options, RoutingOptions};
use crate::text::{concat2, concat5, decimal_spec, usize_to_string};

verus! {

/// Decides the layer `jin import` stages to: files must be given and the
/// context must load; the command has no layer flags, so the files go to
/// the project layer.
pub fn execute(args: &ImportArgs, context: Result<ProjectContext, JinError>) -> (r: Result<Layer, JinError>)
    ensures
        args.files@.len() == 0 ==> (r matches Err(JinError::Other(m)) && m@ == "No files specified"@),
        args.files@.len() > 0 ==> match resolved_context(loaded_view(context)) {
            Err(_) => r matches Err(JinError::NotInitialized),
            Ok(_) => r == Ok::<Layer, JinError>(Layer::ProjectBase),
        },
{
    if args.files.len() == 0 {
        return Err(JinError::Other("No files specified".to_owned()));
    }
    let context = resolve_context(context)?;
    let options = RoutingOptions::default();
    validate_routing_options(&options)?;
    route_to_layer(&options, &context)
}

/// Checks a file before importing it: it exists, is not a directory, is
/// not a symbolic link, is tracked by Git, and without `force` has no
/// uncommitted Git changes.
pub fn validate_import_file(path: &str, facts: FileFacts, force: bool) -> (r: Result<(), JinError>)
    ensures
        !facts.exists ==> (r matches Err(JinError::NotFound(m)) && m@ == path@),
        facts.exists && facts.is_dir ==> (r matches Err(JinError::Other(m)) && m@
            == directory_message(path@)),
        facts.exists && !facts.is_dir ==> match facts.is_symlink {
            Err(e) => r == Err::<(), JinError>(e),
            Ok(true) => r matches Err(JinError::Symlink { path: p }) && p@ == path@,
            Ok(false) => match facts.git_tracked {
                Err(e) => r == Err::<(), JinError>(e),
                Ok(false) => r matches Err(JinError::Other(m)) && m@ == path@
                    + " is not tracked by Git. Use `jin add` instead."@,
                Ok(true) => if force {
                    r is Ok
                } else {
                    match facts.git_modified {
                        Err(e) => r == Err::<(), JinError>(e),
                        Ok(true) => r matches Err(JinError::Other(m)) && m@ == path@
                            + " has uncommitted changes in Git. Use --force to import anyway."@,
                        Ok(false) => r is Ok,
                    }
                },
            },
        },
{
    if !facts.exists {
        return Err(JinError::NotFound(path.to_owned()));
    }
    if facts.is_dir {
        return Err(JinError::Other(concat2(path, " is a directory, not a file")));
    }
    match facts.is_symlink {
        Err(e) => {
            return Err(e);
        },
        Ok(true) => {
            return Err(JinError::Symlink { path: path.to_owned() });
        },
        Ok(false) => {},
    }
    match facts.git_tracked {
        Err(e) => {
            return Err(e);
        },
        Ok(false) => {
            return Err(JinError::Other(concat2(path, " is not tracked by Git. Use `jin add` instead.")));
        },
        Ok(true) => {},
    }
    if force {
        return Ok(());
    }
    match facts.git_modified {
        Err(e) => Err(e),
        Ok(true) => Err(
            JinError::Other(concat2(path, " has uncommitted changes in Git. Use --force to import anyway.")),
        ),
        Ok(false) => Ok(()),
    }
}

/// How `jin import` names a layer.
pub fn format_layer_name(layer: Layer) -> (r: &'static str)
    ensures
        r@ == layer_display_spec(layer),
{
    layer.name()
}

/// The summary `jin import` prints.
pub open spec fn import_summary(imported: nat, layer: Layer) -> Seq<Seq<char>> {
    if imported > 0 {
        seq![
            "Imported "@ + decimal_spec(imported) + " file(s) from Git to "@ + layer_display_spec(layer)
                + " layer"@,
        ]
    } else {
        seq![]
    }
}

/// Ends `jin import`: the summary line, and the error when nothing was
/// imported and some file failed.
pub fn finish(layer: Layer, imported: usize, failed: usize) -> (r: (Vec<String>, Result<(), JinError>))
    ensures
        strs(r.0@) == import_summary(imported as nat, layer),
        r.1 is Err <==> failed > 0 && imported == 0,
        r.1 matches Err(e) ==> (e matches JinError::StagingFailed { path, reason } && path@
            == "multiple files"@ && reason@ == batch_failure_reason(failed as nat, "import"@)),
{
    let mut lines: Vec<String> = Vec::new();
    if imported > 0 {
        let n = usize_to_string(imported);
        lines.push(concat5("Imported ", n.as_str(), " file(s) from Git to ", layer.name(), " layer"));
    }
    assert(strs(lines@) =~= import_summary(imported as nat, layer));
    (lines, batch_outcome(imported, failed, "import"))
}

} // verus!
