//! Helpers shared by the commands.

use vstd::prelude::*;
use vstd::string::*;
use crate::model::config::{default_context_view, ContextView, ProjectContext};
use crate::model::error::JinError;
use crate::model::config::opt_as_str;
use crate::model::layer::{layer_display_spec, opt_view, ref_path_spec, Layer};
use crate::text::{
    alphanumeric_spec, char_is_alphanumeric, chars_of, concat2, concat3, decimal_spec,
    str_eq, usize_to_string,
};

verus! {

/// The characters of each string of a list.
pub open spec fn strs(v: Seq<String>) -> Seq<Seq<char>> {
    v.map_values(|s: String| s@)
}

/// The context a command works in, given the result of loading it: a
/// project that is not initialized is an error, any other failure to load
/// falls back to the default context.
pub open spec fn resolved_context(loaded: Result<ContextView, JinError>) -> Result<
    ContextView,
    JinError,
> {
    match loaded {
        Ok(c) => Ok(c),
        Err(JinError::NotInitialized) => Err(JinError::NotInitialized),
        Err(_) => Ok(default_context_view()),
    }
}

/// A loaded context by its view.
pub open spec fn loaded_view(loaded: Result<ProjectContext, JinError>) -> Result<
    ContextView,
    JinError,
> {
    match loaded {
        Ok(c) => Ok(c@),
        Err(e) => Err(e),
    }
}

/// The context a command works in, given the result of loading it.
pub fn resolve_context(loaded: Result<ProjectContext, JinError>) -> (r: Result<
    ProjectContext,
    JinError,
>)
    ensures
        loaded_view(r) == resolved_context(loaded_view(loaded)),
{
    match loaded {
        Ok(c) => Ok(c),
        Err(JinError::NotInitialized) => Err(JinError::NotInitialized),
        Err(_) => Ok(ProjectContext::default()),
    }
}

/// The layer a user-facing layer name stands for.
pub open spec fn layer_named(name: Seq<char>) -> Option<Layer> {
    if name == "global-base"@ {
        Some(Layer::GlobalBase)
    } else if name == "mode-base"@ {
        Some(Layer::ModeBase)
    } else if name == "mode-scope"@ {
        Some(Layer::ModeScope)
    } else if name == "mode-scope-project"@ {
        Some(Layer::ModeScopeProject)
    } else if name == "mode-project"@ {
        Some(Layer::ModeProject)
    } else if name == "scope-base"@ {
        Some(Layer::ScopeBase)
    } else if name == "project-base"@ {
        Some(Layer::ProjectBase)
    } else if name == "user-local"@ {
        Some(Layer::UserLocal)
    } else if name == "workspace-active"@ {
        Some(Layer::WorkspaceActive)
    } else {
        None
    }
}

/// The message for a layer name that names no layer.
pub open spec fn unknown_layer_message(name: Seq<char>) -> Seq<char> {
    "Unknown layer: "@ + name + unknown_layer_tail()@
}

/// The list of valid layer names that ends the unknown-layer message.
pub open spec fn unknown_layer_tail() -> &'static str {
    ". Valid layers: global-base, mode-base, mode-scope, mode-scope-project, mode-project, scope-base, project-base, user-local, workspace-active"
}

/// Parses a user-facing layer name (`global-base`, `mode-base`, ...).
pub fn parse_layer_name(name: &str) -> (r: Result<Layer, JinError>)
    ensures
        r is Ok <==> layer_named(name@) is Some,
        r matches Ok(l) ==> layer_named(name@) == Some(l),
        r matches Err(e) ==> (e matches JinError::Other(m) && m@ == unknown_layer_message(
            name@,
        )),
{
    if str_eq(name, "global-base") {
        Ok(Layer::GlobalBase)
    } else if str_eq(name, "mode-base") {
        Ok(Layer::ModeBase)
    } else if str_eq(name, "mode-scope") {
        Ok(Layer::ModeScope)
    } else if str_eq(name, "mode-scope-project") {
        Ok(Layer::ModeScopeProject)
    } else if str_eq(name, "mode-project") {
        Ok(Layer::ModeProject)
    } else if str_eq(name, "scope-base") {
        Ok(Layer::ScopeBase)
    } else if str_eq(name, "project-base") {
        Ok(Layer::ProjectBase)
    } else if str_eq(name, "user-local") {
        Ok(Layer::UserLocal)
    } else if str_eq(name, "workspace-active") {
        Ok(Layer::WorkspaceActive)
    } else {
        Err(JinError::Other(concat3(
            "Unknown layer: ",
            name,
            ". Valid layers: global-base, mode-base, mode-scope, mode-scope-project, mode-project, scope-base, project-base, user-local, workspace-active",
        )))
    }
}

/// Reading a layer's display name back gives the layer, and a name that
/// reads as a layer is that layer's display name.
pub proof fn lemma_layer_name_roundtrip(l: Layer, name: Seq<char>)
    ensures
        layer_named(layer_display_spec(l)) == Some(l),
        layer_named(name) == Some(l) ==> name == layer_display_spec(l),
{
    reveal_strlit("global-base");
    reveal_strlit("mode-base");
    reveal_strlit("mode-scope");
    reveal_strlit("mode-scope-project");
    reveal_strlit("mode-project");
    reveal_strlit("scope-base");
    reveal_strlit("project-base");
    reveal_strlit("user-local");
    reveal_strlit("workspace-active");
    match l {
        Layer::GlobalBase => {
        },
        Layer::ModeBase => {
            assert("mode-base"@.len() == 9 && "global-base"@.len() == 11);
        },
        Layer::ModeScope => {
            assert("mode-scope"@.len() == 10 && "global-base"@.len() == 11);
            assert("mode-scope"@.len() == 10 && "mode-base"@.len() == 9);
        },
        Layer::ModeScopeProject => {
            assert("mode-scope-project"@.len() == 18 && "global-base"@.len() == 11);
            assert("mode-scope-project"@.len() == 18 && "mode-base"@.len() == 9);
            assert("mode-scope-project"@.len() == 18 && "mode-scope"@.len() == 10);
        },
        Layer::ModeProject => {
            assert("mode-project"@.len() == 12 && "global-base"@.len() == 11);
            assert("mode-project"@.len() == 12 && "mode-base"@.len() == 9);
            assert("mode-project"@.len() == 12 && "mode-scope"@.len() == 10);
            assert("mode-project"@.len() == 12 && "mode-scope-project"@.len() == 18);
        },
        Layer::ScopeBase => {
            assert("scope-base"@.len() == 10 && "global-base"@.len() == 11);
            assert("scope-base"@.len() == 10 && "mode-base"@.len() == 9);
            assert("scope-base"@[0] == 's' && "mode-scope"@[0] == 'm');
            assert("scope-base"@.len() == 10 && "mode-scope-project"@.len() == 18);
            assert("scope-base"@.len() == 10 && "mode-project"@.len() == 12);
        },
        Layer::ProjectBase => {
            assert("project-base"@.len() == 12 && "global-base"@.len() == 11);
            assert("project-base"@.len() == 12 && "mode-base"@.len() == 9);
            assert("project-base"@.len() == 12 && "mode-scope"@.len() == 10);
            assert("project-base"@.len() == 12 && "mode-scope-project"@.len() == 18);
            assert("project-base"@[0] == 'p' && "mode-project"@[0] == 'm');
            assert("project-base"@.len() == 12 && "scope-base"@.len() == 10);
        },
        Layer::UserLocal => {
            assert("user-local"@.len() == 10 && "global-base"@.len() == 11);
            assert("user-local"@.len() == 10 && "mode-base"@.len() == 9);
            assert("user-local"@[0] == 'u' && "mode-scope"@[0] == 'm');
            assert("user-local"@.len() == 10 && "mode-scope-project"@.len() == 18);
            assert("user-local"@.len() == 10 && "mode-project"@.len() == 12);
            assert("user-local"@[0] == 'u' && "scope-base"@[0] == 's');
            assert("user-local"@.len() == 10 && "project-base"@.len() == 12);
        },
        Layer::WorkspaceActive => {
            assert("workspace-active"@.len() == 16 && "global-base"@.len() == 11);
            assert("workspace-active"@.len() == 16 && "mode-base"@.len() == 9);
            assert("workspace-active"@.len() == 16 && "mode-scope"@.len() == 10);
            assert("workspace-active"@.len() == 16 && "mode-scope-project"@.len() == 18);
            assert("workspace-active"@.len() == 16 && "mode-project"@.len() == 12);
            assert("workspace-active"@.len() == 16 && "scope-base"@.len() == 10);
            assert("workspace-active"@.len() == 16 && "project-base"@.len() == 12);
            assert("workspace-active"@.len() == 16 && "user-local"@.len() == 10);
        },
    }
}

/// The message of a batch in which nothing succeeded.
pub open spec fn batch_failure_reason(failed: nat, verb: Seq<char>) -> Seq<char> {
    decimal_spec(failed) + " files failed to "@ + verb
}

/// The end of a command that handles files one by one: it fails only
/// when some file failed and none succeeded.
pub fn batch_outcome(done: usize, failed: usize, verb: &str) -> (r: Result<(), JinError>)
    ensures
        r is Err <==> failed > 0 && done == 0,
        r matches Err(e) ==> (e matches JinError::StagingFailed { path, reason } && path@
            == "multiple files"@ && reason@ == batch_failure_reason(failed as nat, verb@)),
{
    if failed > 0 && done == 0 {
        let n = usize_to_string(failed);
        return Err(JinError::StagingFailed {
            path: "multiple files".to_owned(),
            reason: concat3(n.as_str(), " files failed to ", verb),
        });
    }
    Ok(())
}

/// A character allowed in a mode name, or with `colon` in a scope name.
pub open spec fn name_char_ok(c: char, colon: bool) -> bool {
    alphanumeric_spec(c) || c == '_' || (colon && c == ':')
}

/// Every character of a name is allowed.
pub open spec fn name_chars_ok(name: Seq<char>, colon: bool) -> bool {
    forall|i: int| 0 <= i < name.len() ==> name_char_ok(#[trigger] name[i], colon)
}

/// The names that no mode or scope may take.
pub open spec fn is_reserved_name(name: Seq<char>) -> bool {
    name == "default"@ || name == "global"@ || name == "base"@
}

/// Whether every character of a name is allowed.
pub fn check_name_chars(name: &str, colon: bool) -> (r: bool)
    ensures
        r == name_chars_ok(name@, colon),
{
    let cs = chars_of(name);
    let mut i: usize = 0;
    while i < cs.len()
        invariant
            cs@ == name@,
            i <= cs@.len(),
            forall|j: int| 0 <= j < i ==> name_char_ok(#[trigger] name@[j], colon),
        decreases cs@.len() - i,
    {
        let c = cs[i];
        let ok = char_is_alphanumeric(c) || c == '_' || (colon && c == ':');
        if !ok {
            assert(!name_char_ok(name@[i as int], colon));
            return false;
        }
        i = i + 1;
    }
    true
}

/// Whether a name is reserved.
pub fn check_reserved(name: &str) -> (r: bool)
    ensures
        r == is_reserved_name(name@),
{
    str_eq(name, "default") || str_eq(name, "global") || str_eq(name, "base")
}

/// What the executable read of a file a command handles.
#[derive(Debug)]
pub struct FileFacts {
    /// Whether the path exists.
    pub exists: bool,
    /// Whether the path is a directory.
    pub is_dir: bool,
    /// Whether the path is a symbolic link, or the error of finding out.
    pub is_symlink: Result<bool, JinError>,
    /// Whether the project's Git tracks the file, or the error of finding
    /// out.
    pub git_tracked: Result<bool, JinError>,
    /// Whether the file differs from Git's HEAD, or the error of finding
    /// out.
    pub git_modified: Result<bool, JinError>,
}

/// The message for a path that is a directory where a file is expected.
pub open spec fn directory_message(path: Seq<char>) -> Seq<char> {
    path + " is a directory, not a file"@
}

/// A ref to create, pointing at a new commit with an empty tree.
#[derive(Debug)]
pub struct RefCreation {
    /// Full path of the ref.
    pub ref_path: String,
    /// Message of the commit the ref points at.
    pub commit_message: String,
    /// Message written to the reflog.
    pub reflog_message: String,
}

/// What a command asks the executable to do, in order: save the context,
/// fail with `failure` if it is set, create a ref, delete refs (failing on
/// error), sweep ref patterns (ignoring errors), clear the workspace
/// metadata, then print the lines.
#[derive(Debug)]
pub struct CommandEffects {
    /// Lines printed to standard output.
    pub lines: Vec<String>,
    /// The context to save, if it changed.
    pub save_context: Option<ProjectContext>,
    /// The ref to create, if any.
    pub create_ref: Option<RefCreation>,
    /// Refs to delete; a failure is the command's error.
    pub delete_refs: Vec<String>,
    /// Ref names and patterns to delete where they exist.
    pub sweep_refs: Vec<String>,
    /// Whether to remove the workspace metadata file.
    pub clear_metadata: bool,
    /// The error the command ends with once the context is saved.
    pub failure: Option<JinError>,
}

/// A ref creation by its strings.
pub open spec fn creation_view(c: Option<RefCreation>) -> Option<(Seq<char>, Seq<char>, Seq<char>)> {
    match c {
        Some(rc) => Some((rc.ref_path@, rc.commit_message@, rc.reflog_message@)),
        None => None,
    }
}

/// A saved context by its view.
pub open spec fn save_view(c: Option<ProjectContext>) -> Option<ContextView> {
    match c {
        Some(ctx) => Some(ctx@),
        None => None,
    }
}

impl CommandEffects {
    /// Effects that only print.
    pub fn print(lines: Vec<String>) -> (r: Self)
        ensures
            r.lines@ == lines@,
            r.save_context is None,
            r.create_ref is None,
            r.delete_refs@.len() == 0,
            r.sweep_refs@.len() == 0,
            !r.clear_metadata,
            r.failure is None,
    {
        CommandEffects {
            lines,
            save_context: None,
            create_ref: None,
            delete_refs: Vec::new(),
            sweep_refs: Vec::new(),
            clear_metadata: false,
            failure: None,
        }
    }
}

/// A one-line list.
pub fn one_line(s: String) -> (r: Vec<String>)
    ensures
        strs(r@) == seq![s@],
{
    let mut v = Vec::new();
    v.push(s);
    assert(strs(v@) =~= seq![s@]);
    v
}

/// A two-line list.
pub fn two_lines(a: String, b: String) -> (r: Vec<String>)
    ensures
        strs(r@) == seq![a@, b@],
{
    let mut v = Vec::new();
    v.push(a);
    v.push(b);
    assert(strs(v@) =~= seq![a@, b@]);
    v
}

/// The ref path of a layer in a context.
pub fn context_ref_path(layer: Layer, context: &ProjectContext) -> (r: String)
    ensures
        r@ == ref_path_spec(layer, context@.mode, context@.scope, context@.project),
{
    let m = opt_as_str(&context.mode);
    let s = opt_as_str(&context.scope);
    let p = opt_as_str(&context.project);
    assert(opt_view(m) == context@.mode);
    assert(opt_view(s) == context@.scope);
    assert(opt_view(p) == context@.project);
    layer.ref_path(m, s, p)
}

/// Whether an optional string holds exactly `name`.
pub fn opt_is(o: &Option<String>, name: &str) -> (r: bool)
    ensures
        r == (o matches Some(s) && s@ == name@),
{
    match o {
        Some(s) => str_eq(s.as_str(), name),
        None => false,
    }
}

} // verus!
