//! Configuration types: the global configuration and the per-project
//! context.

use vstd::prelude::*;
use vstd::string::*;
use crate::model::error::JinError;
use crate::model::layer::opt_sview;

verus! {

/// The schema version written into new files.
pub fn default_version() -> (r: u32)
    ensures
        r == 1,
{
    1
}

/// Global Jin configuration (stored at ~/.jin/config.toml).
#[derive(Debug)]
pub struct JinConfig {
    /// Version of the config schema.
    pub version: u32,
    /// Remote repository for sync.
    pub remote: Option<RemoteConfig>,
    /// User information.
    pub user: Option<UserConfig>,
}

/// Remote repository configuration.
#[derive(Debug)]
pub struct RemoteConfig {
    /// URL of the remote Jin repository.
    pub url: String,
    /// Whether to fetch on init.
    pub fetch_on_init: bool,
}

/// User configuration.
#[derive(Debug)]
pub struct UserConfig {
    /// User's name.
    pub name: Option<String>,
    /// User's email.
    pub email: Option<String>,
}

/// The contents of the global configuration: the version, the remote as
/// its URL and fetch flag, the user as name and email.
pub struct ConfigView {
    pub version: u32,
    pub remote: Option<(Seq<char>, bool)>,
    pub user: Option<(Option<Seq<char>>, Option<Seq<char>>)>,
}

impl View for JinConfig {
    type V = ConfigView;

    open spec fn view(&self) -> ConfigView {
        ConfigView {
            version: self.version,
            remote: match self.remote {
                Some(r) => Some((r.url@, r.fetch_on_init)),
                None => None,
            },
            user: match self.user {
                Some(u) => Some((opt_sview(u.name), opt_sview(u.email))),
                None => None,
            },
        }
    }
}

impl Default for JinConfig {
    fn default() -> (r: Self)
        ensures
            r.version == 0,
            r.remote is None,
            r.user is None,
    {
        JinConfig { version: 0, remote: None, user: None }
    }
}

/// Per-project context (stored at .jin/context).
#[derive(Debug)]
pub struct ProjectContext {
    /// Version of the context schema.
    pub version: u32,
    /// Currently active mode.
    pub mode: Option<String>,
    /// Currently active scope.
    pub scope: Option<String>,
    /// Project name.
    pub project: Option<String>,
    /// Last update timestamp.
    pub last_updated: Option<String>,
}

/// The contents of a project context, each string by its characters.
pub struct ContextView {
    pub version: u32,
    pub mode: Option<Seq<char>>,
    pub scope: Option<Seq<char>>,
    pub project: Option<Seq<char>>,
    pub last_updated: Option<Seq<char>>,
}

impl View for ProjectContext {
    type V = ContextView;

    open spec fn view(&self) -> ContextView {
        ContextView {
            version: self.version,
            mode: opt_sview(self.mode),
            scope: opt_sview(self.scope),
            project: opt_sview(self.project),
            last_updated: opt_sview(self.last_updated),
        }
    }
}

/// A context with another active mode.
pub open spec fn with_mode(c: ContextView, m: Option<Seq<char>>) -> ContextView {
    ContextView {
        version: c.version,
        mode: m,
        scope: c.scope,
        project: c.project,
        last_updated: c.last_updated,
    }
}

/// A context with another active scope.
pub open spec fn with_scope(c: ContextView, s: Option<Seq<char>>) -> ContextView {
    ContextView {
        version: c.version,
        mode: c.mode,
        scope: s,
        project: c.project,
        last_updated: c.last_updated,
    }
}

/// The context of a project that has none saved yet.
pub open spec fn default_context_view() -> ContextView {
    ContextView { version: 0, mode: None, scope: None, project: None, last_updated: None }
}

impl Default for ProjectContext {
    fn default() -> (r: Self)
        ensures
            r.version == 0,
            r.mode is None,
            r.scope is None,
            r.project is None,
            r.last_updated is None,
    {
        ProjectContext { version: 0, mode: None, scope: None, project: None, last_updated: None }
    }
}

/// A copy of an optional string.
pub fn clone_opt(o: &Option<String>) -> (r: Option<String>)
    ensures
        r == *o,
{
    match o {
        Some(s) => Some(s.clone()),
        None => None,
    }
}

/// An optional string as an optional slice.
pub fn opt_as_str(o: &Option<String>) -> (r: Option<&str>)
    ensures
        r is Some <==> o is Some,
        r matches Some(s) ==> s@ == o->Some_0@,
{
    match o {
        Some(s) => Some(s.as_str()),
        None => None,
    }
}

impl ProjectContext {
    /// A copy of this context.
    pub fn duplicate(&self) -> (r: ProjectContext)
        ensures
            r == *self,
    {
        ProjectContext {
            version: self.version,
            mode: clone_opt(&self.mode),
            scope: clone_opt(&self.scope),
            project: clone_opt(&self.project),
            last_updated: clone_opt(&self.last_updated),
        }
    }

    /// Returns the context path (.jin/context).
    pub fn default_path() -> (r: String)
        ensures
            r@ == ".jin/context"@,
    {
        ".jin/context".to_owned()
    }

    /// Gets the active mode, or `NoActiveContext` naming "mode".
    pub fn require_mode(&self) -> (r: Result<&str, JinError>)
        ensures
            self.mode is Some ==> (r matches Ok(m) && m@ == self.mode->Some_0@),
            self.mode is None ==> (r matches Err(JinError::NoActiveContext { context_type })
                && context_type@ == "mode"@),
    {
        match &self.mode {
            Some(m) => Ok(m.as_str()),
            None => Err(JinError::NoActiveContext { context_type: "mode".to_owned() }),
        }
    }

    /// Gets the active scope, or `NoActiveContext` naming "scope".
    pub fn require_scope(&self) -> (r: Result<&str, JinError>)
        ensures
            self.scope is Some ==> (r matches Ok(s) && s@ == self.scope->Some_0@),
            self.scope is None ==> (r matches Err(JinError::NoActiveContext { context_type })
                && context_type@ == "scope"@),
    {
        match &self.scope {
            Some(s) => Ok(s.as_str()),
            None => Err(JinError::NoActiveContext { context_type: "scope".to_owned() }),
        }
    }
}

} // verus!
