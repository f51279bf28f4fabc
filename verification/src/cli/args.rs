//! Argument types of the commands.

use vstd::prelude::*;

verus! {

/// Arguments of `jin add`.
#[derive(Debug)]
pub struct AddArgs {
    /// Files to stage.
    pub files: Vec<String>,
    /// Target the active mode.
    pub mode: bool,
    /// Target a scope.
    pub scope: Option<String>,
    /// Target the project (with `--mode`).
    pub project: bool,
    /// Target the global layer.
    pub global: bool,
    /// Target the user-local layer.
    pub local: bool,
}

/// Arguments of `jin commit`.
#[derive(Debug)]
pub struct CommitArgs {
    /// Commit message.
    pub message: String,
    /// Show what would be committed without committing.
    pub dry_run: bool,
}

/// Arguments of `jin apply`.
#[derive(Debug)]
pub struct ApplyArgs {
    /// Apply even when the workspace has changes.
    pub force: bool,
    /// Show what would be applied.
    pub dry_run: bool,
}

/// Arguments of `jin reset`.
#[derive(Debug)]
pub struct ResetArgs {
    /// Keep changes in staging.
    pub soft: bool,
    /// Unstage but keep in the workspace (the default).
    pub mixed: bool,
    /// Discard changes from staging and workspace.
    pub hard: bool,
    /// Reset the mode layer.
    pub mode: bool,
    /// Reset a scope layer.
    pub scope: Option<String>,
    /// Reset the project layer.
    pub project: bool,
    /// Reset the global layer.
    pub global: bool,
    /// Skip confirmation.
    pub force: bool,
}

/// Arguments of `jin rm`.
#[derive(Debug)]
pub struct RmArgs {
    /// Files to remove.
    pub files: Vec<String>,
    /// Target the active mode.
    pub mode: bool,
    /// Target a scope.
    pub scope: Option<String>,
    /// Target the project (with `--mode`).
    pub project: bool,
    /// Target the global layer.
    pub global: bool,
    /// Target the user-local layer.
    pub local: bool,
    /// Also remove the files from the workspace.
    pub force: bool,
    /// Show what would be removed.
    pub dry_run: bool,
}

/// Arguments of `jin mv`.
#[derive(Debug)]
pub struct MvArgs {
    /// Source/destination pairs.
    pub files: Vec<String>,
    /// Target the active mode.
    pub mode: bool,
    /// Target a scope.
    pub scope: Option<String>,
    /// Target the project (with `--mode`).
    pub project: bool,
    /// Target the global layer.
    pub global: bool,
    /// Target the user-local layer.
    pub local: bool,
    /// Also move the files in the workspace.
    pub force: bool,
    /// Show what would be moved.
    pub dry_run: bool,
}

/// Arguments of `jin diff`.
#[derive(Debug)]
pub struct DiffArgs {
    /// First layer to compare.
    pub layer1: Option<String>,
    /// Second layer to compare.
    pub layer2: Option<String>,
    /// Show staged changes.
    pub staged: bool,
}

/// Arguments of `jin log`.
#[derive(Debug)]
pub struct LogArgs {
    /// Layer whose history is shown.
    pub layer: Option<String>,
    /// Number of commits shown per layer.
    pub count: usize,
}

/// Arguments of `jin import`.
#[derive(Debug)]
pub struct ImportArgs {
    /// Files to import.
    pub files: Vec<String>,
    /// Import files with uncommitted Git changes.
    pub force: bool,
    /// Target the active mode.
    pub mode: bool,
    /// Target a scope.
    pub scope: Option<String>,
    /// Target the project (with `--mode`).
    pub project: bool,
    /// Target the global layer.
    pub global: bool,
    /// Target the user-local layer.
    pub local: bool,
}

/// Arguments of `jin export`.
#[derive(Debug)]
pub struct ExportArgs {
    /// Files to export.
    pub files: Vec<String>,
}

/// Arguments of `jin repair`.
#[derive(Debug)]
pub struct RepairArgs {
    /// Show what would be repaired.
    pub dry_run: bool,
    /// Only check, report issues without repairing.
    pub check: bool,
}

/// Arguments of `jin link`.
#[derive(Debug)]
pub struct LinkArgs {
    /// Remote repository URL.
    pub url: String,
    /// Replace an existing remote.
    pub force: bool,
}

/// Arguments of `jin push`.
#[derive(Debug)]
pub struct PushArgs {
    /// Push even when the remote is ahead.
    pub force: bool,
}

/// Arguments of `jin resolve`.
#[derive(Debug)]
pub struct ResolveArgs {
    /// Files to mark as resolved.
    pub files: Vec<String>,
    /// Resolve every conflicted file.
    pub all: bool,
    /// Skip validation.
    pub force: bool,
    /// Show what would be resolved.
    pub dry_run: bool,
}

/// Subcommands of `jin mode`.
#[derive(Debug)]
pub enum ModeAction {
    /// Create a new mode.
    Create { name: String },
    /// Activate a mode.
    Use { name: String },
    /// List available modes.
    List,
    /// Delete a mode.
    Delete { name: String },
    /// Show the active mode.
    Show,
    /// Deactivate the active mode.
    Unset,
}

/// Subcommands of `jin scope`.
#[derive(Debug)]
pub enum ScopeAction {
    /// Create a new scope, optionally bound to a mode.
    Create { name: String, mode: Option<String> },
    /// Activate a scope.
    Use { name: String },
    /// List available scopes.
    List,
    /// Delete a scope.
    Delete { name: String },
    /// Show the active scope.
    Show,
    /// Deactivate the active scope.
    Unset,
}

/// Subcommands of `jin config`.
#[derive(Debug)]
pub enum ConfigAction {
    /// List all configuration values.
    List,
    /// Show one configuration value.
    Get { key: String },
    /// Set one configuration value.
    SetValue { key: String, value: String },
}

} // verus!
