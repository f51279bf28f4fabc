//! The error type of the library.

use vstd::prelude::*;
use vstd::string::*;
use crate::text::{concat2, concat3, concat4};

verus! {

/// Unified error type for Jin operations. Errors that come from the file
/// system or from Git carry their message as text.
#[derive(Debug)]
pub enum JinError {
    /// IO and filesystem errors.
    Io(String),
    /// Git operations.
    Git(String),
    /// Configuration errors.
    Config(String),
    /// Parse errors (JSON, YAML, TOML, INI).
    Parse { format: String, message: String },
    /// Merge conflicts.
    MergeConflict { path: String },
    /// Push rejected: the local layer is behind the remote.
    BehindRemote { layer: String },
    /// The workspace matches no valid layer configuration.
    DetachedWorkspace {
        workspace_commit: Option<String>,
        expected_layer_ref: String,
        details: String,
        recovery_hint: String,
    },
    /// Transaction failures.
    Transaction(String),
    /// Layer routing errors.
    InvalidLayer(String),
    /// Context errors.
    NoActiveContext { context_type: String },
    /// File not found.
    NotFound(String),
    /// Already exists.
    AlreadyExists(String),
    /// File is tracked by Git.
    GitTracked { path: String },
    /// Path is a symlink.
    Symlink { path: String },
    /// Staging operation failed.
    StagingFailed { path: String, reason: String },
    /// Not initialized.
    NotInitialized,
    /// General errors.
    Other(String),
}

/// The message that an error shows to the user.
pub open spec fn error_message_spec(e: JinError) -> Seq<char> {
    match e {
        JinError::Io(m) => "IO error: "@ + m@,
        JinError::Git(m) => "Git error: "@ + m@,
        JinError::Config(m) => "Configuration error: "@ + m@,
        JinError::Parse { format, message } => "Parse error in "@ + format@ + ": "@ + message@,
        JinError::MergeConflict { path } => "Merge conflict in "@ + path@,
        JinError::BehindRemote { layer } => "Push rejected: local layer '"@ + layer@ + behind_remote_tail()@,
        JinError::DetachedWorkspace { details, recovery_hint, .. } => "Workspace is in a detached state.\n"@
            + details@ + "\n\nRecovery: "@ + recovery_hint@,
        JinError::Transaction(m) => "Transaction failed: "@ + m@,
        JinError::InvalidLayer(m) => "Invalid layer: "@ + m@,
        JinError::NoActiveContext { context_type } => "No active "@ + context_type@,
        JinError::NotFound(m) => "File not found: "@ + m@,
        JinError::AlreadyExists(m) => "Already exists: "@ + m@,
        JinError::GitTracked { path } => "File is tracked by Git: "@ + path@
            + ". Use `jin import` instead."@,
        JinError::Symlink { path } => "Symlinks are not supported: "@ + path@,
        JinError::StagingFailed { path, reason } => "Staging failed for "@ + path@ + ": "@ + reason@,
        JinError::NotInitialized => "Jin not initialized in this project"@,
        JinError::Other(m) => m@,
    }
}

/// The end of the message of a rejected push.
pub open spec fn behind_remote_tail() -> &'static str {
    "' is behind remote.\nThe remote contains commits you don't have locally.\nRun 'jin pull' to merge remote changes, or use '--force' to overwrite.\nWARNING: --force may cause data loss!"
}

impl JinError {
    /// The message shown to the user for this error.
    pub fn to_string(&self) -> (r: String)
        ensures
            r@ == error_message_spec(*self),
    {
        match self {
            JinError::Io(m) => concat2("IO error: ", m.as_str()),
            JinError::Git(m) => concat2("Git error: ", m.as_str()),
            JinError::Config(m) => concat2("Configuration error: ", m.as_str()),
            JinError::Parse { format, message } => concat4(
                "Parse error in ",
                format.as_str(),
                ": ",
                message.as_str(),
            ),
            JinError::MergeConflict { path } => concat2("Merge conflict in ", path.as_str()),
            JinError::BehindRemote { layer } => concat3(
                "Push rejected: local layer '",
                layer.as_str(),
                "' is behind remote.\nThe remote contains commits you don't have locally.\nRun 'jin pull' to merge remote changes, or use '--force' to overwrite.\nWARNING: --force may cause data loss!",
            ),
            JinError::DetachedWorkspace { details, recovery_hint, .. } => concat4(
                "Workspace is in a detached state.\n",
                details.as_str(),
                "\n\nRecovery: ",
                recovery_hint.as_str(),
            ),
            JinError::Transaction(m) => concat2("Transaction failed: ", m.as_str()),
            JinError::InvalidLayer(m) => concat2("Invalid layer: ", m.as_str()),
            JinError::NoActiveContext { context_type } => concat2(
                "No active ",
                context_type.as_str(),
            ),
            JinError::NotFound(m) => concat2("File not found: ", m.as_str()),
            JinError::AlreadyExists(m) => concat2("Already exists: ", m.as_str()),
            JinError::GitTracked { path } => concat3(
                "File is tracked by Git: ",
                path.as_str(),
                ". Use `jin import` instead.",
            ),
            JinError::Symlink { path } => concat2("Symlinks are not supported: ", path.as_str()),
            JinError::StagingFailed { path, reason } => concat4(
                "Staging failed for ",
                path.as_str(),
                ": ",
                reason.as_str(),
            ),
            JinError::NotInitialized => "Jin not initialized in this project".to_owned(),
            JinError::Other(m) => m.clone(),
        }
    }
}

} // verus!
