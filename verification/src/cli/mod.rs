//! Command-line argument types of each command, as plain data.
//!
//! The parser that fills them lives with the executable; the library's
//! command logic takes these values.

pub mod args;

pub use args::{
    AddArgs, ApplyArgs, CommitArgs, ConfigAction, DiffArgs, ExportArgs, ImportArgs, LinkArgs,
    LogArgs, ModeAction, MvArgs, PushArgs, RepairArgs, ResetArgs, ResolveArgs, RmArgs,
    ScopeAction,
};
