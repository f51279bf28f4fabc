//! The decisions of each command: what it validates, which layer it
//! targets, what it changes and what it reports.
//!
//! Each command's reading of disk, Git and terminal happens in the
//! executable; the functions here take what was read and return what is
//! to be written and printed.

pub mod add;
pub mod apply;
pub mod commit_cmd;
pub mod common;
pub mod diff;
pub mod export;
pub mod fetch;
pub mod import;
pub mod import_cmd;
pub mod init;
pub mod layers;
pub mod link;
pub mod list;
pub mod log;
pub mod config;
pub mod context;
pub mod mode;
pub mod repair;
pub mod push;
pub mod reset;
pub mod resolve;
pub mod mv;
pub mod pull;
pub mod rm;
pub mod scope;
pub mod status;

pub use common::{parse_layer_name, resolve_context, CommandEffects, RefCreation};
