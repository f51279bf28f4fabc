//! Jin: a phantom Git layer system for developer configuration.
//!
//! The library holds the layer hierarchy, its ref-path grammar, the
//! routing rules that pick a layer for a command, the staging model, the
//! two-phase transaction log and the decisions of each command.

pub mod audit;
pub mod cli;
pub mod clock;
pub mod commands;
pub mod commit;
pub mod git;
pub mod model;
pub mod order;
pub mod staging;
pub mod text;

