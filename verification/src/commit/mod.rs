//! Committing staged files: the checks before a commit, the plan of the
//! per-layer commits, and the audit trail.

pub mod audit;
pub mod pipeline;
pub mod validate;

pub use pipeline::{CommitConfig, CommitPipeline, CommitResult};
