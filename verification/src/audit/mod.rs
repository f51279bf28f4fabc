//! The audit log of Jin operations, kept as JSON lines under `.jin/audit/`.

pub mod entry;
pub mod logger;

pub use entry::{AuditContext, AuditEntry};
pub use logger::AuditLogger;
