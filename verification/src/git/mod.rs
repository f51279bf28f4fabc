//! Git-facing logic of Jin: object ids, merge classification, entry modes,
//! remote authentication counting and layer transactions.

pub mod merge;
pub mod objects;
pub mod oid;
pub mod remote;
pub mod transaction;

pub use merge::{detect_merge_type, MergeType};
pub use objects::EntryMode;
pub use remote::AuthCounter;
pub use transaction::{
    IncompleteTransaction, LayerTransaction, LayerUpdate, RecoveryManager, TransactionLog,
    TransactionState,
};
