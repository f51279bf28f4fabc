//! The staging model: staged entries, the staging index and the routing
//! of a command's flags to a target layer.

pub mod index;
pub mod routing;

pub use index::{StagedEntry, StagedOperation, StagingIndex};
pub use routing::{route_to_layer, validate_routing_options, RoutingOptions};
