//! Core types: layers, configuration, errors and the layer-to-file map.

pub mod config;
pub mod error;
pub mod jinmap;
pub mod layer;

pub use config::{JinConfig, ProjectContext, RemoteConfig, UserConfig};
pub use error::JinError;
pub use layer::Layer;
