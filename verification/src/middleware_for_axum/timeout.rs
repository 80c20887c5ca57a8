//! The time limit of the pipeline.

pub use crate::middleware::timeout::timeout_layer;
pub use crate::middleware::timeout::TIMEOUT_SECS;
