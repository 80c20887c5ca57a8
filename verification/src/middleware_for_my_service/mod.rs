//! The stages as they stand around a single handler.

pub mod log;
pub mod metrics;
pub mod tracing;
