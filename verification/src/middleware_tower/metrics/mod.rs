//! Metrics: every request is counted under its method, and the time it took
//! is reported.

pub mod body;
pub mod future;
pub mod layer;
pub mod service;

pub use body::MetricsResponseBody;
pub use future::MetricsResponseFuture;
pub use layer::MetricsLayer;
pub use service::MetricsService;
