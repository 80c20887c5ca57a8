//! Timeout: a request that the stage below does not answer in time is
//! answered with 408.

pub mod body;
pub mod future;
pub mod layer;
pub mod service;

pub use body::create_request_timeout_response;
pub use body::TimeoutResponseBody;
pub use future::TimeoutResponseFuture;
pub use layer::TimeoutLayer;
pub use service::TimeoutService;
