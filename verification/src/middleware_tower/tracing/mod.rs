//! Tracing: every request runs under a trace that carries its method and
//! URI and that ends, as succeeded or failed, when the request is answered.

pub mod body;
pub mod future;
pub mod layer;
pub mod service;

pub use body::create_error_response;
pub use body::TracingResponseBody;
pub use future::TracingResponseFuture;
pub use layer::TracingLayer;
pub use service::TracingService;
