//! Tracing of requests.

pub use crate::middleware_for_axum::tracing::TraceContext;
pub use crate::middleware_for_axum::tracing::TracingLayer;
pub use crate::middleware_for_axum::tracing::TracingMiddleware;
