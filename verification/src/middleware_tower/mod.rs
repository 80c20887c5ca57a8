//! The stages, each as a layer, a service, the future that a call of the
//! service returns, and the body of the response that the future resolves to.

pub mod auth;
pub mod cache;
pub mod metrics;
pub mod timeout;
pub mod tracing;
