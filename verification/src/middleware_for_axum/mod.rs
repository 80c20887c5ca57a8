//! The stages as they stand around a router whose handlers cannot fail.

pub mod auth;
pub mod cache;
pub mod timeout;
pub mod tracing;
