//! The place of a cache in the pipeline.

pub use crate::middleware::cache::CacheLayer;
pub use crate::middleware::cache::CacheMiddleware;
