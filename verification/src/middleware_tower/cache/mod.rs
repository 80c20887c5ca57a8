//! Cache: the place in the pipeline where a cache would answer. It holds no
//! cache yet, so every request goes on and every response comes back as it
//! is.

pub mod body;
pub mod future;
pub mod layer;
pub mod service;

pub use body::CacheResponseBody;
pub use future::CacheResponseFuture;
pub use layer::CacheLayer;
pub use service::CacheService;
