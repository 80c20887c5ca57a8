//! The layer that puts the cache stage around a service.

use crate::middleware_tower::cache::service::CacheService;
use vstd::prelude::*;

verus! {

/// Wraps a service in a [`CacheService`].
#[derive(Debug, Clone, Copy)]
pub struct CacheLayer;

impl CacheLayer {
    pub fn new() -> Self {
        CacheLayer
    }

    /// The cache stage around `inner`.
    pub fn layer<S>(&self, inner: S) -> (service: CacheService<S>)
        ensures
            service.inner == inner,
    {
        CacheService { inner }
    }
}

} // verus!
