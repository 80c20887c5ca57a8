//! The layer that puts the tracing stage around a service.

use crate::middleware_tower::tracing::service::TracingService;
use vstd::prelude::*;

verus! {

/// Wraps a service in a [`TracingService`].
#[derive(Clone, Copy, Debug)]
pub struct TracingLayer;

impl TracingLayer {
    pub fn new() -> Self {
        TracingLayer
    }

    /// The tracing stage around `inner`.
    pub fn layer<S>(&self, inner: S) -> (service: TracingService<S>)
        ensures
            service.inner == inner,
    {
        TracingService { inner }
    }
}

} // verus!
