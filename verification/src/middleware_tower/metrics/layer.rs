//! The layer that puts the metrics stage around a service.

use crate::middleware_tower::metrics::service::MetricsService;
use vstd::prelude::*;

verus! {

/// Wraps a service in a [`MetricsService`].
#[derive(Clone, Copy, Debug)]
pub struct MetricsLayer;

impl MetricsLayer {
    pub fn new() -> Self {
        MetricsLayer
    }

    /// The metrics stage around `inner`.
    pub fn layer<S>(&self, inner: S) -> (service: MetricsService<S>)
        ensures
            service.inner == inner,
    {
        MetricsService::new(inner)
    }
}

} // verus!
