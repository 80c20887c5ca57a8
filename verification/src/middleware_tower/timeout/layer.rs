//! The layer that puts the timeout stage around a service.

use crate::middleware_tower::timeout::service::TimeoutService;
use std::time::Duration;
use vstd::prelude::*;

verus! {

/// Wraps a service in a [`TimeoutService`] with a fixed time limit.
#[derive(Debug, Clone, Copy)]
pub struct TimeoutLayer {
    pub timeout: Duration,
}

impl TimeoutLayer {
    /// A layer whose services give each request `timeout` to be answered.
    pub fn new(timeout: Duration) -> (layer: Self)
        ensures
            layer.timeout == timeout,
    {
        TimeoutLayer { timeout }
    }

    /// The timeout stage around `inner`, with this layer's time limit.
    pub fn layer<S>(&self, inner: S) -> (service: TimeoutService<S>)
        ensures
            service.inner == inner,
            service.timeout == self.timeout,
    {
        TimeoutService { inner, timeout: self.timeout }
    }
}

} // verus!
