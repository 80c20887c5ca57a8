//! The metrics service.

use crate::message::Request;
use crate::middleware_tower::metrics::future::MetricsResponseFuture;
use crate::middleware_tower::metrics::layer::MetricsLayer;
use crate::task::Poll;
use crate::time::instant_now;
use vstd::prelude::*;

verus! {

/// Counts and times the requests that go through to `inner`.
#[derive(Clone, Copy, Debug)]
pub struct MetricsService<S> {
    pub inner: S,
}

impl<S> MetricsService<S> {
    pub fn new(inner: S) -> (service: Self)
        ensures
            service.inner == inner,
    {
        MetricsService { inner }
    }

    /// The service that this one wraps.
    pub fn get_ref(&self) -> (inner: &S)
        ensures
            *inner == self.inner,
    {
        &self.inner
    }

    /// The service that this one wraps, to be changed in place.
    pub fn get_mut(&mut self) -> (inner: &mut S)
        ensures
            *inner == old(self).inner,
            final(self).inner == *final(inner),
    {
        &mut self.inner
    }

    /// Gives up the stage and returns the service that it wrapped.
    pub fn into_inner(self) -> (inner: S)
        ensures
            inner == self.inner,
    {
        self.inner
    }

    /// The layer that wraps services in this stage.
    pub fn layer() -> MetricsLayer {
        MetricsLayer::new()
    }

    /// Whether the stage can take a request: exactly what the wrapped service
    /// says of itself, asked once through `ready`.
    pub fn poll_ready<E, P>(&mut self, ready: P) -> (polled: Poll<Result<(), E>>) where
        P: FnOnce(&mut S) -> Poll<Result<(), E>>,

        requires
            forall|inner: &mut S| *inner == old(self).inner ==> call_requires(ready, (inner,)),
        ensures
            exists|inner: &mut S|
                {
                    &&& *inner == old(self).inner
                    &&& *final(inner) == final(self).inner
                    &&& #[trigger] call_ensures(ready, (inner,), polled)
                },
    {
        ready(&mut self.inner)
    }

    /// Handles one request: the clock is read, the method of the request is
    /// kept, and the wrapped service is called exactly once through `invoke`,
    /// with the request as it came. The future returned holds the future that
    /// this call gave, under the method of the request.
    pub fn call<B, F, C>(&mut self, req: Request<B>, invoke: C) -> (future: MetricsResponseFuture<
        F,
    >) where C: FnOnce(&mut S, Request<B>) -> F
        requires
            forall|inner: &mut S| *inner == old(self).inner ==> call_requires(invoke, (inner, req)),
        ensures
            future.method@ == req.method@,
            exists|inner: &mut S, given: F|
                {
                    &&& *inner == old(self).inner
                    &&& *final(inner) == final(self).inner
                    &&& future.inner == given
                    &&& #[trigger] call_ensures(invoke, (inner, req), given)
                },
    {
        let start = instant_now();
        let method = req.method.clone();
        let fut = invoke(&mut self.inner, req);
        MetricsResponseFuture::new(fut, method, start)
    }
}

} // verus!
