//! Counting and timing of requests.

use crate::message::Request;
use crate::middleware::metrics::Stopwatch;
use crate::task::Poll;
use crate::telemetry::RequestCount;
use crate::time::instant_now;
use vstd::prelude::*;

verus! {

/// Wraps a service in a [`MetricsMiddleware`].
#[derive(Clone)]
pub struct MetricsLayer;

impl MetricsLayer {
    /// The metrics stage around `inner`.
    pub fn layer<S>(&self, inner: S) -> (service: MetricsMiddleware<S>)
        ensures
            service.inner == inner,
    {
        MetricsMiddleware::new(inner)
    }
}

/// Counts and times the requests that go through to `inner`.
#[derive(Clone)]
pub struct MetricsMiddleware<S> {
    pub inner: S,
}

impl<S> MetricsMiddleware<S> {
    pub fn new(inner: S) -> (service: Self)
        ensures
            service.inner == inner,
    {
        MetricsMiddleware { inner }
    }

    /// Whether the stage can take a request: exactly what the wrapped service
    /// says of itself, asked once through `ready`.
    pub fn poll_ready<E, P>(&mut self, ready: P) -> (polled: Poll<Result<(), E>>) where
        P: FnOnce(&mut S) -> Poll<Result<(), E>>,

        requires
            forall|inner: &mut S| *inner == old(self).inner ==> call_requires(ready, (inner,)),
        ensures
            exists|inner: &mut S|
                {
                    &&& *inner == old(self).inner
                    &&& *final(inner) == final(self).inner
                    &&& #[trigger] call_ensures(ready, (inner,), polled)
                },
    {
        ready(&mut self.inner)
    }

    /// Handles one request: the clock is read, the wrapped service is called
    /// exactly once through `invoke`, with the request as it came, and the
    /// request is counted, once, under its method. The result is what the
    /// call gave, the stopwatch of the request, which reports the time it took
    /// once it has been answered, and the count.
    pub fn call<B, F, C>(&mut self, req: Request<B>, invoke: C) -> (result: (
        F,
        Stopwatch,
        RequestCount,
    )) where C: FnOnce(&mut S, Request<B>) -> F
        requires
            forall|inner: &mut S| *inner == old(self).inner ==> call_requires(invoke, (inner, req)),
        ensures
            result.1.method@ == req.method@,
            result.2.method@ == req.method@,
            result.2.increment == 1,
            exists|inner: &mut S, given: F|
                {
                    &&& *inner == old(self).inner
                    &&& *final(inner) == final(self).inner
                    &&& result.0 == given
                    &&& #[trigger] call_ensures(invoke, (inner, req), given)
                },
    {
        let start = instant_now();
        let method = req.method.clone();
        let future = invoke(&mut self.inner, req);
        let count = RequestCount { method: method.clone(), increment: 1 };
        (future, Stopwatch { method, start }, count)
    }
}

} // verus!
