//! Timing of requests.

use crate::message::Request;
use crate::task::Poll;
use crate::telemetry::RequestDuration;
use crate::time::{instant_elapsed, instant_now};
use std::time::Instant;
use vstd::prelude::*;

verus! {

/// Wraps a service in a [`MetricsMiddleware`].
pub struct MetricsLayer;

impl MetricsLayer {
    /// The metrics stage around `inner`.
    pub fn layer<S>(&self, inner: S) -> (service: MetricsMiddleware<S>)
        ensures
            service.inner == inner,
    {
        MetricsMiddleware { inner }
    }
}

/// Times the requests that go through to `inner`.
#[derive(Clone)]
pub struct MetricsMiddleware<S> {
    pub inner: S,
}

/// What is kept of a request under way to time it: its method, and the
/// moment at which it came in.
#[derive(Debug)]
pub struct Stopwatch {
    pub method: String,
    pub start: Instant,
}

impl Stopwatch {
    /// What is reported when the request has been answered: the time since it
    /// came in, under its method.
    pub fn finish(&self) -> (report: RequestDuration)
        ensures
            report.method@ == self.method@,
    {
        RequestDuration { method: self.method.clone(), elapsed: instant_elapsed(&self.start) }
    }
}

impl<S> MetricsMiddleware<S> {
    /// Whether the stage can take a request: exactly what the wrapped service
    /// says of itself, asked once through `ready`.
    pub fn poll_ready<E, P>(&mut self, ready: P) -> (polled: Poll<Result<(), E>>) where
        P: FnOnce(&mut S) -> Poll<Result<(), E>>,

        requires
            forall|inner: &mut S| *inner == old(self).inner ==> call_requires(ready, (inner,)),
        ensures
            exists|inner: &mut S|
                {
                    &&& *inner == old(self).inner
                    &&& *final(inner) == final(self).inner
                    &&& #[trigger] call_ensures(ready, (inner,), polled)
                },
    {
        ready(&mut self.inner)
    }

    /// Handles one request: the clock is read, the method of the request is
    /// kept, and the wrapped service is called exactly once through `invoke`,
    /// with the request as it came. The result is what this call gave, and
    /// the stopwatch of the request.
    pub fn call<B, F, C>(&mut self, req: Request<B>, invoke: C) -> (timed: (F, Stopwatch)) where
        C: FnOnce(&mut S, Request<B>) -> F,

        requires
            forall|inner: &mut S| *inner == old(self).inner ==> call_requires(invoke, (inner, req)),
        ensures
            timed.1.method@ == req.method@,
            exists|inner: &mut S, given: F|
                {
                    &&& *inner == old(self).inner
                    &&& *final(inner) == final(self).inner
                    &&& timed.0 == given
                    &&& #[trigger] call_ensures(invoke, (inner, req), given)
                },
    {
        let start = instant_now();
        let method = req.method.clone();
        let future = invoke(&mut self.inner, req);
        (future, Stopwatch { method, start })
    }
}

} // verus!
