//! Tracing of requests.

use crate::message::{Request, Response};
use crate::task::Poll;
use crate::telemetry::{span_status, span_status_of, SpanStatus};
use vstd::prelude::*;

verus! {

/// Wraps a service in a [`TracingMiddleware`].
#[derive(Clone)]
pub struct TracingLayer;

impl TracingLayer {
    /// The tracing stage around `inner`.
    pub fn layer<S>(&self, inner: S) -> (service: TracingMiddleware<S>)
        ensures
            service.inner == inner,
    {
        TracingMiddleware { inner }
    }
}

/// Runs each request that goes through to `inner` under a trace of its own.
#[derive(Clone)]
pub struct TracingMiddleware<S> {
    pub inner: S,
}

/// What the trace of a request carries: the method and the URI of the
/// request.
#[derive(Debug)]
pub struct TraceContext {
    pub method: String,
    pub uri: String,
}

impl TraceContext {
    /// How the trace ends once the stage below has given `outcome`: as failed
    /// on an error and on a response with a status from 400 to 599, as
    /// succeeded on any other response.
    pub fn finish<B, E>(&self, outcome: &Result<Response<B>, E>) -> (status: SpanStatus)
        ensures
            status == span_status_of(*outcome),
    {
        span_status(outcome)
    }
}

impl<S> TracingMiddleware<S> {
    /// Whether the stage can take a request: exactly what the wrapped service
    /// says of itself, asked once through `ready`.
    pub fn poll_ready<E, P>(&mut self, ready: P) -> (polled: Poll<Result<(), E>>) where
        P: FnOnce(&mut S) -> Poll<Result<(), E>>,

        requires
            forall|inner: &mut S| *inner == old(self).inner ==> call_requires(ready, (inner,)),
        ensures
            exists|inner: &mut S|
                {
                    &&& *inner == old(self).inner
                    &&& *final(inner) == final(self).inner
                    &&& #[trigger] call_ensures(ready, (inner,), polled)
                },
    {
        ready(&mut self.inner)
    }

    /// Handles one request: the method and the URI of the request are kept
    /// for its trace, and the wrapped service is called exactly once through
    /// `invoke`, with the request as it came. The result is what this call
    /// gave, and the context of the trace.
    pub fn call<B, F, C>(&mut self, req: Request<B>, invoke: C) -> (traced: (
        F,
        TraceContext,
    )) where C: FnOnce(&mut S, Request<B>) -> F

        requires
            forall|inner: &mut S| *inner == old(self).inner ==> call_requires(invoke, (inner, req)),
        ensures
            traced.1.method@ == req.method@,
            traced.1.uri@ == req.uri@,
            exists|inner: &mut S, given: F|
                {
                    &&& *inner == old(self).inner
                    &&& *final(inner) == final(self).inner
                    &&& traced.0 == given
                    &&& #[trigger] call_ensures(invoke, (inner, req), given)
                },
    {
        let method = req.method.clone();
        let uri = req.uri.clone();
        let future = invoke(&mut self.inner, req);
        (future, TraceContext { method, uri })
    }
}

} // verus!
