//! A log line for every request.

use crate::message::Request;
use crate::task::Poll;
use vstd::prelude::*;

verus! {

/// Wraps a service in a [`LogMiddleware`].
pub struct LogLayer;

impl LogLayer {
    /// The logging stage around `inner`.
    pub fn layer<S>(&self, inner: S) -> (service: LogMiddleware<S>)
        ensures
            service.inner == inner,
    {
        LogMiddleware { inner }
    }
}

/// Notes the method and the URI of each request that goes through to `inner`.
pub struct LogMiddleware<S> {
    pub inner: S,
}

/// What is written down once a request has been handled: its method and its
/// URI.
#[derive(Debug)]
pub struct LogEntry {
    pub method: String,
    pub uri: String,
}

impl<S> LogMiddleware<S> {
    /// Whether the stage can take a request: exactly what the wrapped service
    /// says of itself, asked once through `ready`.
    pub fn poll_ready<E, P>(&mut self, ready: P) -> (polled: Poll<Result<(), E>>) where
        P: FnOnce(&mut S) -> Poll<Result<(), E>>,

        requires
            forall|inner: &mut S| *inner == old(self).inner ==> call_requires(ready, (inner,)),
        ensures
            exists|inner: &mut S|
                {
                    &&& *inner == old(self).inner
                    &&& *final(inner) == final(self).inner
                    &&& #[trigger] call_ensures(ready, (inner,), polled)
                },
    {
        ready(&mut self.inner)
    }

    /// Handles one request: the method and the URI of the request are kept,
    /// and the wrapped service is called exactly once through `invoke`, with
    /// the request as it came. The result is what this call gave, and what
    /// to write down.
    pub fn call<B, F, C>(&mut self, req: Request<B>, invoke: C) -> (logged: (F, LogEntry)) where
        C: FnOnce(&mut S, Request<B>) -> F,

        requires
            forall|inner: &mut S| *inner == old(self).inner ==> call_requires(invoke, (inner, req)),
        ensures
            logged.1.method@ == req.method@,
            logged.1.uri@ == req.uri@,
            exists|inner: &mut S, given: F|
                {
                    &&& *inner == old(self).inner
                    &&& *final(inner) == final(self).inner
                    &&& logged.0 == given
                    &&& #[trigger] call_ensures(invoke, (inner, req), given)
                },
    {
        let method = req.method.clone();
        let uri = req.uri.clone();
        let future = invoke(&mut self.inner, req);
        (future, LogEntry { method, uri })
    }
}

} // verus!
