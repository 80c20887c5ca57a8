//! The place of a cache in the pipeline. It holds no cache yet.

use crate::message::Request;
use crate::task::Poll;
use vstd::prelude::*;

verus! {

/// Wraps a service in a [`CacheMiddleware`].
#[derive(Clone)]
pub struct CacheLayer;

impl CacheLayer {
    /// The cache stage around `inner`.
    pub fn layer<S>(&self, inner: S) -> (service: CacheMiddleware<S>)
        ensures
            service.inner == inner,
    {
        CacheMiddleware { inner }
    }
}

/// Hands every request on to `inner`.
#[derive(Clone)]
pub struct CacheMiddleware<S> {
    pub inner: S,
}

impl<S> CacheMiddleware<S> {
    /// Whether the stage can take a request: exactly what the wrapped service
    /// says of itself, asked once through `ready`.
    pub fn poll_ready<E, P>(&mut self, ready: P) -> (polled: Poll<Result<(), E>>) where
        P: FnOnce(&mut S) -> Poll<Result<(), E>>,

        requires
            forall|inner: &mut S| *inner == old(self).inner ==> call_requires(ready, (inner,)),
        ensures
            exists|inner: &mut S|
                {
                    &&& *inner == old(self).inner
                    &&& *final(inner) == final(self).inner
                    &&& #[trigger] call_ensures(ready, (inner,), polled)
                },
    {
        ready(&mut self.inner)
    }

    /// Handles one request: the wrapped service is called exactly once
    /// through `invoke`, with the request as it came, and what this call gave
    /// is returned.
    pub fn call<B, F, C>(&mut self, req: Request<B>, invoke: C) -> (future: F) where
        C: FnOnce(&mut S, Request<B>) -> F,

        requires
            forall|inner: &mut S| *inner == old(self).inner ==> call_requires(invoke, (inner, req)),
        ensures
            exists|inner: &mut S|
                {
                    &&& *inner == old(self).inner
                    &&& *final(inner) == final(self).inner
                    &&& #[trigger] call_ensures(invoke, (inner, req), future)
                },
    {
        invoke(&mut self.inner, req)
    }
}

} // verus!
