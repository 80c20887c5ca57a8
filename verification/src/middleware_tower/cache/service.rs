//! The cache service.

use crate::message::Request;
use crate::middleware_tower::cache::future::CacheResponseFuture;
use crate::middleware_tower::cache::layer::CacheLayer;
use crate::task::Poll;
use vstd::prelude::*;

verus! {

/// Hands every request on to `inner`.
#[derive(Clone, Copy, Debug)]
pub struct CacheService<S> {
    pub inner: S,
}

impl<S> CacheService<S> {
    pub fn new(inner: S) -> (service: Self)
        ensures
            service.inner == inner,
    {
        CacheService { inner }
    }

    /// The service that this one wraps.
    pub fn get_ref(&self) -> (inner: &S)
        ensures
            *inner == self.inner,
    {
        &self.inner
    }

    /// The service that this one wraps, to be changed in place.
    pub fn get_mut(&mut self) -> (inner: &mut S)
        ensures
            *inner == old(self).inner,
            final(self).inner == *final(inner),
    {
        &mut self.inner
    }

    /// Gives up the stage and returns the service that it wrapped.
    pub fn into_inner(self) -> (inner: S)
        ensures
            inner == self.inner,
    {
        self.inner
    }

    /// The layer that wraps services in this stage.
    pub fn layer() -> CacheLayer {
        CacheLayer::new()
    }

    /// Whether the stage can take a request: exactly what the wrapped service
    /// says of itself, asked once through `ready`.
    pub fn poll_ready<E, P>(&mut self, ready: P) -> (polled: Poll<Result<(), E>>) where
        P: FnOnce(&mut S) -> Poll<Result<(), E>>,

        requires
            forall|inner: &mut S| *inner == old(self).inner ==> call_requires(ready, (inner,)),
        ensures
            exists|inner: &mut S|
                {
                    &&& *inner == old(self).inner
                    &&& *final(inner) == final(self).inner
                    &&& #[trigger] call_ensures(ready, (inner,), polled)
                },
    {
        ready(&mut self.inner)
    }

    /// Handles one request: the wrapped service is called exactly once
    /// through `invoke`, with the request as it came, and the future returned
    /// wraps the one that this call gave.
    pub fn call<B, F, C>(&mut self, req: Request<B>, invoke: C) -> (future: CacheResponseFuture<
        F,
    >) where C: FnOnce(&mut S, Request<B>) -> F
        requires
            forall|inner: &mut S| *inner == old(self).inner ==> call_requires(invoke, (inner, req)),
        ensures
            exists|inner: &mut S, given: F|
                {
                    &&& *inner == old(self).inner
                    &&& *final(inner) == final(self).inner
                    &&& future.inner == given
                    &&& #[trigger] call_ensures(invoke, (inner, req), given)
                },
    {
        let fut = invoke(&mut self.inner, req);
        CacheResponseFuture::new(fut)
    }
}

} // verus!
