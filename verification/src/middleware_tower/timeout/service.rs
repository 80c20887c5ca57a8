//! The timeout service.

use crate::message::Request;
use crate::middleware_tower::timeout::future::TimeoutResponseFuture;
use crate::middleware_tower::timeout::layer::TimeoutLayer;
use crate::task::Poll;
use std::time::Duration;
use vstd::prelude::*;

verus! {

/// Gives `inner` a fixed time to answer each request.
#[derive(Clone, Copy, Debug)]
pub struct TimeoutService<S> {
    pub inner: S,
    pub timeout: Duration,
}

impl<S> TimeoutService<S> {
    pub fn new(inner: S, timeout: Duration) -> (service: Self)
        ensures
            service.inner == inner,
            service.timeout == timeout,
    {
        TimeoutService { inner, timeout }
    }

    /// The service that this one wraps.
    pub fn get_ref(&self) -> (inner: &S)
        ensures
            *inner == self.inner,
    {
        &self.inner
    }

    /// The service that this one wraps, to be changed in place.
    pub fn get_mut(&mut self) -> (inner: &mut S)
        ensures
            *inner == old(self).inner,
            final(self).inner == *final(inner),
            final(self).timeout == old(self).timeout,
    {
        &mut self.inner
    }

    /// Gives up the stage and returns the service that it wrapped.
    pub fn into_inner(self) -> (inner: S)
        ensures
            inner == self.inner,
    {
        self.inner
    }

    /// The layer that wraps services in this stage, with the given time
    /// limit.
    pub fn layer(timeout: Duration) -> (layer: TimeoutLayer)
        ensures
            layer.timeout == timeout,
    {
        TimeoutLayer::new(timeout)
    }

    /// Whether the stage can take a request: exactly what the wrapped service
    /// says of itself, asked once through `ready`.
    pub fn poll_ready<E, P>(&mut self, ready: P) -> (polled: Poll<Result<(), E>>) where
        P: FnOnce(&mut S) -> Poll<Result<(), E>>,

        requires
            forall|inner: &mut S| *inner == old(self).inner ==> call_requires(ready, (inner,)),
        ensures
            final(self).timeout == old(self).timeout,
            exists|inner: &mut S|
                {
                    &&& *inner == old(self).inner
                    &&& *final(inner) == final(self).inner
                    &&& #[trigger] call_ensures(ready, (inner,), polled)
                },
    {
        ready(&mut self.inner)
    }

    /// Handles one request. A timer is started through `start_timer`, set to
    /// the time limit of the stage, and the wrapped service is called exactly
    /// once through `invoke`, with the request as it came. The future returned
    /// holds the future that this call gave and the timer.
    pub fn call<B, F, T, M, C>(&mut self, req: Request<B>, start_timer: M, invoke: C) -> (future:
        TimeoutResponseFuture<F, T>) where
        M: FnOnce(Duration) -> T,
        C: FnOnce(&mut S, Request<B>) -> F,

        requires
            call_requires(start_timer, (old(self).timeout,)),
            forall|inner: &mut S| *inner == old(self).inner ==> call_requires(invoke, (inner, req)),
        ensures
            final(self).timeout == old(self).timeout,
            future.timeout == old(self).timeout,
            call_ensures(start_timer, (old(self).timeout,), future.sleep),
            exists|inner: &mut S, given: F|
                {
                    &&& *inner == old(self).inner
                    &&& *final(inner) == final(self).inner
                    &&& future.inner == given
                    &&& #[trigger] call_ensures(invoke, (inner, req), given)
                },
    {
        let timeout = self.timeout;
        let sleep = start_timer(timeout);
        let fut = invoke(&mut self.inner, req);
        TimeoutResponseFuture::new(fut, sleep, timeout)
    }
}

} // verus!
