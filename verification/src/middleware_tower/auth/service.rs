//! The authentication service.

use crate::headers::{contains, has_header};
use crate::message::Request;
use crate::middleware_tower::auth::future::AuthResponseFuture;
use crate::middleware_tower::auth::layer::AuthLayer;
use crate::task::Poll;
use vstd::prelude::*;

verus! {

/// The header that carries the credential. Its presence is all that is asked
/// for: what it holds is not looked at.
pub const CREDENTIAL_HEADER: &'static str = "Auth-Key";

/// Lets a request through to `inner` only if it carries a credential.
#[derive(Clone, Copy, Debug)]
pub struct AuthService<S> {
    pub inner: S,
}

impl<S> AuthService<S> {
    pub fn new(inner: S) -> (service: Self)
        ensures
            service.inner == inner,
    {
        AuthService { inner }
    }

    /// The service that this one wraps.
    pub fn get_ref(&self) -> (inner: &S)
        ensures
            *inner == self.inner,
    {
        &self.inner
    }

    /// The service that this one wraps, to be changed in place.
    pub fn get_mut(&mut self) -> (inner: &mut S)
        ensures
            *inner == old(self).inner,
            final(self).inner == *final(inner),
    {
        &mut self.inner
    }

    /// Gives up the stage and returns the service that it wrapped.
    pub fn into_inner(self) -> (inner: S)
        ensures
            inner == self.inner,
    {
        self.inner
    }

    /// The layer that wraps services in this stage.
    pub fn layer() -> AuthLayer {
        AuthLayer::new()
    }

    /// Whether the stage can take a request: exactly what the wrapped service
    /// says of itself, asked once through `ready`.
    pub fn poll_ready<E, P>(&mut self, ready: P) -> (polled: Poll<Result<(), E>>) where
        P: FnOnce(&mut S) -> Poll<Result<(), E>>,

        requires
            forall|inner: &mut S| *inner == old(self).inner ==> call_requires(ready, (inner,)),
        ensures
            exists|inner: &mut S|
                {
                    &&& *inner == old(self).inner
                    &&& *final(inner) == final(self).inner
                    &&& #[trigger] call_ensures(ready, (inner,), polled)
                },
    {
        ready(&mut self.inner)
    }

    /// Handles one request. Without a credential the request is rejected:
    /// the wrapped service is left as it was, `invoke` is not called, and the
    /// future returned resolves to the 401 response. With a credential the
    /// wrapped service is called exactly once through `invoke`, with the
    /// request as it came, and the future returned wraps the one that this
    /// call gave.
    pub fn call<B, F, C>(&mut self, req: Request<B>, invoke: C) -> (future: AuthResponseFuture<
        F,
    >) where C: FnOnce(&mut S, Request<B>) -> F
        requires
            has_header(req.headers, CREDENTIAL_HEADER@) ==> forall|inner: &mut S|
                *inner == old(self).inner ==> call_requires(invoke, (inner, req)),
        ensures
            !has_header(req.headers, CREDENTIAL_HEADER@) ==> {
                &&& future is UnauthorizedFuture
                &&& final(self).inner == old(self).inner
            },
            has_header(req.headers, CREDENTIAL_HEADER@) ==> exists|inner: &mut S, given: F|
                {
                    &&& *inner == old(self).inner
                    &&& *final(inner) == final(self).inner
                    &&& future == (AuthResponseFuture::Future { future: given })
                    &&& #[trigger] call_ensures(invoke, (inner, req), given)
                },
    {
        let authorized = contains(&req.headers, CREDENTIAL_HEADER);
        if !authorized {
            return AuthResponseFuture::unauthorized();
        }
        let fut = invoke(&mut self.inner, req);
        AuthResponseFuture::new(fut)
    }
}

} // verus!
