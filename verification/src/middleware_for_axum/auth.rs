//! Authentication by the `Auth-Key` header.

use crate::headers::{has_header, header_map_contents, no_headers};
use crate::message::{Request, UNAUTHORIZED};
use crate::middleware::auth::{authenticate, AuthOutcome};
use crate::task::Poll;
use vstd::prelude::*;

verus! {

/// The header that carries the credential. Its presence is all that is asked
/// for: what it holds is not looked at.
pub const CREDENTIAL_HEADER: &'static str = "Auth-Key";

/// Wraps a service in an [`AuthMiddleware`].
#[derive(Clone)]
pub struct AuthLayer;

impl AuthLayer {
    /// The authentication stage around `inner`.
    pub fn layer<S>(&self, inner: S) -> (service: AuthMiddleware<S>)
        ensures
            service.inner == inner,
    {
        AuthMiddleware { inner }
    }
}

/// Lets a request through to `inner` only if it carries a credential.
#[derive(Clone)]
pub struct AuthMiddleware<S> {
    pub inner: S,
}

impl<S> AuthMiddleware<S> {
    /// Whether the stage can take a request: exactly what the wrapped service
    /// says of itself, asked once through `ready`.
    pub fn poll_ready<E, P>(&mut self, ready: P) -> (polled: Poll<Result<(), E>>) where
        P: FnOnce(&mut S) -> Poll<Result<(), E>>,

        requires
            forall|inner: &mut S| *inner == old(self).inner ==> call_requires(ready, (inner,)),
        ensures
            exists|inner: &mut S|
                {
                    &&& *inner == old(self).inner
                    &&& *final(inner) == final(self).inner
                    &&& #[trigger] call_ensures(ready, (inner,), polled)
                },
    {
        ready(&mut self.inner)
    }

    /// Handles one request. Without an `Auth-Key` header the request is
    /// rejected: the wrapped service is left as it was, `invoke` is not
    /// called, and the answer has status 401, no headers, and the body that
    /// `default_body` makes. With the header the wrapped service is called
    /// exactly once through `invoke`, with the request as it came.
    pub fn call<B, RB, F, D, C>(&mut self, req: Request<B>, default_body: D, invoke: C) -> (outcome:
        AuthOutcome<F, RB>) where D: FnOnce() -> RB, C: FnOnce(&mut S, Request<B>) -> F
        requires
            !has_header(req.headers, CREDENTIAL_HEADER@) ==> call_requires(default_body, ()),
            has_header(req.headers, CREDENTIAL_HEADER@) ==> forall|inner: &mut S|
                *inner == old(self).inner ==> call_requires(invoke, (inner, req)),
        ensures
            !has_header(req.headers, CREDENTIAL_HEADER@) ==> {
                &&& final(self).inner == old(self).inner
                &&& outcome matches AuthOutcome::Rejected { response }
                &&& response.status == UNAUTHORIZED
                &&& header_map_contents(response.headers) == no_headers()
                &&& call_ensures(default_body, (), response.body)
            },
            has_header(req.headers, CREDENTIAL_HEADER@) ==> exists|inner: &mut S, given: F|
                {
                    &&& *inner == old(self).inner
                    &&& *final(inner) == final(self).inner
                    &&& outcome == (AuthOutcome::<F, RB>::Forwarded { future: given })
                    &&& #[trigger] call_ensures(invoke, (inner, req), given)
                },
    {
        authenticate(&mut self.inner, CREDENTIAL_HEADER, req, default_body, invoke)
    }
}

} // verus!
