//! Authentication by the `Authorization` header.

use crate::headers::{contains, has_header, header_map_contents, no_headers};
use crate::message::{Request, Response, UNAUTHORIZED};
use crate::task::Poll;
use vstd::prelude::*;

verus! {

/// The header that carries the credential. Its presence is all that is asked
/// for: what it holds is not looked at.
pub const CREDENTIAL_HEADER: &'static str = "Authorization";

/// Wraps a service in an [`AuthMiddleware`].
#[derive(Clone)]
pub struct AuthLayer;

impl AuthLayer {
    /// The authentication stage around `inner`.
    pub fn layer<S>(&self, inner: S) -> (service: AuthMiddleware<S>)
        ensures
            service.inner == inner,
    {
        AuthMiddleware { inner }
    }
}

/// Lets a request through to `inner` only if it carries a credential.
#[derive(Clone)]
pub struct AuthMiddleware<S> {
    pub inner: S,
}

/// What became of a request at the authentication stage: it was answered on
/// the spot, or it went on and `future` will give its outcome.
#[derive(Debug)]
pub enum AuthOutcome<F, RB> {
    Rejected { response: Response<RB> },
    Forwarded { future: F },
}

/// Handles one request for a stage that asks for the header `name`. Without
/// it the request is rejected: `inner` is left as it was, `invoke` is not
/// called, and the answer has status 401, no headers, and the body that
/// `default_body` makes. With it `inner` is called exactly once through
/// `invoke`, with the request as it came.
pub fn authenticate<S, B, RB, F, D, C>(
    inner: &mut S,
    name: &str,
    req: Request<B>,
    default_body: D,
    invoke: C,
) -> (outcome: AuthOutcome<F, RB>) where D: FnOnce() -> RB, C: FnOnce(&mut S, Request<B>) -> F
    requires
        !has_header(req.headers, name@) ==> call_requires(default_body, ()),
        has_header(req.headers, name@) ==> forall|stage: &mut S|
            *stage == *old(inner) ==> call_requires(invoke, (stage, req)),
    ensures
        !has_header(req.headers, name@) ==> {
            &&& *final(inner) == *old(inner)
            &&& outcome matches AuthOutcome::Rejected { response }
            &&& response.status == UNAUTHORIZED
            &&& header_map_contents(response.headers) == no_headers()
            &&& call_ensures(default_body, (), response.body)
        },
        has_header(req.headers, name@) ==> exists|stage: &mut S, given: F|
            {
                &&& *stage == *old(inner)
                &&& *final(stage) == *final(inner)
                &&& outcome == (AuthOutcome::<F, RB>::Forwarded { future: given })
                &&& #[trigger] call_ensures(invoke, (stage, req), given)
            },
{
    let authorized = contains(&req.headers, name);
    if !authorized {
        let mut res = Response::new(default_body());
        res.status = UNAUTHORIZED;
        return AuthOutcome::Rejected { response: res };
    }
    let fut = invoke(inner, req);
    AuthOutcome::Forwarded { future: fut }
}

impl<S> AuthMiddleware<S> {
    /// Whether the stage can take a request: exactly what the wrapped service
    /// says of itself, asked once through `ready`.
    pub fn poll_ready<E, P>(&mut self, ready: P) -> (polled: Poll<Result<(), E>>) where
        P: FnOnce(&mut S) -> Poll<Result<(), E>>,

        requires
            forall|inner: &mut S| *inner == old(self).inner ==> call_requires(ready, (inner,)),
        ensures
            exists|inner: &mut S|
                {
                    &&& *inner == old(self).inner
                    &&& *final(inner) == final(self).inner
                    &&& #[trigger] call_ensures(ready, (inner,), polled)
                },
    {
        ready(&mut self.inner)
    }

    /// Handles one request. Without an `Authorization` header the request is
    /// rejected: the wrapped service is left as it was, `invoke` is not
    /// called, and the answer has status 401, no headers, and the body that
    /// `default_body` makes. With the header the wrapped service is called
    /// exactly once through `invoke`, with the request as it came.
    pub fn call<B, RB, F, D, C>(&mut self, req: Request<B>, default_body: D, invoke: C) -> (outcome:
        AuthOutcome<F, RB>) where D: FnOnce() -> RB, C: FnOnce(&mut S, Request<B>) -> F
        requires
            !has_header(req.headers, CREDENTIAL_HEADER@) ==> call_requires(default_body, ()),
            has_header(req.headers, CREDENTIAL_HEADER@) ==> forall|inner: &mut S|
                *inner == old(self).inner ==> call_requires(invoke, (inner, req)),
        ensures
            !has_header(req.headers, CREDENTIAL_HEADER@) ==> {
                &&& final(self).inner == old(self).inner
                &&& outcome matches AuthOutcome::Rejected { response }
                &&& response.status == UNAUTHORIZED
                &&& header_map_contents(response.headers) == no_headers()
                &&& call_ensures(default_body, (), response.body)
            },
            has_header(req.headers, CREDENTIAL_HEADER@) ==> exists|inner: &mut S, given: F|
                {
                    &&& *inner == old(self).inner
                    &&& *final(inner) == final(self).inner
                    &&& outcome == (AuthOutcome::<F, RB>::Forwarded { future: given })
                    &&& #[trigger] call_ensures(invoke, (inner, req), given)
                },
    {
        authenticate(&mut self.inner, CREDENTIAL_HEADER, req, default_body, invoke)
    }
}

} // verus!
