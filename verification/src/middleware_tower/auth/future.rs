//! The future that a call of the authentication service returns.

use crate::message::Response;
use crate::middleware_tower::auth::body::{
    create_unauthorized_response, is_unauthorized_response, AuthResponseBody,
};
use crate::task::Poll;
use vstd::prelude::*;

verus! {

/// Either the answer to a rejected request, which is ready at once, or the
/// future of the stage below.
#[derive(Debug)]
pub enum AuthResponseFuture<F> {
    UnauthorizedFuture,
    Future { future: F },
}

/// What the stage makes of the outcome of the stage below: the same outcome,
/// with the body of a response marked as coming from there.
pub open spec fn forwarded<B, E>(yielded: Poll<Result<Response<B>, E>>) -> Poll<
    Result<Response<AuthResponseBody<B>>, E>,
> {
    match yielded {
        Poll::Pending => Poll::Pending,
        Poll::Ready(Err(e)) => Poll::Ready(Err(e)),
        Poll::Ready(Ok(response)) => Poll::Ready(
            Ok(
                Response {
                    status: response.status,
                    headers: response.headers,
                    body: AuthResponseBody::Body { body: response.body },
                },
            ),
        ),
    }
}

impl<F> AuthResponseFuture<F> {
    /// The future of a rejected request.
    pub fn unauthorized() -> (future: Self)
        ensures
            future is UnauthorizedFuture,
    {
        AuthResponseFuture::UnauthorizedFuture
    }

    /// The future of a request that went on to the stage below.
    pub fn new(future: F) -> (wrapped: Self)
        ensures
            wrapped == (AuthResponseFuture::Future { future }),
    {
        AuthResponseFuture::Future { future }
    }

    /// Polls the future once. A rejected request is answered at once with the
    /// 401 response, and `poll_inner` is not called. Otherwise the future of
    /// the stage below is polled once through `poll_inner`: while it is
    /// pending so is this one, its error is handed on as it is, and its
    /// response is handed on with the same status, headers and body.
    pub fn poll<B, E, P>(&mut self, poll_inner: P) -> (polled: Poll<
        Result<Response<AuthResponseBody<B>>, E>,
    >) where P: FnOnce(&mut F) -> Poll<Result<Response<B>, E>>
        requires
            forall|inner: &mut F|
                *old(self) == (AuthResponseFuture::Future { future: *inner }) ==> call_requires(
                    poll_inner,
                    (inner,),
                ),
        ensures
            *old(self) is UnauthorizedFuture ==> {
                &&& *final(self) is UnauthorizedFuture
                &&& polled matches Poll::Ready(Ok(response))
                &&& is_unauthorized_response(response)
            },
            *old(self) matches AuthResponseFuture::Future { future } ==> exists|
                inner: &mut F,
                yielded: Poll<Result<Response<B>, E>>,
            |
                {
                    &&& *inner == future
                    &&& *final(self) == (AuthResponseFuture::Future { future: *final(inner) })
                    &&& #[trigger] call_ensures(poll_inner, (inner,), yielded)
                    &&& polled == forwarded(yielded)
                },
    {
        match self {
            AuthResponseFuture::UnauthorizedFuture => {
                Poll::Ready(Ok(create_unauthorized_response()))
            },
            AuthResponseFuture::Future { future } => {
                match poll_inner(future) {
                    Poll::Pending => Poll::Pending,
                    Poll::Ready(Err(e)) => Poll::Ready(Err(e)),
                    Poll::Ready(Ok(response)) => Poll::Ready(
                        Ok(response.map(|body: B| -> (wrapped: AuthResponseBody<B>)
                            ensures wrapped == (AuthResponseBody::Body { body }),
                            { AuthResponseBody::new(body) })),
                    ),
                }
            },
        }
    }
}

} // verus!
