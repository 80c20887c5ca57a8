//! The future that a call of the cache service returns.

use crate::message::Response;
use crate::middleware_tower::cache::body::CacheResponseBody;
use crate::task::Poll;
use vstd::prelude::*;

verus! {

/// The future of the stage below.
#[derive(Debug)]
pub struct CacheResponseFuture<F> {
    pub inner: F,
}

/// What the stage makes of the outcome of the stage below: the same outcome,
/// around the same body.
pub open spec fn forwarded<B, E>(yielded: Poll<Result<Response<B>, E>>) -> Poll<
    Result<Response<CacheResponseBody<B>>, E>,
> {
    match yielded {
        Poll::Pending => Poll::Pending,
        Poll::Ready(Err(e)) => Poll::Ready(Err(e)),
        Poll::Ready(Ok(response)) => Poll::Ready(
            Ok(
                Response {
                    status: response.status,
                    headers: response.headers,
                    body: CacheResponseBody { inner: response.body },
                },
            ),
        ),
    }
}

impl<F> CacheResponseFuture<F> {
    /// The future of a request that went on to the stage below.
    pub fn new(future: F) -> (wrapped: Self)
        ensures
            wrapped.inner == future,
    {
        CacheResponseFuture { inner: future }
    }

    /// Polls the future once: the future of the stage below is polled once
    /// through `poll_inner`. While it is pending so is this one, its error is
    /// handed on as it is, and its response is handed on with the same status,
    /// headers and body.
    pub fn poll<B, E, P>(&mut self, poll_inner: P) -> (polled: Poll<
        Result<Response<CacheResponseBody<B>>, E>,
    >) where P: FnOnce(&mut F) -> Poll<Result<Response<B>, E>>
        requires
            forall|inner: &mut F| *inner == old(self).inner ==> call_requires(poll_inner, (inner,)),
        ensures
            exists|inner: &mut F, yielded: Poll<Result<Response<B>, E>>|
                {
                    &&& *inner == old(self).inner
                    &&& *final(inner) == final(self).inner
                    &&& #[trigger] call_ensures(poll_inner, (inner,), yielded)
                    &&& polled == forwarded(yielded)
                },
    {
        match poll_inner(&mut self.inner) {
            Poll::Pending => Poll::Pending,
            Poll::Ready(Err(e)) => Poll::Ready(Err(e)),
            Poll::Ready(Ok(response)) => Poll::Ready(
                Ok(response.map(|body: B| -> (wrapped: CacheResponseBody<B>)
                    ensures wrapped == (CacheResponseBody { inner: body }),
                    { CacheResponseBody::new(body) })),
            ),
        }
    }
}

} // verus!
