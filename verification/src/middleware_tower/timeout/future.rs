//! The future that a call of the timeout service returns.

use crate::message::Response;
use crate::middleware_tower::timeout::body::{
    create_request_timeout_response, is_request_timeout_response, TimeoutResponseBody,
};
use crate::task::Poll;
use std::time::Duration;
use vstd::prelude::*;

verus! {

/// The future of the stage below, raced against a timer. `T` is the timer: it
/// is ready once the deadline has passed.
#[derive(Debug)]
pub struct TimeoutResponseFuture<F, T> {
    pub inner: F,
    pub sleep: T,
    pub timeout: Duration,
}

/// What the stage makes of an outcome of the stage below that came in time:
/// the same outcome, with the body of a response marked as coming from there.
pub open spec fn forwarded<B, E>(yielded: Poll<Result<Response<B>, E>>) -> Poll<
    Result<Response<TimeoutResponseBody<B>>, E>,
> {
    match yielded {
        Poll::Pending => Poll::Pending,
        Poll::Ready(Err(e)) => Poll::Ready(Err(e)),
        Poll::Ready(Ok(response)) => Poll::Ready(
            Ok(
                Response {
                    status: response.status,
                    headers: response.headers,
                    body: TimeoutResponseBody::Body { body: response.body },
                },
            ),
        ),
    }
}

/// What a poll yields when the stage below is still at work: the 408 response
/// if the deadline has passed, and nothing yet if it has not.
pub open spec fn timed_out<B, E>(
    fired: Poll<()>,
    polled: Poll<Result<Response<TimeoutResponseBody<B>>, E>>,
) -> bool {
    match fired {
        Poll::Ready(_) => polled matches Poll::Ready(Ok(response)) && is_request_timeout_response(
            response,
        ),
        Poll::Pending => polled is Pending,
    }
}

impl<F, T> TimeoutResponseFuture<F, T> {
    /// The future `future` of the stage below, under the timer `sleep` that
    /// was set to `timeout`.
    pub fn new(future: F, sleep: T, timeout: Duration) -> (wrapped: Self)
        ensures
            wrapped == (TimeoutResponseFuture { inner: future, sleep, timeout }),
    {
        TimeoutResponseFuture { inner: future, sleep, timeout }
    }

    /// Polls the future once. The future of the stage below is polled first,
    /// through `poll_inner`. If it is ready, its outcome is the outcome: an
    /// error is handed on as it is, a response with the same status, headers
    /// and body, and the timer is not looked at, so that a response that is
    /// there is never replaced by a timeout. Only if it is pending is the
    /// timer polled, through `poll_sleep`: once the deadline has passed the
    /// outcome is the 408 response, and what the stage below may still produce
    /// is never asked for again.
    pub fn poll<B, E, P, Q>(&mut self, poll_inner: P, poll_sleep: Q) -> (polled: Poll<
        Result<Response<TimeoutResponseBody<B>>, E>,
    >) where P: FnOnce(&mut F) -> Poll<Result<Response<B>, E>>, Q: FnOnce(&mut T) -> Poll<()>
        requires
            forall|inner: &mut F| *inner == old(self).inner ==> call_requires(poll_inner, (inner,)),
            forall|timer: &mut T| *timer == old(self).sleep ==> call_requires(poll_sleep, (timer,)),
        ensures
            final(self).timeout == old(self).timeout,
            exists|inner: &mut F, yielded: Poll<Result<Response<B>, E>>|
                {
                    &&& *inner == old(self).inner
                    &&& *final(inner) == final(self).inner
                    &&& #[trigger] call_ensures(poll_inner, (inner,), yielded)
                    &&& yielded is Ready ==> {
                        &&& polled == forwarded(yielded)
                        &&& final(self).sleep == old(self).sleep
                    }
                    &&& yielded is Pending ==> exists|timer: &mut T, fired: Poll<()>|
                        {
                            &&& *timer == old(self).sleep
                            &&& *final(timer) == final(self).sleep
                            &&& #[trigger] call_ensures(poll_sleep, (timer,), fired)
                            &&& timed_out(fired, polled)
                        }
                },
    {
        match poll_inner(&mut self.inner) {
            Poll::Ready(Err(e)) => Poll::Ready(Err(e)),
            Poll::Ready(Ok(response)) => Poll::Ready(
                Ok(response.map(|body: B| -> (wrapped: TimeoutResponseBody<B>)
                    ensures wrapped == (TimeoutResponseBody::Body { body }),
                    { TimeoutResponseBody::new(body) })),
            ),
            Poll::Pending => {
                match poll_sleep(&mut self.sleep) {
                    Poll::Ready(_) => Poll::Ready(Ok(create_request_timeout_response())),
                    Poll::Pending => Poll::Pending,
                }
            },
        }
    }
}

} // verus!
