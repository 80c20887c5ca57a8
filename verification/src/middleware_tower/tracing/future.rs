//! The future that a call of the tracing service returns.

use crate::message::Response;
use crate::middleware_tower::tracing::body::{
    create_error_response, is_error_response, TracingResponseBody,
};
use crate::task::Poll;
use crate::telemetry::{span_status, span_status_of, SpanStatus};
use vstd::prelude::*;

verus! {

/// Either an answer of the stage's own, which is ready at once, or the future
/// of the stage below.
#[derive(Debug)]
pub enum ResponseFutureInner<F> {
    PayloadExample,
    Future { future: F },
}

/// The future of one request, with the method and the URI that its trace
/// carries.
#[derive(Debug)]
pub struct TracingResponseFuture<F> {
    pub inner: ResponseFutureInner<F>,
    pub method: String,
    pub uri: String,
}

/// What the stage makes of the outcome of the stage below: the same outcome,
/// with the body of a response marked as coming from there.
pub open spec fn forwarded<B, E>(yielded: Poll<Result<Response<B>, E>>) -> Poll<
    Result<Response<TracingResponseBody<B>>, E>,
> {
    match yielded {
        Poll::Pending => Poll::Pending,
        Poll::Ready(Err(e)) => Poll::Ready(Err(e)),
        Poll::Ready(Ok(response)) => Poll::Ready(
            Ok(
                Response {
                    status: response.status,
                    headers: response.headers,
                    body: TracingResponseBody::Body { body: response.body },
                },
            ),
        ),
    }
}

/// How the trace of a request ends with what a poll yields: not yet while the
/// outcome is pending, and else as the outcome says.
pub open spec fn span_end<B, E>(polled: Poll<Result<Response<B>, E>>) -> Option<SpanStatus> {
    match polled {
        Poll::Pending => None,
        Poll::Ready(outcome) => Some(span_status_of(outcome)),
    }
}

/// How the trace of a request ends with what a poll yields.
pub fn close_span<B, E>(polled: &Poll<Result<Response<B>, E>>) -> (end: Option<SpanStatus>)
    ensures
        end == span_end(*polled),
{
    match polled {
        Poll::Pending => None,
        Poll::Ready(outcome) => Some(span_status(outcome)),
    }
}

impl<F> TracingResponseFuture<F> {
    /// The future of a request that the stage answers itself.
    pub fn payload_example(method: String, uri: String) -> (future: Self)
        ensures
            future.inner is PayloadExample,
            future.method == method,
            future.uri == uri,
    {
        TracingResponseFuture { inner: ResponseFutureInner::PayloadExample, method, uri }
    }

    /// The future of a request that went on to the stage below.
    pub fn new(future: F, method: String, uri: String) -> (wrapped: Self)
        ensures
            wrapped.inner == (ResponseFutureInner::Future { future }),
            wrapped.method == method,
            wrapped.uri == uri,
    {
        TracingResponseFuture { inner: ResponseFutureInner::Future { future }, method, uri }
    }

    /// Polls the future once. An answer of the stage's own is ready at once,
    /// and `poll_inner` is not called. Otherwise the future of the stage below
    /// is polled once through `poll_inner`: while it is pending so is this
    /// one, its error is handed on as it is, and its response is handed on
    /// with the same status, headers and body. With the outcome comes the end
    /// of the trace: none while the outcome is pending; failed on an error and
    /// on a response with a status from 400 to 599; succeeded otherwise.
    pub fn poll<B, E, P>(&mut self, poll_inner: P) -> (polled: (
        Poll<Result<Response<TracingResponseBody<B>>, E>>,
        Option<SpanStatus>,
    )) where P: FnOnce(&mut F) -> Poll<Result<Response<B>, E>>
        requires
            forall|inner: &mut F|
                old(self).inner == (ResponseFutureInner::Future { future: *inner })
                    ==> call_requires(poll_inner, (inner,)),
        ensures
            final(self).method == old(self).method,
            final(self).uri == old(self).uri,
            polled.1 == span_end(polled.0),
            old(self).inner is PayloadExample ==> {
                &&& final(self).inner is PayloadExample
                &&& polled.0 matches Poll::Ready(Ok(response))
                &&& is_error_response(response)
            },
            old(self).inner matches ResponseFutureInner::Future { future } ==> exists|
                inner: &mut F,
                yielded: Poll<Result<Response<B>, E>>,
            |
                {
                    &&& *inner == future
                    &&& final(self).inner == (ResponseFutureInner::Future { future: *final(inner) })
                    &&& #[trigger] call_ensures(poll_inner, (inner,), yielded)
                    &&& polled.0 == forwarded(yielded)
                },
    {
        let outcome = match &mut self.inner {
            ResponseFutureInner::PayloadExample => Poll::Ready(Ok(create_error_response())),
            ResponseFutureInner::Future { future } => {
                match poll_inner(future) {
                    Poll::Pending => Poll::Pending,
                    Poll::Ready(Err(e)) => Poll::Ready(Err(e)),
                    Poll::Ready(Ok(response)) => Poll::Ready(
                        Ok(response.map(|body: B| -> (wrapped: TracingResponseBody<B>)
                            ensures wrapped == (TracingResponseBody::Body { body }),
                            { TracingResponseBody::new(body) })),
                    ),
                }
            },
        };
        let end = close_span(&outcome);
        (outcome, end)
    }
}

} // verus!
