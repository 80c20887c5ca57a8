//! The future of a request in the pipeline, and what a poll of it yields.

use crate::headers::{ascii_bytes, header_map_contents};
use crate::message::{plain_text_headers, Response, REQUEST_TIMEOUT, UNAUTHORIZED};
use crate::middleware_tower::auth::future::AuthResponseFuture;
use crate::middleware_tower::auth::AuthResponseBody;
use crate::middleware_tower::cache::{CacheResponseBody, CacheResponseFuture};
use crate::middleware_tower::metrics::future::counts_once;
use crate::middleware_tower::metrics::{MetricsResponseBody, MetricsResponseFuture};
use crate::middleware_tower::timeout::future::timed_out;
use crate::middleware_tower::timeout::{TimeoutResponseBody, TimeoutResponseFuture};
use crate::middleware_tower::tracing::future::{span_end, ResponseFutureInner};
use crate::middleware_tower::tracing::{TracingResponseBody, TracingResponseFuture};
use crate::pipeline::body::{from_handler, CountedBody, GatedBody, GuardedBody, PipelineBody};
use crate::task::Poll;
use crate::telemetry::{Measurement, SpanStatus};
use vstd::prelude::*;

verus! {

/// The future of a request that the stages below authentication work on: `F`
/// is the future of the handler and `T` the timer of the timeout stage.
pub type Guarded<F, T> = CacheResponseFuture<TimeoutResponseFuture<F, T>>;

/// The future of the authentication stage and what it wraps.
pub type Gated<F, T> = AuthResponseFuture<Guarded<F, T>>;

/// The future of the metrics stage and what it wraps.
pub type Counted<F, T> = MetricsResponseFuture<Gated<F, T>>;

/// The future that a call of the pipeline returns.
pub type PipelineFuture<F, T> = TracingResponseFuture<Counted<F, T>>;

/// What the authentication stage of a pipeline's future holds.
pub open spec fn gate_of<F, T>(future: PipelineFuture<F, T>) -> Gated<F, T>
    recommends
        future.inner is Future,
{
    future.inner->future.inner
}

/// The race of the handler's future against the timer, in the future of a
/// request that reached the handler.
pub open spec fn racing<F, T>(future: PipelineFuture<F, T>) -> TimeoutResponseFuture<F, T>
    recommends
        future.inner is Future,
        gate_of(future) is Future,
{
    gate_of(future)->future.inner
}

/// The outcome of the handler as it leaves the pipeline: an error as it is, a
/// response with the same status, headers and body.
pub open spec fn handed_on<B, E>(outcome: Result<Response<B>, E>) -> Result<
    Response<PipelineBody<B>>,
    E,
> {
    match outcome {
        Err(e) => Err(e),
        Ok(response) => Ok(
            Response {
                status: response.status,
                headers: response.headers,
                body: from_handler(response.body),
            },
        ),
    }
}

/// The answer of the pipeline to a request without a credential: status 401,
/// a plain-text content type, and the text of the authentication stage.
pub open spec fn is_rejection<B>(response: Response<PipelineBody<B>>) -> bool {
    &&& response.status == UNAUTHORIZED
    &&& header_map_contents(response.headers) == plain_text_headers()
    &&& response.body matches TracingResponseBody::Body { body: counted }
    &&& counted.inner matches AuthResponseBody::Unauthorized { body: text }
    &&& text@ == ascii_bytes(crate::middleware_tower::auth::body::BODY@)
}

/// The answer of the pipeline to a request whose deadline has passed: status
/// 408, a plain-text content type, and the text of the timeout stage.
pub open spec fn is_timeout<B>(response: Response<PipelineBody<B>>) -> bool {
    &&& response.status == REQUEST_TIMEOUT
    &&& header_map_contents(response.headers) == plain_text_headers()
    &&& response.body matches TracingResponseBody::Body { body: counted }
    &&& counted.inner matches AuthResponseBody::Body { body: guarded }
    &&& guarded.inner matches TimeoutResponseBody::TimeoutRespBody { body: text }
    &&& text@ == ascii_bytes(crate::middleware_tower::timeout::body::BODY@)
}

/// What a poll of the pipeline yields while the handler is at work: the 408
/// response once the deadline has passed, and nothing yet before that.
pub open spec fn expired<B, E>(
    fired: Poll<()>,
    polled: Poll<Result<Response<PipelineBody<B>>, E>>,
) -> bool {
    match fired {
        Poll::Ready(_) => polled matches Poll::Ready(Ok(response)) && is_timeout(response),
        Poll::Pending => polled is Pending,
    }
}

/// The reason for which `poll` may call its closures: the request of this
/// future reached the handler, and the closures can be called on the handler's
/// future and on the timer that the future holds.
pub open spec fn can_poll<F, T, P, Q, R>(
    future: PipelineFuture<F, T>,
    poll_handler: P,
    poll_sleep: Q,
) -> bool where P: FnOnce(&mut F) -> R, Q: FnOnce(&mut T) -> Poll<()> {
    future.inner is Future ==> (gate_of(future) matches AuthResponseFuture::Future {
        future: guarded,
    } ==> {
        &&& forall|inner: &mut F|
            *inner == guarded.inner.inner ==> call_requires(poll_handler, (inner,))
        &&& forall|timer: &mut T|
            *timer == guarded.inner.sleep ==> call_requires(poll_sleep, (timer,))
    })
}

/// Polls the future of a request once.
///
/// The result holds what the poll yields, the report of the metrics stage if
/// one was written, and the end of the trace.
///
/// A request that was stopped at the authentication stage is answered at
/// once with the 401 response; neither closure is called. For a request that
/// reached the handler, the handler's future is polled once through
/// `poll_handler`. Its outcome, if there is one, leaves the pipeline as it is:
/// an error unchanged, a response with the same status, headers and body. If
/// there is none yet the timer is polled through `poll_sleep`, and once the
/// deadline has passed the answer is the 408 response.
///
/// Whenever the poll yields an outcome, whichever stage it came from, one
/// request is counted under the method of the request, and the trace ends: as
/// failed on an error and on a status from 400 to 599, as succeeded otherwise.
pub fn poll<F, T, B, E, P, Q>(
    future: &mut PipelineFuture<F, T>,
    poll_handler: P,
    poll_sleep: Q,
) -> (polled: (
    Poll<Result<Response<PipelineBody<B>>, E>>,
    Option<Measurement>,
    Option<SpanStatus>,
)) where P: FnOnce(&mut F) -> Poll<Result<Response<B>, E>>, Q: FnOnce(&mut T) -> Poll<()>

    requires
        can_poll(*old(future), poll_handler, poll_sleep),
    ensures
        polled.2 == span_end(polled.0),
        final(future).method == old(future).method,
        final(future).uri == old(future).uri,
        old(future).inner is Future ==> {
            &&& final(future).inner is Future
            &&& polled.0 is Ready ==> counts_once(polled.1, old(future).inner->future.method@)
            &&& polled.0 is Pending ==> polled.1 == old(future).inner->future.report
            &&& final(future).inner->future.method == old(future).inner->future.method
            &&& gate_of(*old(future)) is UnauthorizedFuture ==> {
                &&& gate_of(*final(future)) is UnauthorizedFuture
                &&& polled.0 matches Poll::Ready(Ok(response))
                &&& is_rejection(response)
            }
            &&& gate_of(*old(future)) matches AuthResponseFuture::Future { future: guarded }
                ==> exists|inner: &mut F, yielded: Poll<Result<Response<B>, E>>|
                {
                    &&& *inner == guarded.inner.inner
                    &&& gate_of(*final(future)) is Future
                    &&& racing(*final(future)).inner == *final(inner)
                    &&& racing(*final(future)).timeout == guarded.inner.timeout
                    &&& #[trigger] call_ensures(poll_handler, (inner,), yielded)
                    &&& yielded matches Poll::Ready(outcome) ==> {
                        &&& polled.0 == Poll::Ready(handed_on(outcome))
                        &&& racing(*final(future)).sleep == guarded.inner.sleep
                    }
                    &&& yielded is Pending ==> exists|timer: &mut T, fired: Poll<()>|
                        {
                            &&& *timer == guarded.inner.sleep
                            &&& *final(timer) == racing(*final(future)).sleep
                            &&& #[trigger] call_ensures(poll_sleep, (timer,), fired)
                            &&& expired(fired, polled.0)
                        }
                }
        },
{
    let ghost before = *future;
    let through_timeout = |stage: &mut TimeoutResponseFuture<F, T>| -> (out: Poll<
        Result<Response<TimeoutResponseBody<B>>, E>,
    >)
        requires
            before.inner is Future,
            gate_of(before) == (AuthResponseFuture::Future {
                future: CacheResponseFuture { inner: *stage },
            }),
        ensures
            final(stage).timeout == old(stage).timeout,
            exists|inner: &mut F, yielded: Poll<Result<Response<B>, E>>|
                {
                    &&& *inner == old(stage).inner
                    &&& *final(inner) == final(stage).inner
                    &&& #[trigger] call_ensures(poll_handler, (inner,), yielded)
                    &&& yielded is Ready ==> {
                        &&& out == crate::middleware_tower::timeout::future::forwarded(yielded)
                        &&& final(stage).sleep == old(stage).sleep
                    }
                    &&& yielded is Pending ==> exists|timer: &mut T, fired: Poll<()>|
                        {
                            &&& *timer == old(stage).sleep
                            &&& *final(timer) == final(stage).sleep
                            &&& #[trigger] call_ensures(poll_sleep, (timer,), fired)
                            &&& timed_out(fired, out)
                        }
                },
        { stage.poll(poll_handler, poll_sleep) };
    let through_cache = |stage: &mut Guarded<F, T>| -> (out: Poll<
        Result<Response<GuardedBody<B>>, E>,
    >)
        requires
            before.inner is Future,
            gate_of(before) == (AuthResponseFuture::Future { future: *stage }),
        ensures
            exists|
                below: &mut TimeoutResponseFuture<F, T>,
                yielded: Poll<Result<Response<TimeoutResponseBody<B>>, E>>,
            |
                {
                    &&& *below == old(stage).inner
                    &&& *final(below) == final(stage).inner
                    &&& #[trigger] call_ensures(through_timeout, (below,), yielded)
                    &&& out == crate::middleware_tower::cache::future::forwarded(yielded)
                },
        { stage.poll(through_timeout) };
    let through_auth = |stage: &mut Gated<F, T>| -> (out: Poll<
        Result<Response<GatedBody<B>>, E>,
    >)
        requires
            before.inner is Future,
            gate_of(before) == *stage,
        ensures
            *old(stage) is UnauthorizedFuture ==> {
                &&& *final(stage) is UnauthorizedFuture
                &&& out matches Poll::Ready(Ok(response))
                &&& crate::middleware_tower::auth::body::is_unauthorized_response(response)
            },
            *old(stage) matches AuthResponseFuture::Future { future } ==> exists|
                below: &mut Guarded<F, T>,
                yielded: Poll<Result<Response<GuardedBody<B>>, E>>,
            |
                {
                    &&& *below == future
                    &&& *final(stage) == (AuthResponseFuture::Future { future: *final(below) })
                    &&& #[trigger] call_ensures(through_cache, (below,), yielded)
                    &&& out == crate::middleware_tower::auth::future::forwarded(yielded)
                },
        { stage.poll(through_cache) };
    let through_metrics = |stage: &mut Counted<F, T>| -> (out:
        Poll<Result<Response<CountedBody<B>>, E>>)
        requires
            before.inner == (ResponseFutureInner::Future { future: *stage }),
        ensures
            final(stage).method == old(stage).method,
            out is Ready ==> counts_once(final(stage).report, old(stage).method@),
            out is Pending ==> final(stage).report == old(stage).report,
            exists|
                below: &mut Gated<F, T>,
                yielded: Poll<Result<Response<GatedBody<B>>, E>>,
            |
                {
                    &&& *below == old(stage).inner
                    &&& *final(below) == final(stage).inner
                    &&& #[trigger] call_ensures(through_auth, (below,), yielded)
                    &&& out == crate::middleware_tower::metrics::future::forwarded(yielded)
                },
        { stage.poll(through_auth) };
    let (outcome, end) = future.poll(through_metrics);
    let report = match &mut future.inner {
        ResponseFutureInner::Future { future: metrics } => metrics.take_report(),
        ResponseFutureInner::PayloadExample => None,
    };
    (outcome, report, end)
}

} // verus!
