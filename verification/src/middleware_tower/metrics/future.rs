//! The future that a call of the metrics service returns.

use crate::message::Response;
use crate::middleware_tower::metrics::body::MetricsResponseBody;
use crate::task::Poll;
use crate::telemetry::Measurement;
use crate::time::instant_elapsed;
use std::time::Instant;
use vstd::prelude::*;

verus! {

/// The future of the stage below, with the method of the request, the moment
/// at which the request came in, and, once the request has been answered, the
/// report of it.
#[derive(Debug)]
pub struct MetricsResponseFuture<F> {
    pub inner: F,
    pub method: String,
    pub start_instant: Instant,
    pub report: Option<Measurement>,
}

/// What the stage makes of the outcome of the stage below: the same outcome,
/// around the same body.
pub open spec fn forwarded<B, E>(yielded: Poll<Result<Response<B>, E>>) -> Poll<
    Result<Response<MetricsResponseBody<B>>, E>,
> {
    match yielded {
        Poll::Pending => Poll::Pending,
        Poll::Ready(Err(e)) => Poll::Ready(Err(e)),
        Poll::Ready(Ok(response)) => Poll::Ready(
            Ok(
                Response {
                    status: response.status,
                    headers: response.headers,
                    body: MetricsResponseBody { inner: response.body },
                },
            ),
        ),
    }
}

/// The report of one request under `method`.
pub open spec fn counts_once(report: Option<Measurement>, method: Seq<char>) -> bool {
    report matches Some(measurement) && measurement.method@ == method && measurement.increment
        == 1
}

impl<F> MetricsResponseFuture<F> {
    /// The future `future` of the stage below, for a request with the given
    /// method that came in at `start_instant`. Nothing is reported yet.
    pub fn new(future: F, method: String, start_instant: Instant) -> (wrapped: Self)
        ensures
            wrapped == (MetricsResponseFuture {
                inner: future,
                method,
                start_instant,
                report: None,
            }),
    {
        MetricsResponseFuture { inner: future, method, start_instant, report: None }
    }

    /// Polls the future once: the future of the stage below is polled once
    /// through `poll_inner`, and its outcome is handed on, a response with the
    /// same status, headers and body. Once the stage below has finished, with
    /// a response of any status or with an error, the report is written: one
    /// request under the method, with the time since the request came in.
    /// While the stage below is pending the report stays as it was.
    pub fn poll<B, E, P>(&mut self, poll_inner: P) -> (polled: Poll<
        Result<Response<MetricsResponseBody<B>>, E>,
    >) where P: FnOnce(&mut F) -> Poll<Result<Response<B>, E>>
        requires
            forall|inner: &mut F| *inner == old(self).inner ==> call_requires(poll_inner, (inner,)),
        ensures
            final(self).method == old(self).method,
            final(self).start_instant == old(self).start_instant,
            polled is Ready ==> counts_once(final(self).report, old(self).method@),
            polled is Pending ==> final(self).report == old(self).report,
            exists|inner: &mut F, yielded: Poll<Result<Response<B>, E>>|
                {
                    &&& *inner == old(self).inner
                    &&& *final(inner) == final(self).inner
                    &&& #[trigger] call_ensures(poll_inner, (inner,), yielded)
                    &&& polled == forwarded(yielded)
                },
    {
        let outcome = match poll_inner(&mut self.inner) {
            Poll::Pending => {
                return Poll::Pending;
            },
            Poll::Ready(Err(e)) => Err(e),
            Poll::Ready(Ok(response)) => Ok(
                response.map(|body: B| -> (wrapped: MetricsResponseBody<B>)
                    ensures wrapped == (MetricsResponseBody { inner: body }),
                    { MetricsResponseBody::new(body) }),
            ),
        };
        self.report = Some(
            Measurement {
                method: self.method.clone(),
                increment: 1,
                elapsed: instant_elapsed(&self.start_instant),
            },
        );
        Poll::Ready(outcome)
    }

    /// Hands out the report of the request, if it has been written and not
    /// been handed out yet.
    pub fn take_report(&mut self) -> (report: Option<Measurement>)
        ensures
            report == old(self).report,
            final(self).report is None,
            final(self).inner == old(self).inner,
            final(self).method == old(self).method,
            final(self).start_instant == old(self).start_instant,
    {
        self.report.take()
    }
}

} // verus!
