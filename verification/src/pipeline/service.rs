//! The stack of services, and what a call of it does.

use crate::headers::has_header;
use crate::message::Request;
use crate::middleware_tower::auth::future::AuthResponseFuture;
use crate::middleware_tower::auth::service::CREDENTIAL_HEADER;
use crate::middleware_tower::auth::AuthService;
use crate::middleware_tower::cache::{CacheResponseFuture, CacheService};
use crate::middleware_tower::metrics::{MetricsResponseFuture, MetricsService};
use crate::middleware_tower::timeout::{TimeoutResponseFuture, TimeoutService};
use crate::middleware_tower::tracing::TracingService;
use crate::pipeline::future::{gate_of, Gated as GatedFuture, Guarded, PipelineFuture};
use crate::task::Poll;
use std::time::Duration;
use vstd::prelude::*;

verus! {

/// The stage next to the handler: the timeout.
pub type Limited<H> = TimeoutService<H>;

/// The cache stage and what it wraps.
pub type Cached<H> = CacheService<Limited<H>>;

/// The authentication stage and what it wraps.
pub type Gated<H> = AuthService<Cached<H>>;

/// The metrics stage and what it wraps.
pub type Counted<H> = MetricsService<Gated<H>>;

/// The stages around a handler `H`.
pub type Pipeline<H> = TracingService<Counted<H>>;

/// The handler at the core of a pipeline.
pub open spec fn handler_of<H>(stack: Pipeline<H>) -> H {
    stack.inner.inner.inner.inner.inner
}

/// The time limit of a pipeline.
pub open spec fn timeout_of<H>(stack: Pipeline<H>) -> Duration {
    stack.inner.inner.inner.inner.timeout
}

/// The pipeline around `handler` with the given time limit.
pub fn pipeline<H>(handler: H, timeout: Duration) -> (stack: Pipeline<H>)
    ensures
        handler_of(stack) == handler,
        timeout_of(stack) == timeout,
{
    TracingService::new(
        MetricsService::new(
            AuthService::new(CacheService::new(TimeoutService::new(handler, timeout))),
        ),
    )
}

/// Sends one request into the pipeline.
///
/// The future returned carries the method and the URI of the request for its
/// trace and its method for the metrics. A request without a credential stops
/// at the authentication stage: no timer is started, the handler is not
/// called, and the pipeline is left as it was. A request with a credential
/// reaches the handler exactly once, through `handle` and as it came, after a
/// timer set to the time limit of the pipeline was started through
/// `start_timer`.
pub fn call<H, B, F, T, M, C>(
    stack: &mut Pipeline<H>,
    req: Request<B>,
    start_timer: M,
    handle: C,
) -> (future: PipelineFuture<F, T>) where
    M: FnOnce(Duration) -> T,
    C: FnOnce(&mut H, Request<B>) -> F,

    requires
        has_header(req.headers, CREDENTIAL_HEADER@) ==> {
            &&& call_requires(start_timer, (timeout_of(*old(stack)),))
            &&& forall|handler: &mut H|
                *handler == handler_of(*old(stack)) ==> call_requires(handle, (handler, req))
        },
    ensures
        future.method@ == req.method@,
        future.uri@ == req.uri@,
        future.inner is Future,
        future.inner->future.method@ == req.method@,
        timeout_of(*final(stack)) == timeout_of(*old(stack)),
        !has_header(req.headers, CREDENTIAL_HEADER@) ==> {
            &&& gate_of(future) is UnauthorizedFuture
            &&& handler_of(*final(stack)) == handler_of(*old(stack))
        },
        has_header(req.headers, CREDENTIAL_HEADER@) ==> exists|handler: &mut H, given: F, timer: T|
            {
                &&& *handler == handler_of(*old(stack))
                &&& *final(handler) == handler_of(*final(stack))
                &&& #[trigger] call_ensures(handle, (handler, req), given)
                &&& #[trigger] call_ensures(start_timer, (timeout_of(*old(stack)),), timer)
                &&& gate_of(future) == (AuthResponseFuture::Future {
                    future: CacheResponseFuture {
                        inner: TimeoutResponseFuture {
                            inner: given,
                            sleep: timer,
                            timeout: timeout_of(*old(stack)),
                        },
                    },
                })
            },
{
    let ghost before = *stack;
    let ghost request = req;
    let through_timeout = |stage: &mut TimeoutService<H>, r: Request<B>| -> (out:
        TimeoutResponseFuture<F, T>)
        requires
            r == request,
            *stage == before.inner.inner.inner.inner,
            has_header(request.headers, CREDENTIAL_HEADER@),
        ensures
            final(stage).timeout == old(stage).timeout,
            out.timeout == old(stage).timeout,
            call_ensures(start_timer, (old(stage).timeout,), out.sleep),
            exists|handler: &mut H, given: F|
                {
                    &&& *handler == old(stage).inner
                    &&& *final(handler) == final(stage).inner
                    &&& out.inner == given
                    &&& #[trigger] call_ensures(handle, (handler, r), given)
                },
        { stage.call(r, start_timer, handle) };
    let through_cache = |stage: &mut Cached<H>, r: Request<B>| -> (out: Guarded<F, T>)
        requires
            r == request,
            *stage == before.inner.inner.inner,
            has_header(request.headers, CREDENTIAL_HEADER@),
        ensures
            exists|below: &mut TimeoutService<H>, given: TimeoutResponseFuture<F, T>|
                {
                    &&& *below == old(stage).inner
                    &&& *final(below) == final(stage).inner
                    &&& out.inner == given
                    &&& #[trigger] call_ensures(through_timeout, (below, r), given)
                },
        { stage.call(r, through_timeout) };
    let through_auth = |stage: &mut Gated<H>, r: Request<B>| -> (out: GatedFuture<F, T>)
        requires
            r == request,
            *stage == before.inner.inner,
        ensures
            !has_header(r.headers, CREDENTIAL_HEADER@) ==> {
                &&& out is UnauthorizedFuture
                &&& final(stage).inner == old(stage).inner
            },
            has_header(r.headers, CREDENTIAL_HEADER@) ==> exists|
                below: &mut Cached<H>,
                given: Guarded<F, T>,
            |
                {
                    &&& *below == old(stage).inner
                    &&& *final(below) == final(stage).inner
                    &&& out == (AuthResponseFuture::Future { future: given })
                    &&& #[trigger] call_ensures(through_cache, (below, r), given)
                },
        { stage.call(r, through_cache) };
    let through_metrics = |stage: &mut Counted<H>, r: Request<B>| -> (out: MetricsResponseFuture<
        GatedFuture<F, T>,
    >)
        requires
            r == request,
            *stage == before.inner,
        ensures
            out.method@ == r.method@,
            exists|below: &mut Gated<H>, given: GatedFuture<F, T>|
                {
                    &&& *below == old(stage).inner
                    &&& *final(below) == final(stage).inner
                    &&& out.inner == given
                    &&& #[trigger] call_ensures(through_auth, (below, r), given)
                },
        { stage.call(r, through_auth) };
    stack.call(req, through_metrics)
}

/// Whether the pipeline can take a request: exactly what the handler says
/// of itself, asked once through `ready`.
pub fn poll_ready<H, E, P>(stack: &mut Pipeline<H>, ready: P) -> (polled: Poll<Result<(), E>>) where
    P: FnOnce(&mut H) -> Poll<Result<(), E>>,

    requires
        forall|handler: &mut H|
            *handler == handler_of(*old(stack)) ==> call_requires(ready, (handler,)),
    ensures
        timeout_of(*final(stack)) == timeout_of(*old(stack)),
        exists|handler: &mut H|
            {
                &&& *handler == handler_of(*old(stack))
                &&& *final(handler) == handler_of(*final(stack))
                &&& #[trigger] call_ensures(ready, (handler,), polled)
            },
{
    let ghost before = *stack;
    let through_timeout = |stage: &mut TimeoutService<H>| -> (out: Poll<Result<(), E>>)
        requires
            *stage == before.inner.inner.inner.inner,
        ensures
            final(stage).timeout == old(stage).timeout,
            exists|handler: &mut H|
                {
                    &&& *handler == old(stage).inner
                    &&& *final(handler) == final(stage).inner
                    &&& #[trigger] call_ensures(ready, (handler,), out)
                },
        { stage.poll_ready(ready) };
    let through_cache = |stage: &mut Cached<H>| -> (out: Poll<Result<(), E>>)
        requires
            *stage == before.inner.inner.inner,
        ensures
            exists|below: &mut TimeoutService<H>|
                {
                    &&& *below == old(stage).inner
                    &&& *final(below) == final(stage).inner
                    &&& #[trigger] call_ensures(through_timeout, (below,), out)
                },
        { stage.poll_ready(through_timeout) };
    let through_auth = |stage: &mut Gated<H>| -> (out: Poll<
        Result<(), E>,
    >)
        requires
            *stage == before.inner.inner,
        ensures
            exists|below: &mut Cached<H>|
                {
                    &&& *below == old(stage).inner
                    &&& *final(below) == final(stage).inner
                    &&& #[trigger] call_ensures(through_cache, (below,), out)
                },
        { stage.poll_ready(through_cache) };
    let through_metrics = |
        stage: &mut Counted<H>,
    | -> (out: Poll<Result<(), E>>)
        requires
            *stage == before.inner,
        ensures
            exists|below: &mut Gated<H>|
                {
                    &&& *below == old(stage).inner
                    &&& *final(below) == final(stage).inner
                    &&& #[trigger] call_ensures(through_auth, (below,), out)
                },
        { stage.poll_ready(through_auth) };
    stack.poll_ready(through_metrics)
}

} // verus!
