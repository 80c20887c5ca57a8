//! The body of a response that left the pipeline.

use crate::body::{passed_on, Frame, SizeHint};
use crate::middleware_tower::auth::AuthResponseBody;
use crate::middleware_tower::cache::CacheResponseBody;
use crate::middleware_tower::metrics::MetricsResponseBody;
use crate::middleware_tower::timeout::TimeoutResponseBody;
use crate::middleware_tower::tracing::TracingResponseBody;
use crate::task::Poll;
use vstd::prelude::*;

verus! {

/// The body of a response that left the stages below authentication.
pub type GuardedBody<B> = CacheResponseBody<TimeoutResponseBody<B>>;

/// The body of a response that left the authentication stage.
pub type GatedBody<B> = AuthResponseBody<GuardedBody<B>>;

/// The body of a response that left the metrics stage.
pub type CountedBody<B> = MetricsResponseBody<GatedBody<B>>;

/// The body of a response that left the pipeline.
pub type PipelineBody<B> = TracingResponseBody<CountedBody<B>>;

/// The body of the handler's response as it leaves the pipeline: marked by
/// every stage as coming from below, and otherwise as it was.
pub open spec fn from_handler<B>(body: B) -> PipelineBody<B> {
    from_gate(
        AuthResponseBody::Body {
            body: CacheResponseBody { inner: TimeoutResponseBody::Body { body } },
        },
    )
}

/// A body that left the authentication stage as it leaves the pipeline.
pub open spec fn from_gate<B>(body: GatedBody<B>) -> PipelineBody<B> {
    TracingResponseBody::Body { body: MetricsResponseBody { inner: body } }
}

/// Where the body of a response that left the pipeline comes from: a stage
/// wrote it, and `text` is what is left of it, or it is the body of the
/// handler's response.
pub enum Origin<B> {
    Stage { text: Seq<u8> },
    Handler { body: B },
}

/// Where a body that left the pipeline comes from.
pub open spec fn origin<B>(body: PipelineBody<B>) -> Origin<B> {
    match body {
        TracingResponseBody::TracingCustomBody { body: text } => Origin::Stage { text: text@ },
        TracingResponseBody::Body { body: counted } => match counted.inner {
            AuthResponseBody::Unauthorized { body: text } => Origin::Stage { text: text@ },
            AuthResponseBody::Body { body: guarded } => match guarded.inner {
                TimeoutResponseBody::TimeoutRespBody { body: text } => Origin::Stage {
                    text: text@,
                },
                TimeoutResponseBody::Body { body } => Origin::Handler { body },
            },
        },
    }
}

/// A piece that three stages marked as coming from below, with one mark.
pub open spec fn flattened<D, E>(
    polled: Poll<Option<Result<Frame<Frame<Frame<D>>>, E>>>,
) -> Poll<Option<Result<Frame<D>, E>>> {
    match polled {
        Poll::Pending => Poll::Pending,
        Poll::Ready(None) => Poll::Ready(None),
        Poll::Ready(Some(Err(e))) => Poll::Ready(Some(Err(e))),
        Poll::Ready(Some(Ok(Frame::Data(bytes)))) => Poll::Ready(Some(Ok(Frame::Data(bytes)))),
        Poll::Ready(Some(Ok(Frame::Upstream(Frame::Data(bytes))))) => Poll::Ready(
            Some(Ok(Frame::Data(bytes))),
        ),
        Poll::Ready(Some(Ok(Frame::Upstream(Frame::Upstream(Frame::Data(bytes)))))) => Poll::Ready(
            Some(Ok(Frame::Data(bytes))),
        ),
        Poll::Ready(Some(Ok(Frame::Upstream(Frame::Upstream(Frame::Upstream(piece)))))) => {
            Poll::Ready(Some(Ok(Frame::Upstream(piece))))
        },
    }
}

/// Puts one mark in the place of three.
fn flatten<D, E>(polled: Poll<Option<Result<Frame<Frame<Frame<D>>>, E>>>) -> (flat: Poll<
    Option<Result<Frame<D>, E>>,
>)
    ensures
        flat == flattened(polled),
{
    match polled {
        Poll::Pending => Poll::Pending,
        Poll::Ready(None) => Poll::Ready(None),
        Poll::Ready(Some(Err(e))) => Poll::Ready(Some(Err(e))),
        Poll::Ready(Some(Ok(Frame::Data(bytes)))) => Poll::Ready(Some(Ok(Frame::Data(bytes)))),
        Poll::Ready(Some(Ok(Frame::Upstream(Frame::Data(bytes))))) => Poll::Ready(
            Some(Ok(Frame::Data(bytes))),
        ),
        Poll::Ready(Some(Ok(Frame::Upstream(Frame::Upstream(Frame::Data(bytes)))))) => Poll::Ready(
            Some(Ok(Frame::Data(bytes))),
        ),
        Poll::Ready(Some(Ok(Frame::Upstream(Frame::Upstream(Frame::Upstream(piece)))))) => {
            Poll::Ready(Some(Ok(Frame::Upstream(piece))))
        },
    }
}

/// The next piece of a body that left the pipeline.
///
/// A text that a stage wrote comes in one piece, and the body ends after it;
/// `poll_upstream` is not called. The body of the handler's response is polled
/// once through `poll_upstream`, and what that yields is passed on untouched.
pub fn poll_frame<B, D, E, P>(body: &mut PipelineBody<B>, poll_upstream: P) -> (polled: Poll<
    Option<Result<Frame<D>, E>>,
>) where P: FnOnce(&mut B) -> Poll<Option<Result<D, E>>>
    requires
        forall|upstream: &mut B|
            origin(*old(body)) == (Origin::Handler { body: *upstream }) ==> call_requires(
                poll_upstream,
                (upstream,),
            ),
    ensures
        origin(*old(body)) matches Origin::Stage { text } ==> {
            &&& origin(*final(body)) == (Origin::<B>::Stage { text: Seq::<u8>::empty() })
            &&& text.len() == 0 ==> polled == Poll::<Option<Result<Frame<D>, E>>>::Ready(None)
            &&& text.len() > 0 ==> (polled matches Poll::Ready(Some(Ok(Frame::Data(bytes))))
                && bytes@ == text)
        },
        origin(*old(body)) matches Origin::Handler { body: below } ==> exists|
            upstream: &mut B,
            yielded: Poll<Option<Result<D, E>>>,
        |
            {
                &&& *upstream == below
                &&& origin(*final(body)) == (Origin::Handler { body: *final(upstream) })
                &&& #[trigger] call_ensures(poll_upstream, (upstream,), yielded)
                &&& polled == passed_on(yielded)
            },
{
    let ghost before = *body;
    let through_timeout = |stage: &mut TimeoutResponseBody<B>| -> (out: Poll<
        Option<Result<Frame<D>, E>>,
    >)
        requires
            before == from_gate::<B>(
                AuthResponseBody::Body { body: CacheResponseBody { inner: *stage } },
            ),
        ensures
            *old(stage) matches TimeoutResponseBody::TimeoutRespBody { body: text } ==> {
                &&& *final(stage) matches TimeoutResponseBody::TimeoutRespBody { body: after }
                &&& after@ == Seq::<u8>::empty()
                &&& text@.len() == 0 ==> out == Poll::<Option<Result<Frame<D>, E>>>::Ready(None)
                &&& text@.len() > 0 ==> (out matches Poll::Ready(Some(Ok(Frame::Data(bytes))))
                    && bytes@ == text@)
            },
            *old(stage) matches TimeoutResponseBody::Body { body: below } ==> exists|
                upstream: &mut B,
                yielded: Poll<Option<Result<D, E>>>,
            |
                {
                    &&& *upstream == below
                    &&& *final(stage) == (TimeoutResponseBody::Body { body: *final(upstream) })
                    &&& #[trigger] call_ensures(poll_upstream, (upstream,), yielded)
                    &&& out == passed_on(yielded)
                },
        { stage.poll_frame(poll_upstream) };
    let through_cache = |stage: &mut GuardedBody<B>| -> (out: Poll<Option<Result<Frame<D>, E>>>)
        requires
            before == from_gate::<B>(AuthResponseBody::Body { body: *stage }),
        ensures
            exists|below: &mut TimeoutResponseBody<B>|
                {
                    &&& *below == old(stage).inner
                    &&& *final(below) == final(stage).inner
                    &&& #[trigger] call_ensures(through_timeout, (below,), out)
                },
        { stage.poll_frame(through_timeout) };
    let through_auth = |stage: &mut GatedBody<B>| -> (out: Poll<
        Option<Result<Frame<Frame<D>>, E>>,
    >)
        requires
            before == from_gate::<B>(*stage),
        ensures
            *old(stage) matches AuthResponseBody::Unauthorized { body: text } ==> {
                &&& *final(stage) matches AuthResponseBody::Unauthorized { body: after }
                &&& after@ == Seq::<u8>::empty()
                &&& text@.len() == 0 ==> out == Poll::<Option<Result<Frame<Frame<D>>, E>>>::Ready(
                    None,
                )
                &&& text@.len() > 0 ==> (out matches Poll::Ready(Some(Ok(Frame::Data(bytes))))
                    && bytes@ == text@)
            },
            *old(stage) matches AuthResponseBody::Body { body: guarded } ==> exists|
                below: &mut GuardedBody<B>,
                yielded: Poll<Option<Result<Frame<D>, E>>>,
            |
                {
                    &&& *below == guarded
                    &&& *final(stage) == (AuthResponseBody::Body { body: *final(below) })
                    &&& #[trigger] call_ensures(through_cache, (below,), yielded)
                    &&& out == passed_on(yielded)
                },
        { stage.poll_frame(through_cache) };
    let through_metrics = |stage: &mut CountedBody<B>| -> (out:
        Poll<Option<Result<Frame<Frame<D>>, E>>>)
        requires
            before == (TracingResponseBody::Body { body: *stage }),
        ensures
            exists|below: &mut GatedBody<B>|
                {
                    &&& *below == old(stage).inner
                    &&& *final(below) == final(stage).inner
                    &&& #[trigger] call_ensures(through_auth, (below,), out)
                },
        { stage.poll_frame(through_auth) };
    let nested = body.poll_frame(through_metrics);
    flatten(nested)
}

/// Whether a body that left the pipeline has produced all of its bytes. A
/// text that a stage wrote is at its end once it has been handed out; the
/// body of the handler's response answers for itself, through `upstream`.
pub fn is_end_stream<B, Q>(body: &PipelineBody<B>, upstream: Q) -> (at_end: bool) where
    Q: FnOnce(&B) -> bool,

    requires
        origin(*body) matches Origin::Handler { body: below } ==> call_requires(
            upstream,
            (&below,),
        ),
    ensures
        origin(*body) matches Origin::Stage { text } ==> at_end == (text.len() == 0),
        origin(*body) matches Origin::Handler { body: below } ==> call_ensures(
            upstream,
            (&below,),
            at_end,
        ),
{
    let through_timeout = |stage: &TimeoutResponseBody<B>| -> (out: bool)
        requires
            *body == from_gate::<B>(
                AuthResponseBody::Body { body: CacheResponseBody { inner: *stage } },
            ),
        ensures
            stage matches TimeoutResponseBody::TimeoutRespBody { body: text } ==> out == (
            text@.len() == 0),
            stage matches TimeoutResponseBody::Body { body: below } ==> call_ensures(
                upstream,
                (&below,),
                out,
            ),
        { stage.is_end_stream(upstream) };
    let through_cache = |stage: &GuardedBody<B>| -> (out: bool)
        requires
            *body == from_gate::<B>(AuthResponseBody::Body { body: *stage }),
        ensures
            call_ensures(through_timeout, (&stage.inner,), out),
        { stage.is_end_stream(through_timeout) };
    let through_auth = |stage: &GatedBody<B>| -> (out: bool)
        requires
            *body == from_gate::<B>(*stage),
        ensures
            stage matches AuthResponseBody::Unauthorized { body: text } ==> out == (text@.len()
                == 0),
            stage matches AuthResponseBody::Body { body: guarded } ==> call_ensures(
                through_cache,
                (&guarded,),
                out,
            ),
        { stage.is_end_stream(through_cache) };
    let through_metrics = |stage: &CountedBody<B>| -> (out: bool)
        requires
            *body == (TracingResponseBody::Body { body: *stage }),
        ensures
            call_ensures(through_auth, (&stage.inner,), out),
        { stage.is_end_stream(through_auth) };
    body.is_end_stream(through_metrics)
}

/// How many bytes a body that left the pipeline has yet to produce: exactly
/// what is left of a text that a stage wrote, or what the body of the
/// handler's response says of itself through `upstream`.
pub fn size_hint<B, Q>(body: &PipelineBody<B>, upstream: Q) -> (hint: SizeHint) where
    Q: FnOnce(&B) -> SizeHint,

    requires
        origin(*body) matches Origin::Handler { body: below } ==> call_requires(
            upstream,
            (&below,),
        ),
    ensures
        origin(*body) matches Origin::Stage { text } ==> hint.lower == text.len() && hint.upper
            == Some(hint.lower),
        origin(*body) matches Origin::Handler { body: below } ==> call_ensures(
            upstream,
            (&below,),
            hint,
        ),
{
    let through_timeout = |stage: &TimeoutResponseBody<B>| -> (out: SizeHint)
        requires
            *body == from_gate::<B>(
                AuthResponseBody::Body { body: CacheResponseBody { inner: *stage } },
            ),
        ensures
            stage matches TimeoutResponseBody::TimeoutRespBody { body: text } ==> out.lower
                == text@.len() && out.upper == Some(out.lower),
            stage matches TimeoutResponseBody::Body { body: below } ==> call_ensures(
                upstream,
                (&below,),
                out,
            ),
        { stage.size_hint(upstream) };
    let through_cache = |stage: &GuardedBody<B>| -> (out: SizeHint)
        requires
            *body == from_gate::<B>(AuthResponseBody::Body { body: *stage }),
        ensures
            call_ensures(through_timeout, (&stage.inner,), out),
        { stage.size_hint(through_timeout) };
    let through_auth = |stage: &GatedBody<B>| -> (out: SizeHint)
        requires
            *body == from_gate::<B>(*stage),
        ensures
            stage matches AuthResponseBody::Unauthorized { body: text } ==> out.lower
                == text@.len() && out.upper == Some(out.lower),
            stage matches AuthResponseBody::Body { body: guarded } ==> call_ensures(
                through_cache,
                (&guarded,),
                out,
            ),
        { stage.size_hint(through_cache) };
    let through_metrics = |stage: &CountedBody<B>| -> (out: SizeHint)
        requires
            *body == (TracingResponseBody::Body { body: *stage }),
        ensures
            call_ensures(through_auth, (&stage.inner,), out),
        { stage.size_hint(through_auth) };
    body.size_hint(through_metrics)
}

} // verus!
