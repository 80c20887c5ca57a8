//! The body of a response that left the tracing stage.

use crate::body::{pass_on, passed_on, Frame, Full, SizeHint};
use crate::headers::{ascii_bytes, header_map_contents};
use crate::message::{plain_text_headers, text_bytes, Response, INTERNAL_SERVER_ERROR};
use crate::task::Poll;
use vstd::prelude::*;

verus! {

/// The text of the answer that the stage would write itself. The stage has
/// no reason of its own to answer a request, so this text is never sent.
pub const BODY: &'static str = "TracingServiceCustomBody never used, just for example";

/// Either a text that the stage wrote, or the body of the response that came
/// from the stage below.
#[derive(Debug)]
#[allow(inconsistent_fields)]
pub enum TracingResponseBody<B> {
    TracingCustomBody { body: Full },
    Body { body: B },
}

/// The response that the stage would answer with on its own: status 500, a
/// plain-text content type, and the fixed text as its body.
pub open spec fn is_error_response<B>(
    response: Response<TracingResponseBody<B>>,
) -> bool {
    &&& response.status == INTERNAL_SERVER_ERROR
    &&& header_map_contents(response.headers) == plain_text_headers()
    &&& response.body matches TracingResponseBody::TracingCustomBody { body }
    &&& body@ == ascii_bytes(BODY@)
}

impl<B> TracingResponseBody<B> {
    /// The body of the answer that the stage would write itself.
    pub fn payload_example() -> (body: Self)
        ensures
            body matches TracingResponseBody::TracingCustomBody { body: text } && text@
                == ascii_bytes(BODY@),
    {
        proof {
            reveal_strlit("TracingServiceCustomBody never used, just for example");
        }
        TracingResponseBody::TracingCustomBody { body: Full::new(text_bytes(BODY)) }
    }

    /// The body of a response from the stage below, unchanged.
    pub fn new(body: B) -> (wrapped: Self)
        ensures
            wrapped == (TracingResponseBody::Body { body }),
    {
        TracingResponseBody::Body { body }
    }

    /// The next piece of the body. A text of the stage's own comes in one
    /// piece, and the body ends after it; `poll_upstream` is not called. A
    /// body from the stage below is polled once through `poll_upstream`, and
    /// what that yields is passed on untouched.
    pub fn poll_frame<D, E, P>(&mut self, poll_upstream: P) -> (polled: Poll<
        Option<Result<Frame<D>, E>>,
    >) where P: FnOnce(&mut B) -> Poll<Option<Result<D, E>>>
        requires
            forall|upstream: &mut B|
                *old(self) == (TracingResponseBody::Body { body: *upstream }) ==> call_requires(
                    poll_upstream,
                    (upstream,),
                ),
        ensures
            *old(self) matches TracingResponseBody::TracingCustomBody { body } ==> {
                &&& *final(self) matches TracingResponseBody::TracingCustomBody { body: after }
                &&& after@ == Seq::<u8>::empty()
                &&& body@.len() == 0 ==> polled == Poll::<Option<Result<Frame<D>, E>>>::Ready(None)
                &&& body@.len() > 0 ==> (polled matches Poll::Ready(Some(Ok(Frame::Data(bytes))))
                    && bytes@ == body@)
            },
            *old(self) matches TracingResponseBody::Body { body } ==> exists|
                upstream: &mut B,
                yielded: Poll<Option<Result<D, E>>>,
            |
                {
                    &&& *upstream == body
                    &&& *final(self) == (TracingResponseBody::Body { body: *final(upstream) })
                    &&& #[trigger] call_ensures(poll_upstream, (upstream,), yielded)
                    &&& polled == passed_on(yielded)
                },
    {
        match self {
            TracingResponseBody::TracingCustomBody { body } => {
                match body.poll_frame() {
                    Some(bytes) => Poll::Ready(Some(Ok(Frame::Data(bytes)))),
                    None => Poll::Ready(None),
                }
            },
            TracingResponseBody::Body { body } => {
                let yielded = poll_upstream(body);
                pass_on(yielded)
            },
        }
    }

    /// Whether the body has produced all of its bytes. A body from the stage
    /// below answers for itself, through `upstream`.
    pub fn is_end_stream<Q: FnOnce(&B) -> bool>(&self, upstream: Q) -> (at_end: bool)
        requires
            forall|body: &B|
                *self == (TracingResponseBody::Body { body: *body }) ==> call_requires(
                    upstream,
                    (body,),
                ),
        ensures
            self matches TracingResponseBody::TracingCustomBody { body } ==> at_end == (body@.len()
                == 0),
            self matches TracingResponseBody::Body { body } ==> call_ensures(
                upstream,
                (&body,),
                at_end,
            ),
    {
        match self {
            TracingResponseBody::TracingCustomBody { body } => body.is_end_stream(),
            TracingResponseBody::Body { body } => upstream(body),
        }
    }

    /// How many bytes the body has yet to produce: exactly what is left of a
    /// text of the stage's own, or what the body from the stage below says of
    /// itself through `upstream`.
    pub fn size_hint<Q: FnOnce(&B) -> SizeHint>(&self, upstream: Q) -> (hint: SizeHint)
        requires
            forall|body: &B|
                *self == (TracingResponseBody::Body { body: *body }) ==> call_requires(
                    upstream,
                    (body,),
                ),
        ensures
            self matches TracingResponseBody::TracingCustomBody { body } ==> hint.lower
                == body@.len() && hint.upper == Some(hint.lower),
            self matches TracingResponseBody::Body { body } ==> call_ensures(
                upstream,
                (&body,),
                hint,
            ),
    {
        match self {
            TracingResponseBody::TracingCustomBody { body } => body.size_hint(),
            TracingResponseBody::Body { body } => upstream(body),
        }
    }
}

/// The response that the stage would answer with on its own.
pub fn create_error_response<B>() -> (response: Response<TracingResponseBody<B>>)
    ensures
        is_error_response(response),
{
    Response::plain_text(INTERNAL_SERVER_ERROR, TracingResponseBody::payload_example())
}

} // verus!
