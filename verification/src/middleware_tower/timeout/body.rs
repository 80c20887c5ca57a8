//! The body of a response that left the timeout stage.

use crate::body::{pass_on, passed_on, Frame, Full, SizeHint};
use crate::headers::{ascii_bytes, header_map_contents};
use crate::message::{plain_text_headers, text_bytes, Response, REQUEST_TIMEOUT};
use crate::task::Poll;
use vstd::prelude::*;

verus! {

/// What a request is told when the deadline has passed.
pub const BODY: &'static str = "Request timeout, please retry later";

/// Either the text that a late request is told, or the body of the response
/// that came from the stage below.
#[derive(Debug)]
#[allow(inconsistent_fields)]
pub enum TimeoutResponseBody<B> {
    TimeoutRespBody { body: Full },
    Body { body: B },
}

/// The response that answers a request whose deadline has passed: status
/// 408, a plain-text content type, and the fixed text as its body.
pub open spec fn is_request_timeout_response<B>(
    response: Response<TimeoutResponseBody<B>>,
) -> bool {
    &&& response.status == REQUEST_TIMEOUT
    &&& header_map_contents(response.headers) == plain_text_headers()
    &&& response.body matches TimeoutResponseBody::TimeoutRespBody { body }
    &&& body@ == ascii_bytes(BODY@)
}

impl<B> TimeoutResponseBody<B> {
    /// The body that a late request is answered with.
    pub fn payload_request_timeout() -> (body: Self)
        ensures
            body matches TimeoutResponseBody::TimeoutRespBody { body: text } && text@
                == ascii_bytes(BODY@),
    {
        proof {
            reveal_strlit("Request timeout, please retry later");
        }
        TimeoutResponseBody::TimeoutRespBody { body: Full::new(text_bytes(BODY)) }
    }

    /// The body of a response from the stage below, unchanged.
    pub fn new(body: B) -> (wrapped: Self)
        ensures
            wrapped == (TimeoutResponseBody::Body { body }),
    {
        TimeoutResponseBody::Body { body }
    }

    /// The next piece of the body. The text of a timeout comes in one piece,
    /// and the body ends after it; `poll_upstream` is not called. A body from
    /// the stage below is polled once through `poll_upstream`, and what that
    /// yields is passed on untouched.
    pub fn poll_frame<D, E, P>(&mut self, poll_upstream: P) -> (polled: Poll<
        Option<Result<Frame<D>, E>>,
    >) where P: FnOnce(&mut B) -> Poll<Option<Result<D, E>>>
        requires
            forall|upstream: &mut B|
                *old(self) == (TimeoutResponseBody::Body { body: *upstream }) ==> call_requires(
                    poll_upstream,
                    (upstream,),
                ),
        ensures
            *old(self) matches TimeoutResponseBody::TimeoutRespBody { body } ==> {
                &&& *final(self) matches TimeoutResponseBody::TimeoutRespBody { body: after }
                &&& after@ == Seq::<u8>::empty()
                &&& body@.len() == 0 ==> polled == Poll::<Option<Result<Frame<D>, E>>>::Ready(None)
                &&& body@.len() > 0 ==> (polled matches Poll::Ready(Some(Ok(Frame::Data(bytes))))
                    && bytes@ == body@)
            },
            *old(self) matches TimeoutResponseBody::Body { body } ==> exists|
                upstream: &mut B,
                yielded: Poll<Option<Result<D, E>>>,
            |
                {
                    &&& *upstream == body
                    &&& *final(self) == (TimeoutResponseBody::Body { body: *final(upstream) })
                    &&& #[trigger] call_ensures(poll_upstream, (upstream,), yielded)
                    &&& polled == passed_on(yielded)
                },
    {
        match self {
            TimeoutResponseBody::TimeoutRespBody { body } => {
                match body.poll_frame() {
                    Some(bytes) => Poll::Ready(Some(Ok(Frame::Data(bytes)))),
                    None => Poll::Ready(None),
                }
            },
            TimeoutResponseBody::Body { body } => {
                let yielded = poll_upstream(body);
                pass_on(yielded)
            },
        }
    }

    /// Whether the body has produced all of its bytes. A body from the stage
    /// below answers for itself, through `upstream`.
    pub fn is_end_stream<Q: FnOnce(&B) -> bool>(&self, upstream: Q) -> (at_end: bool)
        requires
            forall|body: &B|
                *self == (TimeoutResponseBody::Body { body: *body }) ==> call_requires(
                    upstream,
                    (body,),
                ),
        ensures
            self matches TimeoutResponseBody::TimeoutRespBody { body } ==> at_end == (body@.len()
                == 0),
            self matches TimeoutResponseBody::Body { body } ==> call_ensures(
                upstream,
                (&body,),
                at_end,
            ),
    {
        match self {
            TimeoutResponseBody::TimeoutRespBody { body } => body.is_end_stream(),
            TimeoutResponseBody::Body { body } => upstream(body),
        }
    }

    /// How many bytes the body has yet to produce: exactly what is left of the
    /// text of a timeout, or what the body from the stage below says of itself
    /// through `upstream`.
    pub fn size_hint<Q: FnOnce(&B) -> SizeHint>(&self, upstream: Q) -> (hint: SizeHint)
        requires
            forall|body: &B|
                *self == (TimeoutResponseBody::Body { body: *body }) ==> call_requires(
                    upstream,
                    (body,),
                ),
        ensures
            self matches TimeoutResponseBody::TimeoutRespBody { body } ==> hint.lower
                == body@.len() && hint.upper == Some(hint.lower),
            self matches TimeoutResponseBody::Body { body } ==> call_ensures(
                upstream,
                (&body,),
                hint,
            ),
    {
        match self {
            TimeoutResponseBody::TimeoutRespBody { body } => body.size_hint(),
            TimeoutResponseBody::Body { body } => upstream(body),
        }
    }
}

/// The response that answers a request whose deadline has passed.
pub fn create_request_timeout_response<B>() -> (response: Response<TimeoutResponseBody<B>>)
    ensures
        is_request_timeout_response(response),
{
    Response::plain_text(REQUEST_TIMEOUT, TimeoutResponseBody::payload_request_timeout())
}

} // verus!
