//! The body of a response that left the authentication stage.

use crate::body::{pass_on, passed_on, Frame, Full, SizeHint};
use crate::headers::{ascii_bytes, header_map_contents};
use crate::message::{plain_text_headers, text_bytes, Response, UNAUTHORIZED};
use crate::task::Poll;
use vstd::prelude::*;

verus! {

/// What a rejected request is told.
pub const BODY: &'static str = "auth failed, please check your token";

/// Either the text that a rejected request is told, or the body of the
/// response that came from the stage below.
#[derive(Debug)]
#[allow(inconsistent_fields)]
pub enum AuthResponseBody<B> {
    Unauthorized { body: Full },
    Body { body: B },
}

/// The response that answers a request without a credential: status 401, a
/// plain-text content type, and the fixed text as its body.
pub open spec fn is_unauthorized_response<B>(response: Response<AuthResponseBody<B>>) -> bool {
    &&& response.status == UNAUTHORIZED
    &&& header_map_contents(response.headers) == plain_text_headers()
    &&& response.body matches AuthResponseBody::Unauthorized { body }
    &&& body@ == ascii_bytes(BODY@)
}

impl<B> AuthResponseBody<B> {
    /// The body that a rejected request is answered with.
    pub fn payload_unauthorized() -> (body: Self)
        ensures
            body matches AuthResponseBody::Unauthorized { body: text } && text@ == ascii_bytes(
                BODY@,
            ),
    {
        proof {
            reveal_strlit("auth failed, please check your token");
        }
        AuthResponseBody::Unauthorized { body: Full::new(text_bytes(BODY)) }
    }

    /// The body of a response from the stage below, unchanged.
    pub fn new(body: B) -> (wrapped: Self)
        ensures
            wrapped == (AuthResponseBody::Body { body }),
    {
        AuthResponseBody::Body { body }
    }

    /// The next piece of the body. The text of a rejection comes in one
    /// piece, and the body ends after it; `poll_upstream` is not called. A
    /// body from the stage below is polled once through `poll_upstream`, and
    /// what that yields is passed on untouched.
    pub fn poll_frame<D, E, P>(&mut self, poll_upstream: P) -> (polled: Poll<
        Option<Result<Frame<D>, E>>,
    >) where P: FnOnce(&mut B) -> Poll<Option<Result<D, E>>>
        requires
            forall|upstream: &mut B|
                *old(self) == (AuthResponseBody::Body { body: *upstream }) ==> call_requires(
                    poll_upstream,
                    (upstream,),
                ),
        ensures
            *old(self) matches AuthResponseBody::Unauthorized { body } ==> {
                &&& *final(self) matches AuthResponseBody::Unauthorized { body: after }
                &&& after@ == Seq::<u8>::empty()
                &&& body@.len() == 0 ==> polled == Poll::<Option<Result<Frame<D>, E>>>::Ready(None)
                &&& body@.len() > 0 ==> (polled matches Poll::Ready(Some(Ok(Frame::Data(bytes))))
                    && bytes@ == body@)
            },
            *old(self) matches AuthResponseBody::Body { body } ==> exists|
                upstream: &mut B,
                yielded: Poll<Option<Result<D, E>>>,
            |
                {
                    &&& *upstream == body
                    &&& *final(self) == (AuthResponseBody::Body { body: *final(upstream) })
                    &&& #[trigger] call_ensures(poll_upstream, (upstream,), yielded)
                    &&& polled == passed_on(yielded)
                },
    {
        match self {
            AuthResponseBody::Unauthorized { body } => {
                match body.poll_frame() {
                    Some(bytes) => Poll::Ready(Some(Ok(Frame::Data(bytes)))),
                    None => Poll::Ready(None),
                }
            },
            AuthResponseBody::Body { body } => {
                let yielded = poll_upstream(body);
                pass_on(yielded)
            },
        }
    }

    /// Whether the body has produced all of its bytes. A body from the stage
    /// below answers for itself, through `upstream`.
    pub fn is_end_stream<Q: FnOnce(&B) -> bool>(&self, upstream: Q) -> (at_end: bool)
        requires
            forall|body: &B|
                *self == (AuthResponseBody::Body { body: *body }) ==> call_requires(
                    upstream,
                    (body,),
                ),
        ensures
            self matches AuthResponseBody::Unauthorized { body } ==> at_end == (body@.len() == 0),
            self matches AuthResponseBody::Body { body } ==> call_ensures(
                upstream,
                (&body,),
                at_end,
            ),
    {
        match self {
            AuthResponseBody::Unauthorized { body } => body.is_end_stream(),
            AuthResponseBody::Body { body } => upstream(body),
        }
    }

    /// How many bytes the body has yet to produce: exactly what is left of the
    /// text of a rejection, or what the body from the stage below says of
    /// itself through `upstream`.
    pub fn size_hint<Q: FnOnce(&B) -> SizeHint>(&self, upstream: Q) -> (hint: SizeHint)
        requires
            forall|body: &B|
                *self == (AuthResponseBody::Body { body: *body }) ==> call_requires(
                    upstream,
                    (body,),
                ),
        ensures
            self matches AuthResponseBody::Unauthorized { body } ==> hint.lower == body@.len()
                && hint.upper == Some(hint.lower),
            self matches AuthResponseBody::Body { body } ==> call_ensures(
                upstream,
                (&body,),
                hint,
            ),
    {
        match self {
            AuthResponseBody::Unauthorized { body } => body.size_hint(),
            AuthResponseBody::Body { body } => upstream(body),
        }
    }
}

/// The response that answers a request without a credential.
pub fn create_unauthorized_response<B>() -> (response: Response<AuthResponseBody<B>>)
    ensures
        is_unauthorized_response(response),
{
    Response::plain_text(UNAUTHORIZED, AuthResponseBody::payload_unauthorized())
}

} // verus!
