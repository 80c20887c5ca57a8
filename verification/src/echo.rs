//! The handlers at the core of the pipeline: one that sends back the body of
//! a request in capitals, and two that answer in text and in JSON.

use crate::headers::{header_map_contents, no_headers};
use crate::message::{Request, Response, OK};
use vstd::prelude::*;

verus! {

/// The capital of an ASCII small letter; any other byte is itself.
pub open spec fn ascii_uppercase_byte(byte: u8) -> u8 {
    if 97 <= byte && byte <= 122 {
        (byte - 32) as u8
    } else {
        byte
    }
}

/// Bytes with each ASCII small letter replaced by its capital.
pub open spec fn ascii_uppercase(data: Seq<u8>) -> Seq<u8> {
    Seq::new(data.len(), |i: int| ascii_uppercase_byte(data[i]))
}

/// The bytes of `data` with each ASCII small letter replaced by its capital.
pub fn uppercase(data: &[u8]) -> (upper: Vec<u8>)
    ensures
        upper@ == ascii_uppercase(data@),
{
    let mut upper: Vec<u8> = Vec::new();
    let mut i: usize = 0;
    while i < data.len()
        invariant
            i <= data@.len(),
            upper@.len() == i,
            forall|j: int| 0 <= j < i ==> upper@[j] == ascii_uppercase_byte(data@[j]),
        decreases data@.len() - i,
    {
        let byte = data[i];
        if 97 <= byte && byte <= 122 {
            upper.push(byte - 32);
        } else {
            upper.push(byte);
        }
        i = i + 1;
    }
    assert(upper@ =~= ascii_uppercase(data@));
    upper
}

/// What is sent back for one piece of the body of a request: the data of the
/// piece in capitals, and no data for a piece that holds none.
pub fn echo_frame(data: Option<&[u8]>) -> (sent: Vec<u8>)
    ensures
        data matches Some(bytes) ==> sent@ == ascii_uppercase(bytes@),
        data is None ==> sent@ == Seq::<u8>::empty(),
{
    match data {
        Some(bytes) => uppercase(bytes),
        None => Vec::new(),
    }
}

/// Answers a request with status 200, no headers, and the body of the
/// request, whose pieces are to go through `echo_frame` on their way out.
pub fn echo<B>(req: Request<B>) -> (response: Response<B>)
    ensures
        response.status == OK,
        header_map_contents(response.headers) == no_headers(),
        response.body == req.body,
{
    Response::new(req.body)
}

/// What the text and JSON handlers share: the message of the server.
#[derive(Clone, Debug)]
pub struct AppState {
    pub message: String,
}

/// A text to send back.
#[derive(Clone, Debug)]
pub struct EchoRequest {
    pub text: String,
}

/// The text that was sent back.
#[derive(Clone, Debug)]
pub struct EchoResponse {
    pub echoed: String,
}

/// Answers a health check with the message of the server.
pub fn health_handler(state: &AppState) -> (message: String)
    ensures
        message@ == state.message@,
{
    state.message.clone()
}

/// Answers with status 200 and the text of the request behind the message of
/// the server, a colon and a space.
pub fn echo_handler(state: &AppState, payload: &EchoRequest) -> (reply: (u16, EchoResponse))
    ensures
        reply.0 == OK,
        reply.1.echoed@ == state.message@ + ": "@ + payload.text@,
{
    let echoed = state.message.clone().concat(": ").concat(payload.text.as_str());
    (OK, EchoResponse { echoed })
}

} // verus!
