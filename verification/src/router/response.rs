//! What can be sent as a response.

use crate::body::Full;
use crate::headers::{header_map_contents, no_headers};
use crate::message::{Response, OK};
use vstd::prelude::*;

verus! {

/// Something that can be sent as a response with a body of type `B`.
pub trait IntoResponse<B> {
    fn into_response(self) -> Response<B>;
}

/// A text is sent with status 200, no headers, and its bytes as the body.
pub open spec fn is_text_response(response: Response<Full>, text: Seq<char>) -> bool {
    &&& response.status == OK
    &&& header_map_contents(response.headers) == no_headers()
    &&& response.body@ == vstd::utf8::encode_utf8(text)
}

impl IntoResponse<Full> for String {
    fn into_response(self) -> (response: Response<Full>)
        ensures
            is_text_response(response, self@),
    {
        Response::new(Full::new(self.as_str().as_bytes_vec()))
    }
}

impl<B> IntoResponse<B> for Response<B> {
    fn into_response(self) -> (response: Response<B>)
        ensures
            response == self,
    {
        self
    }
}

} // verus!
