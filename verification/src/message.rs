//! Requests and responses as the stages see them.
//!
//! A stage reads the method, the URI and the headers of a request, and the
//! status of a response. The body is handed through as it is: the type `B`
//! stands for whatever produces its bytes.

use crate::headers::{
    ascii_bytes, ascii_lowercase, header_map_contents, header_map_new, header_map_try_insert,
    is_header_value_text, no_headers,
};
use http::HeaderMap;
use vstd::prelude::*;

verus! {

pub const OK: u16 = 200;

pub const CREATED: u16 = 201;

pub const NO_CONTENT: u16 = 204;

pub const BAD_REQUEST: u16 = 400;

pub const UNAUTHORIZED: u16 = 401;

pub const NOT_FOUND: u16 = 404;

pub const REQUEST_TIMEOUT: u16 = 408;

pub const INTERNAL_SERVER_ERROR: u16 = 500;

/// The name of the header that says how to read the body.
pub const CONTENT_TYPE: &'static str = "content-type";

/// The content type of the plain-text answers that the stages write.
pub const TEXT_PLAIN: &'static str = "text/plain; charset=utf-8";

/// The content type of the JSON answers.
pub const APPLICATION_JSON: &'static str = "application/json";

/// A request on its way down the pipeline.
#[derive(Debug)]
pub struct Request<B> {
    pub method: String,
    pub uri: String,
    pub headers: HeaderMap,
    pub body: B,
}

/// A response on its way up the pipeline.
#[derive(Debug)]
pub struct Response<B> {
    pub status: u16,
    pub headers: HeaderMap,
    pub body: B,
}

/// The headers of a plain-text answer: a content type and nothing else.
pub open spec fn plain_text_headers() -> Map<Seq<char>, Seq<Seq<u8>>> {
    no_headers().insert(CONTENT_TYPE@, seq![ascii_bytes(TEXT_PLAIN@)])
}

/// The headers of a JSON answer: a content type and nothing else.
pub open spec fn json_headers() -> Map<Seq<char>, Seq<Seq<u8>>> {
    no_headers().insert(CONTENT_TYPE@, seq![ascii_bytes(APPLICATION_JSON@)])
}

/// The bytes of a text that a stage sends as a body.
pub fn text_bytes(text: &'static str) -> (bytes: Vec<u8>)
    requires
        text.is_ascii(),
    ensures
        bytes@ == ascii_bytes(text@),
{
    broadcast use vstd::string::is_ascii_spec_bytes;

    let bytes = text.as_bytes_vec();
    assert(bytes@ =~= ascii_bytes(text@));
    bytes
}

/// The path of a URI as `http::Uri` reads it, or nothing where the text is no
/// URI.
pub uninterp spec fn uri_path(uri: Seq<char>) -> Option<Seq<char>>;

/// `http::Uri::path` of the URI that the text parses to: the path of the URI,
/// or nothing where the text does not parse.
#[verifier::external_body]
pub(crate) fn parse_uri_path(uri: &str) -> (path: Option<String>)
    ensures
        path.is_some() == uri_path(uri@).is_some(),
        path matches Some(text) ==> uri_path(uri@) == Some(text@),
{
    match uri.parse::<http::Uri>() {
        Ok(parsed) => Some(parsed.path().to_string()),
        Err(_) => None,
    }
}

/// A status from 400 to 499: the request was at fault.
pub open spec fn is_client_error(status: u16) -> bool {
    400 <= status < 500
}

/// A status from 500 to 599: the server was at fault.
pub open spec fn is_server_error(status: u16) -> bool {
    500 <= status < 600
}

impl<B> Response<B> {
    /// A response with status 200, no headers and the given body.
    pub fn new(body: B) -> (response: Self)
        ensures
            response.status == OK,
            header_map_contents(response.headers) == no_headers(),
            response.body == body,
    {
        Response { status: OK, headers: header_map_new(), body }
    }

    /// An answer with the given status, the given content type as the only
    /// header, and the given body.
    fn with_content_type(status: u16, content_type: &'static str, body: B) -> (response: Self)
        requires
            is_header_value_text(content_type@),
        ensures
            response.status == status,
            header_map_contents(response.headers) == no_headers().insert(
                CONTENT_TYPE@,
                seq![ascii_bytes(content_type@)],
            ),
            response.body == body,
    {
        let mut response = Response::new(body);
        response.status = status;
        proof {
            reveal_strlit("content-type");
            assert(ascii_lowercase(CONTENT_TYPE@) =~= CONTENT_TYPE@);
        }
        // A map that holds nothing always has room for one entry.
        let _ = header_map_try_insert(&mut response.headers, CONTENT_TYPE, content_type);
        response
    }

    /// A plain-text answer: the given status, a content type of
    /// `text/plain; charset=utf-8` as the only header, and the given body.
    pub fn plain_text(status: u16, body: B) -> (response: Self)
        ensures
            response.status == status,
            header_map_contents(response.headers) == plain_text_headers(),
            response.body == body,
    {
        proof {
            reveal_strlit("text/plain; charset=utf-8");
        }
        Response::with_content_type(status, TEXT_PLAIN, body)
    }

    /// A JSON answer: the given status, a content type of `application/json`
    /// as the only header, and the given body.
    pub fn json(status: u16, body: B) -> (response: Self)
        ensures
            response.status == status,
            header_map_contents(response.headers) == json_headers(),
            response.body == body,
    {
        proof {
            reveal_strlit("application/json");
        }
        Response::with_content_type(status, APPLICATION_JSON, body)
    }

    /// The same status and headers around the body that `f` makes of this
    /// one.
    pub fn map<C, F: FnOnce(B) -> C>(self, f: F) -> (response: Response<C>)
        requires
            call_requires(f, (self.body,)),
        ensures
            response.status == self.status,
            response.headers == self.headers,
            call_ensures(f, (self.body,), response.body),
    {
        Response { status: self.status, headers: self.headers, body: f(self.body) }
    }

    /// Whether the status is one of 400 to 499.
    pub fn is_client_error(&self) -> (r: bool)
        ensures
            r == is_client_error(self.status),
    {
        400 <= self.status && self.status < 500
    }

    /// Whether the status is one of 500 to 599.
    pub fn is_server_error(&self) -> (r: bool)
        ensures
            r == is_server_error(self.status),
    {
        500 <= self.status && self.status < 600
    }
}

} // verus!
