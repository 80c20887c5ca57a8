//! The errors of the key-value service.

use crate::body::Full;
use crate::headers::header_map_contents;
use crate::json::{encode_json_object, json_error_text, json_object};
use crate::message::{json_headers, Response, BAD_REQUEST, INTERNAL_SERVER_ERROR, NOT_FOUND};
use vstd::prelude::*;

verus! {

/// What went wrong. An error of the database, of its migrations, of the cache
/// or of the encoding is kept as the text in which it describes itself.
#[derive(Clone, Debug)]
pub enum AppError {
    Database(String),
    MigrateError(String),
    Redis(String),
    Serialization(String),
    InvalidInput(String),
    NotFound(String),
}

/// The name of the one member of the JSON object that reports an error.
pub const ERROR_MEMBER: &'static str = "error";

/// The status that answers an error: 400 for an input that is not accepted,
/// 404 for what is not there, 500 for everything else.
pub open spec fn status_of(error: AppError) -> u16 {
    match error {
        AppError::InvalidInput(_) => BAD_REQUEST,
        AppError::NotFound(_) => NOT_FOUND,
        _ => INTERNAL_SERVER_ERROR,
    }
}

/// The text that an error is reported with.
pub open spec fn text_of(error: AppError) -> Seq<char> {
    match error {
        AppError::Database(text) => "Database error: "@ + text@,
        AppError::MigrateError(text) => "MigrateError error:"@ + text@,
        AppError::Redis(text) => "Redis error: "@ + text@,
        AppError::Serialization(text) => "Serialization error: "@ + text@,
        AppError::InvalidInput(text) => "Invalid input: "@ + text@,
        AppError::NotFound(text) => "Not Found: "@ + text@,
    }
}

/// The text that an error is answered with: its own text for an input that is
/// not accepted and for what is not there, and for everything else the text of
/// the error underneath alone.
pub open spec fn message_of(error: AppError) -> Seq<char> {
    match error {
        AppError::InvalidInput(_) | AppError::NotFound(_) => text_of(error),
        AppError::Database(text) => text@,
        AppError::MigrateError(text) => text@,
        AppError::Redis(text) => text@,
        AppError::Serialization(text) => text@,
    }
}

/// What comes of answering an error, given the JSON encoding of the answer:
/// the response with the status of the error, a JSON content type and the
/// encoded bytes as its body, or, where the encoding failed, the error of the
/// encoding.
pub open spec fn answers(
    status: u16,
    encoded: Result<Vec<u8>, String>,
    result: Result<Response<Full>, AppError>,
) -> bool {
    match encoded {
        Ok(bytes) => {
            &&& result matches Ok(response)
            &&& response.status == status
            &&& header_map_contents(response.headers) == json_headers()
            &&& response.body@ == bytes@
        },
        Err(text) => result matches Err(AppError::Serialization(reason)) && reason@ == text@,
    }
}

/// The answer to an error with the given status, given the JSON encoding of
/// the answer.
pub fn json_response(status: u16, encoded: Result<Vec<u8>, String>) -> (result: Result<
    Response<Full>,
    AppError,
>)
    ensures
        answers(status, encoded, result),
{
    match encoded {
        Ok(bytes) => Ok(Response::json(status, Full::new(bytes))),
        Err(text) => Err(AppError::Serialization(text)),
    }
}

impl AppError {
    /// The error of a request whose body could not be read.
    pub fn from_body_error(reason: &str) -> (error: AppError)
        ensures
            error matches AppError::InvalidInput(text) && text@
                == "Failed to read request body: "@ + reason@,
    {
        AppError::InvalidInput(String::from_str("Failed to read request body: ").concat(reason))
    }

    /// The status that answers the error.
    pub fn status(&self) -> (status: u16)
        ensures
            status == status_of(*self),
    {
        match self {
            AppError::InvalidInput(_) => BAD_REQUEST,
            AppError::NotFound(_) => NOT_FOUND,
            _ => INTERNAL_SERVER_ERROR,
        }
    }

    /// The text that the error is reported with.
    pub fn to_string(&self) -> (text: String)
        ensures
            text@ == text_of(*self),
    {
        match self {
            AppError::Database(text) => String::from_str("Database error: ").concat(text.as_str()),
            AppError::MigrateError(text) => String::from_str("MigrateError error:").concat(
                text.as_str(),
            ),
            AppError::Redis(text) => String::from_str("Redis error: ").concat(text.as_str()),
            AppError::Serialization(text) => String::from_str("Serialization error: ").concat(
                text.as_str(),
            ),
            AppError::InvalidInput(text) => String::from_str("Invalid input: ").concat(
                text.as_str(),
            ),
            AppError::NotFound(text) => String::from_str("Not Found: ").concat(text.as_str()),
        }
    }

    /// The text that the error is answered with.
    pub fn message(&self) -> (text: String)
        ensures
            text@ == message_of(*self),
    {
        match self {
            AppError::InvalidInput(_) | AppError::NotFound(_) => self.to_string(),
            AppError::Database(text) => text.clone(),
            AppError::MigrateError(text) => text.clone(),
            AppError::Redis(text) => text.clone(),
            AppError::Serialization(text) => text.clone(),
        }
    }

    /// The response that answers the error: its status, a JSON content type,
    /// and as the body the JSON object whose one member `error` holds the
    /// message of the error. Where the object cannot be encoded the result is
    /// the error of the encoding.
    pub fn into_tower_response(self) -> (result: Result<Response<Full>, AppError>)
        ensures
            result matches Ok(response) ==> {
                &&& response.status == status_of(self)
                &&& header_map_contents(response.headers) == json_headers()
                &&& response.body@ == json_object(ERROR_MEMBER@, message_of(self))
            },
            result matches Err(error) ==> error is Serialization,
    {
        let status = self.status();
        let message = self.message();
        let encoded = match encode_json_object(ERROR_MEMBER, message.as_str()) {
            Ok(bytes) => Ok(bytes),
            Err(error) => Err(json_error_text(&error)),
        };
        json_response(status, encoded)
    }
}

} // verus!
