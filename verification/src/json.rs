//! JSON texts.

use vstd::prelude::*;

verus! {

/// `serde_json::Error`: why an encoding failed, carried as it is.
#[verifier::external_type_specification]
#[verifier::external_body]
pub struct ExJsonError(serde_json::Error);

/// The JSON text of an object with one member, `key`, whose value is the
/// string `value`, as `serde_json` writes it.
pub uninterp spec fn json_object(key: Seq<char>, value: Seq<char>) -> Seq<u8>;

/// `serde_json::to_vec` of the object with the one member `key`, whose value
/// is the string `value`: on success, the JSON text of that object.
#[verifier::external_body]
pub(crate) fn encode_json_object(key: &str, value: &str) -> (encoded: Result<
    Vec<u8>,
    serde_json::Error,
>)
    ensures
        encoded matches Ok(bytes) ==> bytes@ == json_object(key@, value@),
{
    let mut object = serde_json::Map::new();
    object.insert(key.to_string(), serde_json::Value::String(value.to_string()));
    serde_json::to_vec(&serde_json::Value::Object(object))
}

/// `to_string` of a `serde_json::Error`: what the error says of itself.
#[verifier::external_body]
pub(crate) fn json_error_text(error: &serde_json::Error) -> String {
    error.to_string()
}

} // verus!
