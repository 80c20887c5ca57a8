//! The rules of the key-value service: which request does what, which keys
//! and values are accepted, and what is answered when a key is not there.

use crate::error::AppError;
use crate::models::CreateKv;
use vstd::prelude::*;
use vstd::utf8::encode_utf8;

verus! {

/// The longest key that is accepted, in bytes.
pub const MAX_KEY_LEN: usize = 50;

/// The longest value that is accepted, in bytes.
pub const MAX_VALUE_LEN: usize = 1000;

/// How long an entry stays in the cache, in seconds.
pub const CACHE_TTL_SECS: u64 = 300;

/// What stands in front of a key in the cache.
pub const CACHE_PREFIX: &'static str = "kv:";

/// The path under which pairs are created.
pub const COLLECTION: &'static str = "/kv";

/// What stands in front of a key in the path of a pair.
pub const ITEM_PREFIX: &'static str = "/kv/";

/// Whether `std` counts a character among the letters and digits.
pub uninterp spec fn is_alphanumeric(c: char) -> bool;

/// `char::is_alphanumeric`: whether the character is a letter or a digit.
#[verifier::external_body]
fn char_is_alphanumeric(c: char) -> (alphanumeric: bool)
    ensures
        alphanumeric == is_alphanumeric(c),
{
    c.is_alphanumeric()
}

/// What a request asks of the service.
#[derive(Clone, Debug)]
pub enum KvRoute {
    Create,
    Get { key: String },
    Update { key: String },
    Delete { key: String },
    NotAllowed,
}

/// Whether `path` names a pair: it begins with `/kv/`.
pub open spec fn names_item(path: Seq<char>) -> bool {
    path.len() >= ITEM_PREFIX@.len() && path.subrange(0, ITEM_PREFIX@.len() as int)
        == ITEM_PREFIX@
}

/// The key that a path names: what follows `/kv/`.
pub open spec fn item_key(path: Seq<char>) -> Seq<char> {
    path.subrange(ITEM_PREFIX@.len() as int, path.len() as int)
}

/// What a request with the given method and path asks for.
pub open spec fn routed(method: Seq<char>, path: Seq<char>, route: KvRoute) -> bool {
    if method == "POST"@ && path == COLLECTION@ {
        route is Create
    } else if method == "GET"@ && names_item(path) {
        route matches KvRoute::Get { key } && key@ == item_key(path)
    } else if method == "PUT"@ && names_item(path) {
        route matches KvRoute::Update { key } && key@ == item_key(path)
    } else if method == "DELETE"@ && names_item(path) {
        route matches KvRoute::Delete { key } && key@ == item_key(path)
    } else {
        route is NotAllowed
    }
}

/// Whether `text` is the same as `other`.
fn same(text: &str, other: &str) -> (same: bool)
    ensures
        same == (text@ == other@),
{
    let a = String::from_str(text);
    let b = String::from_str(other);
    a == b
}

/// What follows `/kv/` in `path`, if the path begins with it.
fn key_in(path: &str) -> (key: Option<String>)
    ensures
        key.is_some() == names_item(path@),
        key matches Some(found) ==> found@ == item_key(path@),
{
    proof {
        reveal_strlit("/kv/");
    }
    let len = path.unicode_len();
    if len < 4 {
        return None;
    }
    let head = path.substring_char(0, 4);
    if same(head, ITEM_PREFIX) {
        Some(String::from_str(path.substring_char(4, len)))
    } else {
        None
    }
}

/// What a request with the given method and path asks for: `POST /kv`
/// creates a pair, and `GET`, `PUT` and `DELETE` of `/kv/` followed by a key
/// read, change and remove the pair of that key. Nothing else is allowed.
pub fn route(method: &str, path: &str) -> (route: KvRoute)
    ensures
        routed(method@, path@, route),
{
    proof {
        reveal_strlit("POST");
        reveal_strlit("GET");
        reveal_strlit("PUT");
        reveal_strlit("DELETE");
        reveal_strlit("/kv");
        reveal_strlit("/kv/");
    }
    if same(method, "POST") && same(path, COLLECTION) {
        return KvRoute::Create;
    }
    let is_get = same(method, "GET");
    let is_put = same(method, "PUT");
    let is_delete = same(method, "DELETE");
    if !(is_get || is_put || is_delete) {
        return KvRoute::NotAllowed;
    }
    match key_in(path) {
        None => KvRoute::NotAllowed,
        Some(key) => {
            if is_get {
                KvRoute::Get { key }
            } else if is_put {
                KvRoute::Update { key }
            } else {
                KvRoute::Delete { key }
            }
        },
    }
}

/// A key that is accepted: not empty, at most 50 bytes long, and made of
/// letters, digits and underscores.
pub open spec fn is_valid_key(key: Seq<char>) -> bool {
    &&& key.len() > 0
    &&& encode_utf8(key).len() <= MAX_KEY_LEN
    &&& forall|i: int| 0 <= i < key.len() ==> is_key_char(#[trigger] key[i])
}

/// A character of which keys are made.
pub open spec fn is_key_char(c: char) -> bool {
    is_alphanumeric(c) || c == '_'
}

/// A value that is accepted: not empty and at most 1000 bytes long.
pub open spec fn is_valid_value(value: Seq<char>) -> bool {
    value.len() > 0 && encode_utf8(value).len() <= MAX_VALUE_LEN
}

/// The error of a key that is not accepted.
pub open spec fn is_invalid_key_error(error: AppError) -> bool {
    error matches AppError::InvalidInput(text) && text@ == "Invalid key"@
}

/// The error of a value that is not accepted.
pub open spec fn is_invalid_value_error(error: AppError) -> bool {
    error matches AppError::InvalidInput(text) && text@ == "Invalid value"@
}

/// The error of a request that asks for nothing the service does.
pub open spec fn is_not_allowed_error(error: AppError) -> bool {
    error matches AppError::InvalidInput(text) && text@ == "Method not allowed"@
}

/// The error of a key that is not there.
pub open spec fn is_missing_key_error(error: AppError, key: Seq<char>) -> bool {
    error matches AppError::NotFound(text) && text@ == "Key "@ + key + " not found"@
}

/// Whether every character of `key` may stand in a key.
fn all_key_chars(key: &str) -> (all: bool)
    ensures
        all == forall|i: int| 0 <= i < key@.len() ==> is_key_char(#[trigger] key@[i]),
{
    let len = key.unicode_len();
    let mut i: usize = 0;
    while i < len
        invariant
            i <= len,
            len == key@.len(),
            forall|j: int| 0 <= j < i ==> is_key_char(#[trigger] key@[j]),
        decreases len - i,
    {
        let c = key.get_char(i);
        if !(char_is_alphanumeric(c) || c == '_') {
            return false;
        }
        i = i + 1;
    }
    true
}

/// Accepts a key, or says that it is invalid.
pub fn validate_key(key: &str) -> (checked: Result<(), AppError>)
    ensures
        is_valid_key(key@) ==> checked is Ok,
        !is_valid_key(key@) ==> (checked matches Err(error) && is_invalid_key_error(error)),
{
    if key.is_empty() || key.as_bytes().len() > MAX_KEY_LEN || !all_key_chars(key) {
        return Err(AppError::InvalidInput(String::from_str("Invalid key")));
    }
    Ok(())
}

/// Accepts a value, or says that it is invalid.
pub fn validate_value(value: &str) -> (checked: Result<(), AppError>)
    ensures
        is_valid_value(value@) ==> checked is Ok,
        !is_valid_value(value@) ==> (checked matches Err(error) && is_invalid_value_error(error)),
{
    if value.is_empty() || value.as_bytes().len() > MAX_VALUE_LEN {
        return Err(AppError::InvalidInput(String::from_str("Invalid value")));
    }
    Ok(())
}

/// Accepts a pair that is to be created: the key is looked at first, then the
/// value.
pub fn validate_create(input: &CreateKv) -> (checked: Result<(), AppError>)
    ensures
        is_valid_key(input.key@) && is_valid_value(input.value@) ==> checked is Ok,
        !is_valid_key(input.key@) ==> (checked matches Err(error) && is_invalid_key_error(error)),
        is_valid_key(input.key@) && !is_valid_value(input.value@) ==> (checked matches Err(error)
            && is_invalid_value_error(error)),
{
    match validate_key(input.key.as_str()) {
        Err(error) => Err(error),
        Ok(()) => validate_value(input.value.as_str()),
    }
}

/// The name of a key in the cache: `kv:` followed by the key.
pub fn cache_key(key: &str) -> (name: String)
    ensures
        name@ == CACHE_PREFIX@ + key@,
{
    String::from_str(CACHE_PREFIX).concat(key)
}

/// The error of a request that asks for nothing the service does.
pub fn not_allowed() -> (error: AppError)
    ensures
        is_not_allowed_error(error),
{
    AppError::InvalidInput(String::from_str("Method not allowed"))
}

/// The error of a key that is not there.
pub fn missing_key(key: &str) -> (error: AppError)
    ensures
        is_missing_key_error(error, key@),
{
    AppError::NotFound(String::from_str("Key ").concat(key).concat(" not found"))
}

/// What the database found under a key, or the error that the key is not
/// there.
pub fn found_or_missing<R>(found: Option<R>, key: &str) -> (result: Result<R, AppError>)
    ensures
        found matches Some(record) ==> result == Ok::<R, AppError>(record),
        found is None ==> (result matches Err(error) && is_missing_key_error(error, key@)),
{
    match found {
        Some(record) => Ok(record),
        None => Err(missing_key(key)),
    }
}

/// Whether the database removed a pair, or the error that the key was not
/// there.
pub fn deleted_or_missing(deleted: bool, key: &str) -> (result: Result<(), AppError>)
    ensures
        deleted ==> result is Ok,
        !deleted ==> (result matches Err(error) && is_missing_key_error(error, key@)),
{
    if deleted {
        Ok(())
    } else {
        Err(missing_key(key))
    }
}

} // verus!
