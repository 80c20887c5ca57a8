//! Header maps.
//!
//! Requests and responses carry their headers in an `http::HeaderMap`. This
//! module says what the pipeline relies on: which names a map holds and which
//! values stand under each name. Names compare without regard to ASCII case,
//! so the contents are keyed by the lower-case form of a name.

use http::HeaderMap;
use vstd::prelude::*;

verus! {

/// `http::HeaderMap`: the headers of a request or a response. What a map
/// holds is known only through `header_map_contents`.
#[verifier::external_type_specification]
#[verifier::external_body]
#[verifier::reject_recursive_types(T)]
pub struct ExHeaderMap<T>(http::HeaderMap<T>);

/// `http::HeaderValue`: the value of one header, as a header map holds it.
#[verifier::external_type_specification]
#[verifier::external_body]
pub struct ExHeaderValue(http::HeaderValue);

/// What a header map holds: under each header name, in lower case, the values
/// stored for it, in the order in which they were added.
pub uninterp spec fn header_map_contents(headers: HeaderMap) -> Map<Seq<char>, Seq<Seq<u8>>>;

/// The lower-case form of an ASCII letter; any other character is itself.
pub open spec fn ascii_lowercase_char(c: char) -> char {
    if 'A' <= c && c <= 'Z' {
        ((c as u32) + 32) as char
    } else {
        c
    }
}

/// A text with each of its ASCII capitals replaced by the small letter.
pub open spec fn ascii_lowercase(s: Seq<char>) -> Seq<char> {
    Seq::new(s.len(), |i: int| ascii_lowercase_char(s[i]))
}

/// The characters of which a header name is made: letters, digits and
/// ``!#$%&'*+-.^_`|~``.
pub open spec fn is_header_name_char(c: char) -> bool {
    ||| 'a' <= c && c <= 'z'
    ||| 'A' <= c && c <= 'Z'
    ||| '0' <= c && c <= '9'
    ||| c == '!'
    ||| c == '#'
    ||| c == '$'
    ||| c == '%'
    ||| c == '&'
    ||| c == '\''
    ||| c == '*'
    ||| c == '+'
    ||| c == '-'
    ||| c == '.'
    ||| c == '^'
    ||| c == '_'
    ||| c == '`'
    ||| c == '|'
    ||| c == '~'
}

/// A header name: between 1 and 65535 characters, each of them allowed in a
/// name.
pub open spec fn is_header_name(s: Seq<char>) -> bool {
    &&& 1 <= s.len() <= 65535
    &&& forall|i: int| 0 <= i < s.len() ==> is_header_name_char(#[trigger] s[i])
}

/// The characters a header value given as text may hold: visible ASCII, the
/// space and the tab.
pub open spec fn is_header_value_char(c: char) -> bool {
    (32 <= (c as u32) && (c as u32) < 127) || c == '\t'
}

/// A header value given as text.
pub open spec fn is_header_value_text(s: Seq<char>) -> bool {
    forall|i: int| 0 <= i < s.len() ==> is_header_value_char(#[trigger] s[i])
}

/// The bytes of an ASCII text.
pub open spec fn ascii_bytes(s: Seq<char>) -> Seq<u8> {
    Seq::new(s.len(), |i: int| s[i] as u8)
}

/// The contents of a map that holds nothing.
pub open spec fn no_headers() -> Map<Seq<char>, Seq<Seq<u8>>> {
    Map::empty()
}

/// Whether the map holds at least one value under `name`, whatever the case
/// of its letters.
pub open spec fn has_header(headers: HeaderMap, name: Seq<char>) -> bool {
    header_map_contents(headers).dom().contains(ascii_lowercase(name))
}

/// `http::HeaderMap::new`: a map that holds nothing.
#[verifier::external_body]
pub(crate) fn header_map_new() -> (fresh: HeaderMap)
    ensures
        header_map_contents(fresh) == no_headers(),
{
    HeaderMap::new()
}

/// `http::HeaderMap::contains_key` with a name given as text: true exactly
/// when the map holds a value under the lower-case form of `name`. A text that
/// is no header name is under no entry, since every stored name is one.
#[verifier::external_body]
pub(crate) fn header_map_contains_key(headers: &HeaderMap, name: &str) -> (found: bool)
    ensures
        found == has_header(*headers, name@),
{
    headers.contains_key(name)
}

/// `http::HeaderMap::try_insert` with a name and a value given as static
/// text, the value turned into an `http::HeaderValue` by `from_static`. On
/// success the lower-case name holds `value` alone, whatever it held before,
/// and the other names keep their values. The map refuses the entry only when
/// it is full, and then stays as it was; a map that holds nothing always has
/// room. The outside code panics on a text that is no header name or no header
/// value, which `requires` leaves out.
#[verifier::external_body]
pub(crate) fn header_map_try_insert(
    headers: &mut HeaderMap,
    name: &'static str,
    value: &'static str,
) -> (inserted: bool)
    requires
        is_header_name(name@),
        is_header_value_text(value@),
    ensures
        inserted ==> header_map_contents(*final(headers)) == header_map_contents(
            *old(headers),
        ).insert(ascii_lowercase(name@), seq![ascii_bytes(value@)]),
        !inserted ==> header_map_contents(*final(headers)) == header_map_contents(*old(headers)),
        header_map_contents(*old(headers)) == no_headers() ==> inserted,
{
    headers.try_insert(name, http::HeaderValue::from_static(value)).is_ok()
}

/// Whether `headers` holds a value under `name`, whatever the case of its
/// letters.
pub fn contains(headers: &HeaderMap, name: &str) -> (found: bool)
    ensures
        found == has_header(*headers, name@),
{
    header_map_contains_key(headers, name)
}

} // verus!
