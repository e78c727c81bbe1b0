//! What the library reads out of a `serde_json::Value`.
use vstd::prelude::*;

verus! {

#[verifier::external_type_specification]
#[verifier::external_body]
pub struct ExValue(serde_json::Value);

#[verifier::external_type_specification]
#[verifier::external_body]
pub struct ExJsonError(serde_json::Error);

/// The shape of a JSON value as far as this library reads it.
pub enum Json {
    Null,
    Bool(bool),
    /// A number, with its value when it was read as a non-negative integer that
    /// fits a `u64`, written without fraction or exponent (`5.0` and `1e2` hold none).
    Number(Option<u64>),
    Text(Seq<char>),
    Array(Seq<serde_json::Value>),
    Object(Map<Seq<char>, serde_json::Value>),
}

/// What a JSON value holds.
pub uninterp spec fn json_model(v: serde_json::Value) -> Json;

/// The value parsed from a text, when the text is one JSON document.
pub uninterp spec fn json_from_text(s: Seq<char>) -> Option<serde_json::Value>;

/// The value parsed from bytes, when they are one JSON document in UTF-8.
pub uninterp spec fn json_from_bytes(b: Seq<u8>) -> Option<serde_json::Value>;

/// The member `key` of a JSON object; none for any other kind of value.
pub open spec fn json_member(v: serde_json::Value, key: Seq<char>) -> Option<serde_json::Value> {
    match json_model(v) {
        Json::Object(m) => if m.contains_key(key) {
            Some(m[key])
        } else {
            None
        },
        _ => None,
    }
}

/// The elements of a JSON array; none for any other kind of value.
pub open spec fn json_elements(v: serde_json::Value) -> Option<Seq<serde_json::Value>> {
    match json_model(v) {
        Json::Array(items) => Some(items),
        _ => None,
    }
}

/// The unsigned integer a JSON number holds.
pub open spec fn json_unsigned(v: serde_json::Value) -> Option<u64> {
    match json_model(v) {
        Json::Number(n) => n,
        _ => None,
    }
}

/// The text of a JSON string.
pub open spec fn json_text(v: serde_json::Value) -> Option<Seq<char>> {
    match json_model(v) {
        Json::Text(s) => Some(s),
        _ => None,
    }
}

/// Relies on `serde_json::Value::as_array`: the elements of an array, `None` otherwise.
#[verifier::external_body]
pub(crate) fn elements_of(v: &serde_json::Value) -> (r: Option<&Vec<serde_json::Value>>)
    ensures
        match json_model(*v) {
            Json::Array(items) => (r matches Some(a) && a@ == items),
            _ => r is None,
        },
{
    v.as_array()
}

/// Relies on `serde_json::Value::get` with a `&str` index: the member of an object
/// under that key, `None` for a missing key or a value that is no object.
#[verifier::external_body]
pub(crate) fn member_of<'a>(v: &'a serde_json::Value, key: &str) -> (r: Option<&'a serde_json::Value>)
    ensures
        match json_model(*v) {
            Json::Object(m) => if m.contains_key(key@) {
                (r matches Some(x) && *x == m[key@])
            } else {
                r is None
            },
            _ => r is None,
        },
{
    v.get(key)
}

/// Relies on `serde_json::Value::as_u64`: the value of a non-negative integer.
#[verifier::external_body]
pub(crate) fn unsigned_of(v: &serde_json::Value) -> (r: Option<u64>)
    ensures
        r == match json_model(*v) {
            Json::Number(n) => n,
            _ => None,
        },
{
    v.as_u64()
}

/// Relies on `serde_json::Value::as_str`: the text of a JSON string.
#[verifier::external_body]
pub(crate) fn text_of(v: &serde_json::Value) -> (r: Option<&str>)
    ensures
        match json_model(*v) {
            Json::Text(t) => (r matches Some(x) && x@ == t),
            _ => r is None,
        },
{
    v.as_str()
}

/// Relies on `serde_json::from_str::<Value>`: parses a text as one JSON document.
#[verifier::external_body]
pub(crate) fn parse_text(s: &str) -> (r: Result<serde_json::Value, serde_json::Error>)
    ensures
        match r {
            Ok(v) => json_from_text(s@) == Some(v),
            Err(_) => json_from_text(s@) is None,
        },
{
    serde_json::from_str::<serde_json::Value>(s)
}

/// Relies on `serde_json::from_slice::<Value>`: parses bytes as one JSON document.
#[verifier::external_body]
pub(crate) fn parse_bytes(b: &[u8]) -> (r: Result<serde_json::Value, serde_json::Error>)
    ensures
        match r {
            Ok(v) => json_from_bytes(b@) == Some(v),
            Err(_) => json_from_bytes(b@) is None,
        },
{
    serde_json::from_slice::<serde_json::Value>(b)
}

} // verus!
