//! JSON values, carried opaquely through the library.
//!
//! Tool inputs and tool schemas are JSON values produced and consumed by
//! serde_json.  The library never looks inside a finished value; it only
//! parses strings into values, reads shallow fields while decoding stream
//! events, and passes values through.  Each of those operations is a pure
//! function of its arguments, named here by an uninterpreted spec function
//! and supplied by a trusted wrapper around the serde_json call.

use vstd::prelude::*;

verus! {

/// Declares serde_json's value type so verified code can hold and pass
/// such values; the verifier treats them as opaque.
#[verifier::external_type_specification]
#[verifier::external_body]
pub struct ExValue(serde_json::Value);

/// The value that `serde_json::from_str::<Value>` returns for a given
/// string, or `None` where the string is not valid JSON.
pub uninterp spec fn json_parsed(s: Seq<char>) -> Option<serde_json::Value>;

/// The field that `serde_json::Value::get` returns for a given value and
/// string key: `None` where the value is not an object or lacks the key.
pub uninterp spec fn json_field(v: serde_json::Value, key: Seq<char>) -> Option<serde_json::Value>;

/// The contents that `serde_json::Value::as_str` returns: `None` where
/// the value is not a JSON string.
pub uninterp spec fn json_text(v: serde_json::Value) -> Option<Seq<char>>;

/// Relies on `serde_json::from_str::<Value>`: parsing is a function of
/// the string alone; a parse error becomes `None`.
#[verifier::external_body]
pub(crate) fn parse_json(s: &str) -> (r: Option<serde_json::Value>)
    ensures
        r == json_parsed(s@),
{
    serde_json::from_str::<serde_json::Value>(s).ok()
}

/// Relies on `serde_json::Value::get`: object field lookup is a function
/// of the value and the key alone.  The field is cloned to an owned value.
#[verifier::external_body]
pub(crate) fn get_field(v: &serde_json::Value, key: &str) -> (r: Option<serde_json::Value>)
    ensures
        r == json_field(*v, key@),
{
    v.get(key).cloned()
}

/// Relies on `serde_json::Value::as_str`: the contents of a JSON string
/// value, copied to an owned `String`.
#[verifier::external_body]
pub(crate) fn get_text(v: &serde_json::Value) -> (r: Option<String>)
    ensures
        (match r {
            Some(s) => json_text(*v) == Some(s@),
            None => json_text(*v) is None,
        }),
{
    v.as_str().map(|s| s.to_string())
}

/// Relies on serde_json: `Value::Object` of an empty `Map` is the same
/// value that parsing `"{}"` yields.
#[verifier::external_body]
pub(crate) fn empty_json_object() -> (r: serde_json::Value)
    ensures
        Some(r) == json_parsed("{}"@),
{
    serde_json::Value::Object(serde_json::Map::new())
}

/// Relies on `serde_json::Value::clone`: the clone equals the original.
#[verifier::external_body]
pub(crate) fn clone_json(v: &serde_json::Value) -> (r: serde_json::Value)
    ensures
        r == *v,
{
    v.clone()
}

/// The JSON value a string parses to, with the empty object standing in
/// for anything malformed.
pub open spec fn spec_parse_or_empty(s: Seq<char>) -> serde_json::Value {
    match json_parsed(s) {
        Some(v) => v,
        None => json_parsed("{}"@)->0,
    }
}

/// Parse a string as JSON; malformed input degrades to the empty object.
pub fn parse_json_or_empty(s: &str) -> (r: serde_json::Value)
    ensures
        r == spec_parse_or_empty(s@),
{
    match parse_json(s) {
        Some(v) => v,
        None => empty_json_object(),
    }
}

} // verus!
