//! Trusted boundary to the `serde_json` crate.
//!
//! Payloads arrive as JSON text.  The parsed document is opaque to the
//! verifier, so what the accessors below read from it is given names:
//! uninterpreted functions of the value alone, which the wrappers'
//! contracts speak of and the decoder's contracts are exact over.
//! Number-valued members that this crate never computes with (prices) are
//! carried through as opaque `serde_json::Value`s.

use vstd::prelude::*;

verus! {

/// Declares `serde_json::Value` so that it can stand in signatures and
/// fields.  The value is opaque to the verifier.
#[verifier::external_type_specification]
#[verifier::external_body]
pub struct ExValue(serde_json::Value);

/// The string-valued members of a JSON value: the map from member name to
/// text, for exactly those members of an object whose value is a JSON
/// string; empty for a value that is not an object.  Decided entirely by
/// serde_json.
pub uninterp spec fn str_fields(v: serde_json::Value) -> Map<Seq<char>, Seq<char>>;

/// The integer-valued members of a JSON value: the map from member name
/// to its value, for exactly those members of an object whose value is an
/// integer JSON number representable as a 64-bit signed integer; empty
/// for a value that is not an object.  Decided entirely by serde_json.
pub uninterp spec fn int_fields(v: serde_json::Value) -> Map<Seq<char>, int>;

/// The number-valued members of a JSON value: the names of exactly those
/// members of an object whose value is a JSON number of any kind; empty
/// for a value that is not an object.  Decided entirely by serde_json.
pub uninterp spec fn num_fields(v: serde_json::Value) -> Set<Seq<char>>;

/// The elements of a JSON value: `Some` of the element sequence exactly
/// when the value is a JSON array, `None` otherwise.  Decided entirely by
/// serde_json.
pub uninterp spec fn json_arr(v: serde_json::Value) -> Option<Seq<serde_json::Value>>;

/// Relies on `serde_json::from_slice::<Value>`: parses a JSON document
/// from bytes, `None` when the bytes are not well-formed JSON.  Which
/// byte strings parse, and to what, is decided entirely by the parser.
#[verifier::external_body]
pub(crate) fn parse_json(bytes: &[u8]) -> Option<serde_json::Value> {
    serde_json::from_slice::<serde_json::Value>(bytes).ok()
}

/// Relies on `serde_json::Value::get` and `Value::as_str`: the member
/// named `key` when it exists and is a JSON string, as `str_fields`
/// names it.
#[verifier::external_body]
pub(crate) fn json_str_field(value: &serde_json::Value, key: &str) -> (r: Option<String>)
    ensures
        (r matches Some(_)) <==> str_fields(*value).contains_key(key@),
        r matches Some(s) ==> s@ == str_fields(*value)[key@],
{
    match value.get(key) {
        Some(f) => match f.as_str() {
            Some(s) => Some(s.to_string()),
            None => None,
        },
        None => None,
    }
}

/// Relies on `serde_json::Value::get` and `Value::as_i64`: the member
/// named `key` when it exists and is an integer number fitting `i64`, as
/// `int_fields` names it.
#[verifier::external_body]
pub(crate) fn json_int_field(value: &serde_json::Value, key: &str) -> (r: Option<i64>)
    ensures
        (r matches Some(_)) <==> int_fields(*value).contains_key(key@),
        r matches Some(n) ==> n as int == int_fields(*value)[key@],
{
    match value.get(key) {
        Some(f) => f.as_i64(),
        None => None,
    }
}

/// Relies on `serde_json::Value::get`, `Value::is_number` and `Value`'s
/// derived `Clone`: a copy of the member named `key` when it exists and
/// is a JSON number, as `num_fields` names the membership.  The copied
/// value itself stays opaque; it is only carried through to storage.
#[verifier::external_body]
pub(crate) fn json_num_field(value: &serde_json::Value, key: &str) -> (r: Option<serde_json::Value>)
    ensures
        (r matches Some(_)) <==> num_fields(*value).contains(key@),
{
    match value.get(key) {
        Some(f) => {
            if f.is_number() {
                Some(f.clone())
            } else {
                None
            }
        }
        None => None,
    }
}

/// Relies on `serde_json::Value::as_array`: `Some` of the elements
/// exactly when `value` is a JSON array, as `json_arr` names them.
#[verifier::external_body]
pub(crate) fn json_array<'a>(value: &'a serde_json::Value) -> (r: Option<&'a Vec<serde_json::Value>>)
    ensures
        (r matches Some(_)) <==> (json_arr(*value) matches Some(_)),
        r matches Some(a) ==> json_arr(*value) == Some(a@),
{
    value.as_array()
}

} // verus!
