//! The trusted boundary around serde_json.
//!
//! Open-shaped values — message content, tool-call payloads, schema
//! documents, embedding inputs — pass through the library unexamined as
//! `serde_json::Value`.  Each function here is believed, not verified:
//! its body only makes the outside call and converts its result.  The
//! uninterpreted names below stand for what those calls return; each is
//! a function of its arguments alone, so contracts elsewhere can tie
//! parsed values back to the text they came from.

use vstd::prelude::*;

verus! {

#[verifier::external_type_specification]
#[verifier::external_body]
pub struct ExJsonValue(serde_json::Value);

/// The value that `s` parses as, or `None` where `s` is not a
/// well-formed JSON document — as serde_json's parser decides it.  A
/// function of the text alone.
pub uninterp spec fn json_parse_of(s: Seq<char>) -> Option<serde_json::Value>;

/// The elements, in order, of the top-level array that `s` parses as,
/// or `None` where `s` is not a well-formed JSON array.  A function of
/// the text alone.
pub uninterp spec fn json_array_of(s: Seq<char>) -> Option<Seq<serde_json::Value>>;

/// The value under `key` when `v` is a JSON object holding that key,
/// `None` otherwise.  A function of the value and the key alone.
pub uninterp spec fn field_of(v: serde_json::Value, key: Seq<char>) -> Option<serde_json::Value>;

/// The text of `v` when it is a JSON string, `None` otherwise.
pub uninterp spec fn str_of(v: serde_json::Value) -> Option<Seq<char>>;

/// The elements of `v`, in order, when it is a JSON array, `None`
/// otherwise.
pub uninterp spec fn array_of(v: serde_json::Value) -> Option<Seq<serde_json::Value>>;

/// Relies on serde_json::from_str::<Value>: succeeds exactly on
/// well-formed JSON, returning the parsed value; the error carries
/// serde's diagnostic text.
#[verifier::external_body]
pub fn parse_json_value(s: &str) -> (r: Result<serde_json::Value, String>)
    ensures
        r is Ok <==> json_parse_of(s@) is Some,
        r matches Ok(v) ==> Some(v) == json_parse_of(s@),
{
    serde_json::from_str::<serde_json::Value>(s).map_err(|e| e.to_string())
}

/// Relies on serde_json::from_str::<Vec<Value>>: succeeds exactly on a
/// well-formed JSON array, returning its elements in order.
#[verifier::external_body]
pub fn parse_json_value_array(s: &str) -> (r: Result<Vec<serde_json::Value>, String>)
    ensures
        r is Ok <==> json_array_of(s@) is Some,
        r matches Ok(v) ==> Some(v@) == json_array_of(s@),
{
    serde_json::from_str::<Vec<serde_json::Value>>(s).map_err(|e| e.to_string())
}

/// Relies on serde_json::Value::get: the value under `key` when the
/// value is an object holding it, `None` otherwise.
#[verifier::external_body]
pub fn value_field<'a>(v: &'a serde_json::Value, key: &str) -> (r: Option<
    &'a serde_json::Value,
>)
    ensures
        r is Some <==> field_of(*v, key@) is Some,
        r matches Some(f) ==> Some(*f) == field_of(*v, key@),
{
    v.get(key)
}

/// Relies on serde_json::Value::as_str: the text when the value is a
/// JSON string, `None` otherwise.
#[verifier::external_body]
pub fn value_as_str(v: &serde_json::Value) -> (r: Option<String>)
    ensures
        r is Some <==> str_of(*v) is Some,
        r matches Some(s) ==> Some(s@) == str_of(*v),
{
    v.as_str().map(|s| s.to_owned())
}

/// Relies on serde_json::Value::as_array: the elements when the value
/// is a JSON array, `None` otherwise.
#[verifier::external_body]
pub fn value_as_array(v: &serde_json::Value) -> (r: Option<Vec<serde_json::Value>>)
    ensures
        r is Some <==> array_of(*v) is Some,
        r matches Some(a) ==> Some(a@) == array_of(*v),
{
    v.as_array().map(|a| a.clone())
}

/// Relies on Value's Clone implementation: the copy equals the
/// original.
#[verifier::external_body]
pub fn clone_value(v: &serde_json::Value) -> (r: serde_json::Value)
    ensures
        r == *v,
{
    v.clone()
}

/// Relies on serde_json::to_string_pretty: the multi-line rendering of
/// the list, or an explicit marker when rendering itself fails.
#[verifier::external_body]
pub fn pretty_json_list(items: &Vec<serde_json::Value>) -> (r: String) {
    serde_json::to_string_pretty(items).unwrap_or_else(|e| format!("<failed to format tool calls: {e}>"))
}

} // verus!
