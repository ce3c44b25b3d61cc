//! The calls into serde_json that the listing reader makes. A JSON value is
//! opaque here: what the reader learns of one is named after the serde_json
//! call that gives it.

use vstd::prelude::*;

verus! {

#[verifier::external_type_specification]
#[verifier::external_body]
pub struct ExValue(serde_json::Value);

#[verifier::external_type_specification]
#[verifier::external_body]
pub struct ExJsonError(serde_json::Error);

/// The elements of `s` read by serde_json as one JSON array, or `None` where
/// serde_json refuses `s` as that.
pub uninterp spec fn json_array_values(s: Seq<char>) -> Option<Seq<serde_json::Value>>;

/// The member `key` of `v`, where `v` is an object that has one.
pub uninterp spec fn json_member(v: serde_json::Value, key: Seq<char>) -> Option<serde_json::Value>;

/// The number in `v`, where it is a non-negative integer that fits in 64
/// bits.
pub uninterp spec fn json_u64(v: serde_json::Value) -> Option<u64>;

/// The text in `v`, where it is a string.
pub uninterp spec fn json_str(v: serde_json::Value) -> Option<Seq<char>>;

/// The decimal text of the number in `v` taken as a 64-bit float, where it
/// is a number.
pub uninterp spec fn json_number_text(v: serde_json::Value) -> Option<Seq<char>>;

/// Relies on serde_json::from_str into a vector of values: the text is
/// refused or read as one array, whose elements are handed back in order.
/// Besides malformed text, serde_json refuses other values than an array,
/// trailing text, nesting deeper than its limit and numbers out of range.
#[verifier::external_body]
pub(crate) fn parse_json_array(s: &str) -> (r: Result<Vec<serde_json::Value>, serde_json::Error>)
    ensures
        r is Ok <==> json_array_values(s@) is Some,
        r matches Ok(v) ==> v@ == json_array_values(s@)->0,
{
    serde_json::from_str(s)
}

/// Relies on serde_json::Error's `Display`: the error's description.
#[verifier::external_body]
pub(crate) fn json_error_text(e: &serde_json::Error) -> String {
    e.to_string()
}

/// Relies on serde_json::Value::get with a string key: the member of an
/// object, `None` for a missing key or a value that is no object.
#[verifier::external_body]
pub(crate) fn member<'a>(v: &'a serde_json::Value, key: &str) -> (r: Option<&'a serde_json::Value>)
    ensures
        r is Some <==> json_member(*v, key@) is Some,
        r matches Some(x) ==> json_member(*v, key@) == Some(*x),
{
    v.get(key)
}

/// Relies on serde_json::Value::as_u64: the number, where the value is a
/// non-negative integer that fits in 64 bits.
pub assume_specification[ serde_json::Value::as_u64 ](v: &serde_json::Value) -> (r: Option<u64>)
    ensures
        r == json_u64(*v),
;

/// Relies on serde_json::Value::as_str: the text, where the value is a
/// string.
pub assume_specification<'a>[ serde_json::Value::as_str ](v: &'a serde_json::Value) -> (r: Option<
    &'a str,
>)
    ensures
        r is Some <==> json_str(*v) is Some,
        r matches Some(s) ==> json_str(*v) == Some(s@),
;

/// Relies on serde_json::Value::as_f64 and the standard decimal rendering of
/// the resulting number: the number's text, where the value is a number.
#[verifier::external_body]
pub(crate) fn number_text(v: &serde_json::Value) -> (r: Option<String>)
    ensures
        r is Some <==> json_number_text(*v) is Some,
        r matches Some(s) ==> json_number_text(*v) == Some(s@),
{
    match v.as_f64() {
        Some(x) => Some(x.to_string()),
        None => None,
    }
}

} // verus!
