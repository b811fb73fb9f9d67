//! Reading members out of a JSON document held by `serde_json`.
//!
//! A `serde_json::Value` is opaque to the verifier. What the library reads
//! from one, the text and the integer members of an object, is named here,
//! and each accessor says over those names what it hands back.

use vstd::prelude::*;

verus! {

#[verifier::external_type_specification]
#[verifier::external_body]
pub struct ExJsonValue(serde_json::Value);

/// The members of a JSON object whose value is a string, by member name.
/// A document that is not an object has none.
pub uninterp spec fn text_members(value: serde_json::Value) -> Map<Seq<char>, Seq<char>>;

/// The members of a JSON object whose value is an integer that fits in
/// sixty-four signed bits, by member name. A document that is not an
/// object has none.
pub uninterp spec fn integer_members(value: serde_json::Value) -> Map<Seq<char>, int>;

/// Calls `serde_json::Value::get` with a string index and then
/// `Value::as_str` on what it found.
///
/// Trusted: `get` yields the member of that name when the value is an
/// object that has one, and `as_str` yields its text when that member is a
/// JSON string. The result is a copy of exactly that text, and absent in
/// every other case.
#[verifier::external_body]
pub(crate) fn member_text(value: &serde_json::Value, name: &str) -> (found: Option<String>)
    ensures
        found is Some <==> text_members(*value).contains_key(name@),
        found matches Some(text) ==> text@ == text_members(*value)[name@],
{
    value.get(name)?.as_str().map(str::to_owned)
}

/// Calls `serde_json::Value::get` with a string index and then
/// `Value::as_i64` on what it found.
///
/// Trusted: `as_i64` yields the number when the member is a JSON integer
/// that an `i64` can represent, and nothing otherwise.
#[verifier::external_body]
pub(crate) fn member_integer(value: &serde_json::Value, name: &str) -> (found: Option<i64>)
    ensures
        found is Some <==> integer_members(*value).contains_key(name@),
        found matches Some(number) ==> number == integer_members(*value)[name@],
{
    value.get(name)?.as_i64()
}

} // verus!
