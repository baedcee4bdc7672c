//! JSON documents, read through `serde_json`.
//!
//! Nothing in this module is proved: it states what the parser and the
//! accessors of `serde_json::Value` are relied on to do. A record reads only
//! the members of a document's top-level object, and of each member only
//! whether it is an integer or a string, so that is all the model holds.

use vstd::prelude::*;

verus! {

/// `serde_json::Value`, a parsed JSON value. It is carried as it is; what
/// is known of one is what `scalar` and `members` name.
#[verifier::external_type_specification]
#[verifier::external_body]
pub struct ExValue(serde_json::Value);

/// `serde_json::Error`, the reason the parser gives for rejecting a text.
/// It is carried as it is and never looked into.
#[verifier::external_type_specification]
#[verifier::external_body]
pub struct ExJsonError(serde_json::Error);

/// What a JSON value is, as far as a record reads it.
pub enum Scalar {
    /// A number that `serde_json` holds as an integer and that fits in
    /// `i64`. Numbers with a fraction or an exponent are not held so.
    Integer(int),
    /// A string.
    Text(Seq<char>),
    /// Anything else: null, a boolean, any other number, an array, an object.
    Other,
}

/// What `value` is by itself: what `as_i64` and `as_str` tell of it.
pub uninterp spec fn scalar(value: serde_json::Value) -> Scalar;

/// The members of `value` by key, where `value` is an object; no members
/// where it is anything else. This is what `get` with a string key finds.
pub uninterp spec fn members(value: serde_json::Value) -> Map<Seq<char>, Scalar>;

/// The members of the value that `serde_json::from_str` parses `text` into,
/// or `None` where it rejects `text`.
pub uninterp spec fn parsed_members(text: Seq<char>) -> Option<Map<Seq<char>, Scalar>>;

/// `serde_json::from_str` with a `Value` as target. Whether the text is
/// accepted, and the members of the value it is parsed into, depend on the
/// text alone.
#[verifier::external_body]
pub(crate) fn parse(text: &str) -> (parsed: Result<serde_json::Value, serde_json::Error>)
    ensures
        parsed is Ok <==> parsed_members(text@) is Some,
        parsed matches Ok(value) ==> parsed_members(text@) == Some(members(value)),
{
    serde_json::from_str::<serde_json::Value>(text)
}

/// `Value::get` with a string key: the member of an object under that key,
/// `None` where there is no such member or the value is no object.
#[verifier::external_body]
pub(crate) fn member<'a>(value: &'a serde_json::Value, key: &str) -> (found: Option<
    &'a serde_json::Value,
>)
    ensures
        found is Some <==> members(*value).contains_key(key@),
        found matches Some(inner) ==> members(*value)[key@] == scalar(*inner),
{
    value.get(key)
}

/// `Value::as_i64`: the number, where the value is an integer that fits in
/// `i64`.
pub assume_specification[ serde_json::Value::as_i64 ](value: &serde_json::Value) -> (number:
    Option<i64>)
    ensures
        number is Some <==> scalar(*value) is Integer,
        number matches Some(n) ==> scalar(*value) == Scalar::Integer(n as int),
;

/// `Value::as_str`: the string, where the value is one.
pub assume_specification<'a>[ serde_json::Value::as_str ](value: &'a serde_json::Value) -> (text:
    Option<&'a str>)
    ensures
        text is Some <==> scalar(*value) is Text,
        text matches Some(s) ==> scalar(*value) == Scalar::Text(s@),
;

} // verus!
