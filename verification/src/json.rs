//! JSON documents as mathematical values, and the calls that read them.
//!
//! Documents are held as `serde_json::Value`. Verified code sees such a
//! value only through `json_of`, of which the functions in this module
//! say what `serde_json` documents of its accessors.

use vstd::prelude::*;

verus! {

/// What a JSON document holds.
pub enum Json {
    Null,
    Bool(bool),
    /// A number held as an integer.
    Integer(int),
    /// A number held as a fraction; its value is not modelled.
    Fraction,
    Text(Seq<char>),
    Array(Seq<Json>),
    Object(Map<Seq<char>, Json>),
}

/// `serde_json::Value`: a JSON document, of which verified code sees
/// nothing but what `json_of` tells.
#[verifier::external_type_specification]
#[verifier::external_body]
pub struct ExJsonValue(serde_json::Value);

/// What the document `value` holds.
pub uninterp spec fn json_of(value: serde_json::Value) -> Json;

/// The member `key` of `doc`, where `doc` is an object that has one.
pub open spec fn json_member(doc: Json, key: Seq<char>) -> Option<Json> {
    match doc {
        Json::Object(members) => if members.contains_key(key) {
            Some(members[key])
        } else {
            None
        },
        _ => None,
    }
}

/// The text of `doc`, where `doc` is a text.
pub open spec fn json_text(doc: Json) -> Option<Seq<char>> {
    match doc {
        Json::Text(text) => Some(text),
        _ => None,
    }
}

/// The items of `doc`, where `doc` is an array.
pub open spec fn json_items(doc: Json) -> Option<Seq<Json>> {
    match doc {
        Json::Array(items) => Some(items),
        _ => None,
    }
}

/// The integer of `doc`, where `doc` is a number held as an integer of
/// at most 64 bits with a sign.
pub open spec fn json_i64(doc: Json) -> Option<int> {
    match doc {
        Json::Integer(n) => if n <= i64::MAX {
            Some(n)
        } else {
            None
        },
        _ => None,
    }
}

/// The document that a JSON text denotes, where the text is one.
pub uninterp spec fn json_of_text(text: Seq<char>) -> Option<Json>;

/// A text as a JSON text: between quotes, with what the quotes cannot
/// hold escaped.
pub uninterp spec fn json_quoted(text: Seq<char>) -> Seq<char>;

/// `serde_json::Value::get` with a text key: the member of that name
/// where the value is an object that has one, and nothing otherwise.
#[verifier::external_body]
pub(crate) fn member<'a>(value: &'a serde_json::Value, key: &str) -> (found: Option<
    &'a serde_json::Value,
>)
    ensures
        match found {
            Some(child) => json_member(json_of(*value), key@) == Some(json_of(*child)),
            None => json_member(json_of(*value), key@) is None,
        },
{
    value.get(key)
}

/// `serde_json::Value::as_str`: the text where the value is a text, and
/// nothing otherwise.
#[verifier::external_body]
pub(crate) fn as_text<'a>(value: &'a serde_json::Value) -> (found: Option<&'a str>)
    ensures
        match found {
            Some(text) => json_text(json_of(*value)) == Some(text@),
            None => json_text(json_of(*value)) is None,
        },
{
    value.as_str()
}

/// `serde_json::Value::as_array`: the items where the value is an array,
/// and nothing otherwise.
#[verifier::external_body]
pub(crate) fn as_items<'a>(value: &'a serde_json::Value) -> (found: Option<
    &'a Vec<serde_json::Value>,
>)
    ensures
        match found {
            Some(items) => json_items(json_of(*value)) == Some(
                items@.map_values(|item: serde_json::Value| json_of(item)),
            ),
            None => json_items(json_of(*value)) is None,
        },
{
    value.as_array()
}

/// `serde_json::Value::as_i64`: the number where the value is a number
/// held as an integer that fits, and nothing otherwise.
#[verifier::external_body]
pub(crate) fn as_integer(value: &serde_json::Value) -> (found: Option<i64>)
    ensures
        match found {
            Some(n) => json_i64(json_of(*value)) == Some(n as int),
            None => json_i64(json_of(*value)) is None,
        },
{
    value.as_i64()
}

/// `serde_json::from_str` for a `serde_json::Value`: the document that
/// the text denotes, or nothing where the text is no JSON text. What
/// comes out depends on the text alone.
#[verifier::external_body]
pub(crate) fn parse_json(text: &str) -> (doc: Option<serde_json::Value>)
    ensures
        match doc {
            Some(value) => json_of_text(text@) == Some(json_of(value)),
            None => json_of_text(text@) is None,
        },
{
    serde_json::from_str::<serde_json::Value>(text).ok()
}

/// The `Display` of a `serde_json::Value::String`: the text as a JSON
/// text. What comes out depends on the text alone.
#[verifier::external_body]
pub(crate) fn json_quote(text: &str) -> (quoted: String)
    ensures
        quoted@ == json_quoted(text@),
{
    serde_json::Value::String(text.to_owned()).to_string()
}

} // verus!
