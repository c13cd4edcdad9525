//! JSON documents, as `serde_json` reads them.
//!
//! A document is parsed by `serde_json` into its own value type. This module
//! gives that type a mathematical model, `Json`, and states of each accessor
//! what it returns in terms of the model.

use vstd::prelude::*;
use serde_json::Value;

verus! {

/// `serde_json::Value`: a parsed JSON document.
#[verifier::external_type_specification]
#[verifier::external_body]
pub struct ExValue(serde_json::Value);

/// A JSON document.
pub enum Json {
    Null,
    Bool(bool),
    /// A number that is an integer of 64 bits.
    Integer(i64),
    /// Any other number: one with a fraction or an exponent, or an integer
    /// above the 64-bit signed range.
    OtherNumber,
    Text(Seq<char>),
    List(Seq<Json>),
    /// An object, by the names of its members.
    Dict(Map<Seq<char>, Json>),
}

/// The document that a value of `serde_json` holds.
pub uninterp spec fn json_of(value: Value) -> Json;

/// The document that `serde_json::from_str` reads from a text, or nothing
/// where it reports an error.
pub uninterp spec fn json_document(text: Seq<char>) -> Option<Json>;

/// The documents that a list of values holds.
pub open spec fn documents(values: Seq<Value>) -> Seq<Json> {
    values.map_values(|value: Value| json_of(value))
}

/// The member `name` of a document: nothing unless the document is an object
/// that has such a member.
pub open spec fn member_of(doc: Json, name: Seq<char>) -> Option<Json> {
    match doc {
        Json::Dict(members) => if members.contains_key(name) {
            Some(members[name])
        } else {
            None
        },
        _ => None,
    }
}

/// `serde_json::from_str` at the type `Value`: reads a whole text as one
/// JSON document. What it reads is a function of the text alone, named
/// `json_document`.
#[verifier::external_body]
pub(crate) fn parse_document(text: &str) -> (value: Option<Value>)
    ensures
        match value {
            Some(v) => json_document(text@) == Some(json_of(v)),
            None => json_document(text@) is None,
        },
{
    serde_json::from_str::<Value>(text).ok()
}

/// `Value::get` with a string index: the member of that name if the value
/// is an object that has one, else nothing.
#[verifier::external_body]
pub(crate) fn member<'a>(value: &'a Value, name: &str) -> (found: Option<&'a Value>)
    ensures
        match found {
            Some(v) => member_of(json_of(*value), name@) == Some(json_of(*v)),
            None => member_of(json_of(*value), name@) is None,
        },
{
    value.get(name)
}

/// `Value::as_i64`: the number if the value is an integer that fits in 64
/// signed bits, else nothing.
#[verifier::external_body]
pub(crate) fn integer(value: &Value) -> (found: Option<i64>)
    ensures
        match found {
            Some(i) => json_of(*value) == Json::Integer(i),
            None => !(json_of(*value) is Integer),
        },
{
    value.as_i64()
}

/// `Value::as_str`: the text if the value is a string, else nothing.
#[verifier::external_body]
pub(crate) fn text<'a>(value: &'a Value) -> (found: Option<&'a str>)
    ensures
        match found {
            Some(s) => json_of(*value) == Json::Text(s@),
            None => !(json_of(*value) is Text),
        },
{
    value.as_str()
}

/// `Value::as_array`: the elements if the value is an array, else nothing.
#[verifier::external_body]
pub(crate) fn elements<'a>(value: &'a Value) -> (found: Option<&'a Vec<Value>>)
    ensures
        match found {
            Some(items) => json_of(*value) == Json::List(documents(items@)),
            None => !(json_of(*value) is List),
        },
{
    value.as_array()
}

} // verus!
