//! JSON documents as `serde_json` reads them, and what is taken on trust
//! about that crate: nothing here is proved. A document is looked at
//! through three questions: is it an array and of what, does it have this
//! field, is it a string and which.
use vstd::prelude::*;
use serde_json::Value;

verus! {

/// `serde_json::Value`: a JSON value. What it holds is read through
/// `as_array`, `field` and `as_text`.
#[verifier::external_type_specification]
#[verifier::external_body]
pub struct ExValue(Value);

/// `serde_json::Error`: why a text is not the expected JSON document. It
/// is carried, never read.
#[verifier::external_type_specification]
#[verifier::external_body]
pub struct ExError(serde_json::Error);

/// What this library reads in a JSON value. Null, booleans and numbers are
/// never read apart and count as `Other`.
pub enum Json {
    /// A string, by its characters.
    Text(Seq<char>),
    /// An array, by its items.
    Array(Seq<Json>),
    /// An object, by its fields. A name occurs once.
    Object(Map<Seq<char>, Json>),
    /// Anything else.
    Other,
}

/// What a `serde_json::Value` holds.
pub uninterp spec fn json_of(value: Value) -> Json;

/// What `serde_json::from_str` reads in a text as one JSON value: `None`
/// where the text is not one JSON document.
pub uninterp spec fn json_document(text: Seq<char>) -> Option<Json>;

/// What each of a list of values holds.
pub open spec fn jsons_of(values: Seq<Value>) -> Seq<Json> {
    Seq::new(values.len(), |i: int| json_of(values[i]))
}

/// `serde_json::from_str` at the type `Value`: the value that the whole
/// text stands for, or an error where it stands for none.
#[verifier::external_body]
pub(crate) fn parse(text: &str) -> (parsed: Result<Value, serde_json::Error>)
    ensures
        match parsed {
            Ok(value) => json_document(text@) == Some(json_of(value)),
            Err(_) => json_document(text@) is None,
        },
{
    serde_json::from_str::<Value>(text)
}

/// `Value::as_array`: the items, where the value is an array.
#[verifier::external_body]
pub(crate) fn as_array(value: &Value) -> (items: Option<&Vec<Value>>)
    ensures
        match items {
            Some(list) => json_of(*value) == Json::Array(jsons_of(list@)),
            None => !(json_of(*value) is Array),
        },
{
    value.as_array()
}

/// `Value::get` with a name: the field of that name, where the value is an
/// object that has one.
#[verifier::external_body]
pub(crate) fn field<'a>(value: &'a Value, name: &str) -> (found: Option<&'a Value>)
    ensures
        match found {
            Some(inner) => json_of(*value) matches Json::Object(fields) && fields.contains_pair(
                name@,
                json_of(*inner),
            ),
            None => json_of(*value) matches Json::Object(fields) ==> !fields.dom().contains(name@),
        },
{
    value.get(name)
}

/// `Value::as_str`: the characters, where the value is a string.
#[verifier::external_body]
pub(crate) fn as_text(value: &Value) -> (text: Option<&str>)
    ensures
        match text {
            Some(t) => json_of(*value) == Json::Text(t@),
            None => !(json_of(*value) is Text),
        },
{
    value.as_str()
}

/// `serde::de::Error::custom` for `serde_json::Error`: an error that says
/// `reason`. Nothing is claimed of it.
#[verifier::external_body]
pub(crate) fn mismatch(reason: &str) -> serde_json::Error {
    <serde_json::Error as serde::de::Error>::custom(reason)
}

} // verus!
