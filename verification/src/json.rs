//! JSON documents, as `serde_json` reads them.
//!
//! The parser and the accessors are `serde_json`'s own. What they return is
//! stated here over a mathematical model of a JSON value; the statements are
//! taken on trust from `serde_json`'s documentation.

use vstd::prelude::*;

verus! {

/// A JSON value, as mathematics. A number is known to be a number and no
/// more: nothing here reads one.
pub enum Json {
    Null,
    Bool(bool),
    Number,
    Text(Seq<char>),
    Array(Seq<Json>),
    Object(Map<Seq<char>, Json>),
}

impl Json {
    /// The text of a JSON string; nothing for any other value.
    pub open spec fn text(self) -> Option<Seq<char>> {
        match self {
            Json::Text(t) => Some(t),
            _ => None,
        }
    }

    /// The member of a JSON object under `key`; nothing where the object has
    /// no such member or the value is no object.
    pub open spec fn member(self, key: Seq<char>) -> Option<Json> {
        match self {
            Json::Object(members) => if members.contains_key(key) {
                Some(members[key])
            } else {
                None
            },
            _ => None,
        }
    }

    /// The element of a JSON array at `index`; nothing where the array is
    /// shorter or the value is no array.
    pub open spec fn element(self, index: int) -> Option<Json> {
        match self {
            Json::Array(elements) => if 0 <= index < elements.len() {
                Some(elements[index])
            } else {
                None
            },
            _ => None,
        }
    }
}

#[verifier::external_type_specification]
#[verifier::external_body]
pub struct ExValue(serde_json::Value);

#[verifier::external_type_specification]
#[verifier::external_body]
pub struct ExError(serde_json::Error);

/// What a `serde_json::Value` holds.
pub uninterp spec fn json_model(value: serde_json::Value) -> Json;

/// The JSON value that a text denotes to `serde_json`, or nothing where the
/// text is not one JSON document.
pub uninterp spec fn json_document(text: Seq<char>) -> Option<Json>;

/// `serde_json::from_str` at `Value`: it returns the value that the text
/// denotes, and an error exactly where the text is not a JSON document.
#[verifier::external_body]
pub(crate) fn from_str(text: &str) -> (r: Result<serde_json::Value, serde_json::Error>)
    ensures
        match r {
            Ok(value) => json_document(text@) == Some(json_model(value)),
            Err(_) => json_document(text@) is None,
        },
{
    serde_json::from_str(text)
}

/// `Value::get` with a text as index: the member of an object under that
/// key. It returns nothing where the value is no object or has no such
/// member.
#[verifier::external_body]
pub(crate) fn get_member<'a>(value: &'a serde_json::Value, key: &str) -> (r: Option<
    &'a serde_json::Value,
>)
    ensures
        match r {
            Some(member) => json_model(*value).member(key@) == Some(json_model(*member)),
            None => json_model(*value).member(key@) is None,
        },
{
    value.get(key)
}

/// `Value::get` with a number as index: the element of an array at that
/// place. It returns nothing where the value is no array or is too short.
#[verifier::external_body]
pub(crate) fn get_element<'a>(value: &'a serde_json::Value, index: usize) -> (r: Option<
    &'a serde_json::Value,
>)
    ensures
        match r {
            Some(element) => json_model(*value).element(index as int) == Some(
                json_model(*element),
            ),
            None => json_model(*value).element(index as int) is None,
        },
{
    value.get(index)
}

/// `Value::as_str`: the text of a JSON string, and nothing for any other
/// value.
#[verifier::external_body]
pub(crate) fn as_str<'a>(value: &'a serde_json::Value) -> (r: Option<&'a str>)
    ensures
        match r {
            Some(text) => json_model(*value).text() == Some(text@),
            None => json_model(*value).text() is None,
        },
{
    value.as_str()
}

} // verus!
