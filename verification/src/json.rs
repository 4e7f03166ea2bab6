//! The boundary to `serde_json`.
//!
//! JSON text is read and written by that crate. A `serde_json::Value` is
//! opaque to the verifier; what it holds is named by [`json_of`], and each
//! function below states, without proof, what one function of `serde_json`
//! does in terms of that name.

use vstd::prelude::*;

verus! {

/// What a JSON document denotes.
pub enum Json {
    Null,
    Bool(bool),
    /// A number, by the text `serde_json` prints for it.
    Number(Seq<char>),
    Str(Seq<char>),
    Array(Seq<Json>),
    /// An object: each member name occurs once.
    Object(Map<Seq<char>, Json>),
}

#[verifier::external_type_specification]
#[verifier::external_body]
pub struct ExValue(serde_json::Value);

#[verifier::external_type_specification]
#[verifier::external_body]
pub struct ExJsonError(serde_json::Error);

/// The document that a `serde_json::Value` holds.
pub uninterp spec fn json_of(value: serde_json::Value) -> Json;

/// The document that `serde_json::from_slice` reads from `text`, where it
/// accepts the text.
pub uninterp spec fn json_parse(text: Seq<u8>) -> Option<Json>;

/// The bytes that `serde_json::to_vec` writes for a document, where it
/// writes any.
pub uninterp spec fn json_text(document: Json) -> Option<Seq<u8>>;

/// `serde_json::from_slice::<Value>`. Trusted: the value it returns holds the
/// document that `json_parse` names for the text, and it returns an error
/// exactly where `json_parse` names none.
#[verifier::external_body]
pub(crate) fn parse_value(text: &[u8]) -> (r: Result<serde_json::Value, serde_json::Error>)
    ensures
        match r {
            Ok(value) => json_parse(text@) == Some(json_of(value)),
            Err(_) => json_parse(text@) is None,
        },
{
    serde_json::from_slice::<serde_json::Value>(text)
}

/// `serde_json::to_vec` on a `Value`. Trusted: the bytes it returns are those
/// that `json_text` names for the document the value holds, and it returns an
/// error exactly where `json_text` names none.
#[verifier::external_body]
pub(crate) fn render_value(value: &serde_json::Value) -> (r: Result<Vec<u8>, serde_json::Error>)
    ensures
        match r {
            Ok(text) => json_text(json_of(*value)) == Some(text@),
            Err(_) => json_text(json_of(*value)) is None,
        },
{
    serde_json::to_vec(value)
}

/// `Value::get` with a string key. Trusted: it returns the member of an
/// object under that key, and `None` where the value is no object or the
/// object has no member of that name.
#[verifier::external_body]
pub(crate) fn member<'a>(value: &'a serde_json::Value, key: &str) -> (r: Option<
    &'a serde_json::Value,
>)
    ensures
        match json_of(*value) {
            Json::Object(members) => if members.dom().contains(key@) {
                r matches Some(found) && json_of(*found) == members[key@]
            } else {
                r is None
            },
            _ => r is None,
        },
{
    value.get(key)
}

/// `Value::as_str`, with the text copied out. Trusted: it returns the text of
/// a JSON string, and `None` for any other value.
#[verifier::external_body]
pub(crate) fn text_of(value: &serde_json::Value) -> (r: Option<String>)
    ensures
        match json_of(*value) {
            Json::Str(text) => r matches Some(found) && found@ == text,
            _ => r is None,
        },
{
    match value.as_str() {
        Some(text) => Some(text.to_owned()),
        None => None,
    }
}

/// `Value::is_null`. Trusted: it tells whether the value is JSON `null`.
#[verifier::external_body]
pub(crate) fn is_null(value: &serde_json::Value) -> (r: bool)
    ensures
        r == (json_of(*value) is Null),
{
    value.is_null()
}

/// `Value::from(String)`. Trusted: the value is the JSON string of that text.
#[verifier::external_body]
pub(crate) fn string_value(text: String) -> (r: serde_json::Value)
    ensures
        json_of(r) == Json::Str(text@),
{
    serde_json::Value::from(text)
}

/// `Value::Null`. Trusted: the value is JSON `null`.
#[verifier::external_body]
pub(crate) fn null_value() -> (r: serde_json::Value)
    ensures
        json_of(r) == Json::Null,
{
    serde_json::Value::Null
}

/// `Value::Object` of `Map::new()`. Trusted: the value is the object without
/// members.
#[verifier::external_body]
pub(crate) fn empty_object() -> (r: serde_json::Value)
    ensures
        json_of(r) == Json::Object(Map::empty()),
{
    serde_json::Value::Object(serde_json::Map::new())
}

/// `Map::insert` on the members of an object. Trusted: the member under `key`
/// becomes `item`, whether or not the object had a member of that name, and
/// no other member changes.
#[verifier::external_body]
pub(crate) fn with_member(object: serde_json::Value, key: &str, item: serde_json::Value) -> (r:
    serde_json::Value)
    requires
        json_of(object) is Object,
    ensures
        json_of(r) == Json::Object(json_of(object)->Object_0.insert(key@, json_of(item))),
{
    let mut object = object;
    if let serde_json::Value::Object(members) = &mut object {
        members.insert(key.to_owned(), item);
    }
    object
}

} // verus!
