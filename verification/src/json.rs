//! JSON values of `serde_json`, as far as the signing protocol reads them.
//!
//! A [`serde_json::Value`] is opaque to the verifier. Contracts speak of the
//! document it holds, a [`Json`], through [`json_view`]. The items marked
//! "Trusted" state what the source of `serde_json` shows and are believed,
//! not proved. Everything else in this file is proved from them.

use vstd::prelude::*;

verus! {

/// A JSON document as a mathematical value.
pub enum Json {
    Null,
    Bool(bool),
    /// A number, by its JSON text.
    Number(Seq<char>),
    Text(Seq<char>),
    Array(Seq<Json>),
    /// An object, by the member under each of its keys.
    Object(Map<Seq<char>, Json>),
}

/// Trusted: the type `serde_json::Value`. Verified code carries values of it
/// and sees nothing inside them.
#[verifier::external_type_specification]
#[verifier::external_body]
pub struct ExValue(serde_json::Value);

/// Trusted: the type `serde_json::Error`. Verified code only tells it from
/// success.
#[verifier::external_type_specification]
#[verifier::external_body]
pub struct ExError(serde_json::Error);

/// Trusted name: the document that a `serde_json::Value` holds. Its strings,
/// booleans and object members are tied to it by the contracts of
/// [`get_member`], `Value::as_str` and `Value::as_bool` below; of its other
/// parts nothing is said.
pub uninterp spec fn json_view(v: serde_json::Value) -> Json;

/// Trusted name: the compact JSON text that `serde_json::to_string` writes for
/// a value holding this document, or `None` where it reports an error. To
/// name it is to claim that the text depends on the document alone.
pub uninterp spec fn json_encoding(j: Json) -> Option<Seq<char>>;

/// The member of an object under a key; `None` for a missing key and for
/// anything that is not an object.
pub open spec fn member(j: Json, key: Seq<char>) -> Option<Json> {
    match j {
        Json::Object(fields) => if fields.contains_key(key) {
            Some(fields[key])
        } else {
            None
        },
        _ => None,
    }
}

/// The text of a member that is a JSON string.
pub open spec fn text_member(j: Json, key: Seq<char>) -> Option<Seq<char>> {
    match member(j, key) {
        Some(Json::Text(s)) => Some(s),
        _ => None,
    }
}

/// The value of a member that is a JSON boolean.
pub open spec fn bool_member(j: Json, key: Seq<char>) -> Option<bool> {
    match member(j, key) {
        Some(Json::Bool(b)) => Some(b),
        _ => None,
    }
}

/// The JSON text of a member, where it is present and can be written.
pub open spec fn encoded_member(j: Json, key: Seq<char>) -> Option<Seq<char>> {
    match member(j, key) {
        Some(m) => json_encoding(m),
        None => None,
    }
}

/// Trusted: `serde_json::Value::get` with a string index. By its source it
/// returns the member under `key` where the value is an object that has the
/// key, and `None` for a missing key and for every value that is not an
/// object.
#[verifier::external_body]
pub(crate) fn get_member<'a>(v: &'a serde_json::Value, key: &str) -> (r: Option<&'a serde_json::Value>)
    ensures
        match r {
            Some(m) => member(json_view(*v), key@) == Some(json_view(*m)),
            None => member(json_view(*v), key@) is None,
        },
{
    v.get(key)
}

/// Trusted: `serde_json::Value::as_str`. By its source it returns the text of
/// a JSON string and `None` for every other value.
pub assume_specification<'a>[ serde_json::Value::as_str ](v: &'a serde_json::Value) -> (r: Option<&'a str>)
    ensures
        match r {
            Some(s) => json_view(*v) == Json::Text(s@),
            None => !(json_view(*v) is Text),
        },
;

/// Trusted: `serde_json::Value::as_bool`. By its source it returns the value
/// of a JSON boolean and `None` for every other value.
pub assume_specification[ serde_json::Value::as_bool ](v: &serde_json::Value) -> (r: Option<bool>)
    ensures
        match r {
            Some(b) => json_view(*v) == Json::Bool(b),
            None => !(json_view(*v) is Bool),
        },
;

/// Trusted: `serde_json::to_string` on a value. The text it writes is named
/// by [`json_encoding`]. Nothing is claimed about what the text is, nor
/// about when the call succeeds.
#[verifier::external_body]
pub(crate) fn encode(v: &serde_json::Value) -> (r: Result<String, serde_json::Error>)
    ensures
        match r {
            Ok(text) => json_encoding(json_view(*v)) == Some(text@),
            Err(_) => json_encoding(json_view(*v)) is None,
        },
{
    serde_json::to_string(v)
}

/// Reads the member `key` of `v` as text.
pub fn read_text(v: &serde_json::Value, key: &str) -> (r: Option<String>)
    ensures
        match r {
            Some(s) => text_member(json_view(*v), key@) == Some(s@),
            None => text_member(json_view(*v), key@) is None,
        },
{
    match get_member(v, key) {
        Some(m) => match m.as_str() {
            Some(s) => Some(s.to_owned()),
            None => None,
        },
        None => None,
    }
}

/// Reads the member `key` of `v` as a boolean.
pub fn read_bool(v: &serde_json::Value, key: &str) -> (r: Option<bool>)
    ensures
        r == bool_member(json_view(*v), key@),
{
    match get_member(v, key) {
        Some(m) => m.as_bool(),
        None => None,
    }
}

/// Writes the member `key` of `v` as JSON text.
pub fn read_encoded(v: &serde_json::Value, key: &str) -> (r: Option<String>)
    ensures
        match r {
            Some(s) => encoded_member(json_view(*v), key@) == Some(s@),
            None => encoded_member(json_view(*v), key@) is None,
        },
{
    match get_member(v, key) {
        Some(m) => match encode(m) {
            Ok(text) => Some(text),
            Err(_) => None,
        },
        None => None,
    }
}

} // verus!
