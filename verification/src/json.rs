//! A mathematical model of JSON documents, and the few operations of
//! `serde_json` that the decoder reads a document through.

use vstd::prelude::*;

verus! {

/// What a JSON document holds. A number that is an integer is held by its
/// value, any other number by its decimal text.
pub enum Json {
    Null,
    Bool(bool),
    Int(int),
    Fraction(Seq<char>),
    Text(Seq<char>),
    Array(Seq<Json>),
    Object(Map<Seq<char>, Json>),
}

/// A JSON document as `serde_json` holds it. Its contents are read only
/// through the functions of this module.
#[verifier::external_body]
#[derive(Debug, PartialEq)]
pub struct JsonValue {
    inner: serde_json::Value,
}

impl Clone for JsonValue {
    /// `serde_json::Value::clone`: the copy holds the same document.
    #[verifier::external_body]
    fn clone(&self) -> (r: Self)
        ensures
            json_model(r) == json_model(*self),
    {
        JsonValue { inner: self.inner.clone() }
    }
}

#[verifier::external_type_specification]
#[verifier::external_body]
pub struct ExJsonError(serde_json::Error);

/// The document that a [`JsonValue`] holds.
pub uninterp spec fn json_model(value: JsonValue) -> Json;

/// The document that `serde_json::from_str` reads from a text; `None` where it
/// reports an error.
pub uninterp spec fn parsed_json(text: Seq<char>) -> Option<Json>;

/// `serde_json::from_str` at type `serde_json::Value`: the parser's outcome
/// depends on the text alone, and a successful parse holds the document named
/// by [`parsed_json`].
#[verifier::external_body]
pub(crate) fn parse_text(text: &str) -> (r: Result<JsonValue, serde_json::Error>)
    ensures
        r is Ok <==> parsed_json(text@) is Some,
        r is Ok ==> json_model(r->Ok_0) == parsed_json(text@)->0,
{
    match serde_json::from_str::<serde_json::Value>(text) {
        Ok(inner) => Ok(JsonValue { inner }),
        Err(e) => Err(e),
    }
}

impl JsonValue {
    /// Reads one JSON document from a text; `None` where the text is no
    /// well-formed document.
    pub fn parse(text: &str) -> (r: Option<JsonValue>)
        ensures
            r is Some <==> parsed_json(text@) is Some,
            r is Some ==> json_model(r->0) == parsed_json(text@)->0,
    {
        match parse_text(text) {
            Ok(value) => Some(value),
            Err(_) => None,
        }
    }

    /// The characters of a string document; `None` for every other document.
    pub fn text(&self) -> (r: Option<String>)
        ensures
            r is Some <==> json_model(*self) is Text,
            r is Some ==> r->0@ == json_model(*self)->Text_0,
    {
        match as_str(self) {
            Some(s) => Some(s.to_owned()),
            None => None,
        }
    }
}

/// `serde_json::Value::is_null`: true exactly for the null document.
#[verifier::external_body]
pub(crate) fn is_null(value: &JsonValue) -> (r: bool)
    ensures
        r == (json_model(*value) is Null),
{
    value.inner.is_null()
}

/// `serde_json::Value::as_i64`: the integer of a number document that fits in
/// `i64`, and `None` for every other document.
#[verifier::external_body]
pub(crate) fn as_i64(value: &JsonValue) -> (r: Option<i64>)
    ensures
        r == (match json_model(*value) {
            Json::Int(n) if i64::MIN <= n <= i64::MAX => Some(n as i64),
            _ => None::<i64>,
        }),
{
    value.inner.as_i64()
}

/// `serde_json::Value::as_str`: the characters of a string document, and
/// `None` for every other document.
#[verifier::external_body]
pub(crate) fn as_str(value: &JsonValue) -> (r: Option<&str>)
    ensures
        match json_model(*value) {
            Json::Text(s) => r is Some && r->0@ == s,
            _ => r is None,
        },
{
    value.inner.as_str()
}

/// `serde_json::Value::as_array`, read for its length: the number of elements
/// of an array document, and `None` for every other document.
#[verifier::external_body]
pub(crate) fn array_len(value: &JsonValue) -> (r: Option<usize>)
    ensures
        match json_model(*value) {
            Json::Array(items) => r is Some && r->0 == items.len(),
            _ => r is None,
        },
{
    match value.inner.as_array() {
        Some(items) => Some(items.len()),
        None => None,
    }
}

/// `serde_json::Value::get` with a number index: a copy of the element of an
/// array document at that position, and `None` where the position is past the
/// end or the document is no array.
#[verifier::external_body]
pub(crate) fn get_item(value: &JsonValue, index: usize) -> (r: Option<JsonValue>)
    ensures
        match json_model(*value) {
            Json::Array(items) => {
                &&& r is Some <==> index < items.len()
                &&& r is Some ==> json_model(r->0) == items[index as int]
            },
            _ => r is None,
        },
{
    match value.inner.get(index) {
        Some(item) => Some(JsonValue { inner: item.clone() }),
        None => None,
    }
}

/// `serde_json::Value::get` with a string index: a copy of the member of an
/// object document under that key, and `None` where the key is absent or the
/// document is no object.
#[verifier::external_body]
pub(crate) fn get_member(value: &JsonValue, key: &str) -> (r: Option<JsonValue>)
    ensures
        match json_model(*value) {
            Json::Object(members) => {
                &&& r is Some <==> members.contains_key(key@)
                &&& r is Some ==> json_model(r->0) == members[key@]
            },
            _ => r is None,
        },
{
    match value.inner.get(key) {
        Some(member) => Some(JsonValue { inner: member.clone() }),
        None => None,
    }
}

} // verus!
