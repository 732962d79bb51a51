//! The JSON facility this library relies on: `serde_json`, behind contracts.
//!
//! A parsed document is a `serde_json::Value`, which Verus cannot look into.
//! Its contents are modelled by [`Json`]. The functions at the end of this
//! file call `serde_json`; their contracts say, over that model, what its
//! documentation promises. None of them is proved.

use vstd::prelude::*;

verus! {

/// A JSON document as a mathematical value.
pub enum Json {
    Null,
    Bool(bool),
    /// A number, with its value where it is a non-negative integer that a
    /// `u64` holds.
    Number(Option<u64>),
    Text(Seq<char>),
    Array(Seq<Json>),
    Object(Map<Seq<char>, Json>),
}

impl Json {
    /// The member named `key`, where this is an object that has one.
    pub open spec fn member(self, key: Seq<char>) -> Option<Json> {
        match self {
            Json::Object(members) => if members.dom().contains(key) {
                Some(members[key])
            } else {
                None
            },
            _ => None,
        }
    }

    /// The text, where this is a string.
    pub open spec fn text(self) -> Option<Seq<char>> {
        match self {
            Json::Text(text) => Some(text),
            _ => None,
        }
    }

    /// The value, where this is a non-negative integer that a `u64` holds.
    pub open spec fn unsigned(self) -> Option<u64> {
        match self {
            Json::Number(value) => value,
            _ => None,
        }
    }

    /// The elements, where this is an array.
    pub open spec fn items(self) -> Option<Seq<Json>> {
        match self {
            Json::Array(items) => Some(items),
            _ => None,
        }
    }
}

/// `serde_json`'s parsed document. Its inside is hidden from Verus; the
/// functions below are the only way to read it.
#[verifier::external_type_specification]
#[verifier::external_body]
pub struct ExValue(serde_json::Value);

/// What a `serde_json::Value` holds.
pub uninterp spec fn json_tree(doc: serde_json::Value) -> Json;

/// What `serde_json::from_slice` reads from `bytes`: the document, or `None`
/// where it reports an error.
pub uninterp spec fn json_document(bytes: Seq<u8>) -> Option<Json>;

/// The JSON string literal, quotes and escapes included, that
/// `serde_json::to_string` writes for `text`.
pub uninterp spec fn json_quoted(text: Seq<char>) -> Seq<char>;

/// `serde_json::from_slice`, reading a `Value`. The same bytes always give
/// the same document or the same refusal; the contract gives that outcome its
/// name and says no more.
#[verifier::external_body]
pub(crate) fn parse(bytes: &[u8]) -> (doc: Option<serde_json::Value>)
    ensures
        match doc {
            Some(value) => json_document(bytes@) == Some(json_tree(value)),
            None => json_document(bytes@) is None,
        },
{
    serde_json::from_slice(bytes).ok()
}

/// `Value::get` with a string key: the member of that name where the value is
/// an object that has one, `None` otherwise.
#[verifier::external_body]
pub(crate) fn member<'a>(doc: &'a serde_json::Value, key: &str) -> (found: Option<
    &'a serde_json::Value,
>)
    ensures
        match found {
            Some(value) => json_tree(*doc).member(key@) == Some(json_tree(*value)),
            None => json_tree(*doc).member(key@) is None,
        },
{
    doc.get(key)
}

/// `Value::as_str`: the text where the value is a string, `None` otherwise.
#[verifier::external_body]
pub(crate) fn text<'a>(doc: &'a serde_json::Value) -> (found: Option<&'a str>)
    ensures
        match found {
            Some(text) => json_tree(*doc).text() == Some(text@),
            None => json_tree(*doc).text() is None,
        },
{
    doc.as_str()
}

/// `Value::as_u64`: the number where the value is an integer that a `u64`
/// holds, `None` otherwise.
#[verifier::external_body]
pub(crate) fn unsigned(doc: &serde_json::Value) -> (found: Option<u64>)
    ensures
        found == json_tree(*doc).unsigned(),
{
    doc.as_u64()
}

/// `Value::as_array`: the elements, in order, where the value is an array,
/// `None` otherwise.
#[verifier::external_body]
pub(crate) fn items<'a>(doc: &'a serde_json::Value) -> (found: Option<&'a Vec<serde_json::Value>>)
    ensures
        match found {
            Some(list) => json_tree(*doc).items() == Some(
                list@.map_values(|item: serde_json::Value| json_tree(item)),
            ),
            None => json_tree(*doc).items() is None,
        },
{
    doc.as_array()
}

/// `Value::is_null`: whether the value is `null`.
#[verifier::external_body]
pub(crate) fn is_null(doc: &serde_json::Value) -> (null: bool)
    ensures
        null == (json_tree(*doc) is Null),
{
    doc.is_null()
}

/// `Value::is_object`: whether the value is an object.
#[verifier::external_body]
pub(crate) fn is_object(doc: &serde_json::Value) -> (object: bool)
    ensures
        object == (json_tree(*doc) is Object),
{
    doc.is_object()
}

/// `serde_json::to_string` on a string slice: the JSON string literal for
/// `text`. For a string written into memory `serde_json` has no failure path
/// (its only errors there are those of the writer, and a `Vec` has none), so
/// the contract promises `Some`.
#[verifier::external_body]
pub(crate) fn quote(text: &str) -> (literal: Option<String>)
    ensures
        literal is Some,
        literal->0@ == json_quoted(text@),
{
    serde_json::to_string(text).ok()
}

} // verus!
