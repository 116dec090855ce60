//! JSON documents, parsed and read through `serde_json`.

use vstd::prelude::*;

verus! {

/// `serde_json::Value`: a parsed JSON value. What it holds is read through
/// `member` and `number_text`, and spoken of as `json_content`.
#[verifier::external_type_specification]
#[verifier::external_body]
pub struct ExJsonValue(serde_json::Value);

/// `serde_json::Error`: why a text did not parse, carried through unread.
#[verifier::external_type_specification]
#[verifier::external_body]
pub struct ExJsonError(serde_json::Error);

/// What a JSON value holds, as far as this library reads it: a number by
/// its decimal text, as `serde_json` writes the number; an object by its
/// members; anything else unread.
pub enum JsonContent {
    /// A number, by its decimal text.
    Number(Seq<char>),
    /// An object, by the content of the member under each of its keys.
    Object(Map<Seq<char>, JsonContent>),
    /// A null, a boolean, a string or an array.
    Other,
}

/// The content of a parsed JSON value.
pub uninterp spec fn json_content(value: serde_json::Value) -> JsonContent;

/// The content of the document that a text is, where the text is one JSON
/// document and nothing more.
pub uninterp spec fn json_parse(text: Seq<char>) -> Option<JsonContent>;

/// The member of an object under a key; `None` of a value that is no
/// object or has no such member.
pub open spec fn object_member(content: JsonContent, key: Seq<char>) -> Option<JsonContent> {
    match content {
        JsonContent::Object(members) => if members.dom().contains(key) {
            Some(members[key])
        } else {
            None
        },
        _ => None,
    }
}

/// The decimal text of a number; `None` of any other value.
pub open spec fn number_of(content: JsonContent) -> Option<Seq<char>> {
    match content {
        JsonContent::Number(text) => Some(text),
        _ => None,
    }
}

/// `serde_json::from_str`, at the type `serde_json::Value`: succeeds exactly
/// on the texts that are one JSON document, and the value it returns holds
/// that document.
#[verifier::external_body]
pub(crate) fn parse_value(text: &str) -> (parsed: Result<serde_json::Value, serde_json::Error>)
    ensures
        match parsed {
            Ok(value) => json_parse(text@) == Some(json_content(value)),
            Err(_) => json_parse(text@) is None,
        },
{
    serde_json::from_str::<serde_json::Value>(text)
}

/// `serde_json::Value::get` with a string index: the member of an object
/// under that key, `None` where the value is no object or has no such
/// member.
#[verifier::external_body]
pub(crate) fn member<'a>(value: &'a serde_json::Value, key: &str) -> (found: Option<
    &'a serde_json::Value,
>)
    ensures
        match found {
            Some(inner) => object_member(json_content(*value), key@) == Some(json_content(*inner)),
            None => object_member(json_content(*value), key@) is None,
        },
{
    value.get(key)
}

/// `serde_json::Value::as_number`, and the number's `Display` text: the
/// decimal text of a value that is a number, `None` of any other value.
#[verifier::external_body]
pub(crate) fn number_text(value: &serde_json::Value) -> (text: Option<String>)
    ensures
        match text {
            Some(digits) => number_of(json_content(*value)) == Some(digits@),
            None => number_of(json_content(*value)) is None,
        },
{
    match value.as_number() {
        Some(number) => Some(number.to_string()),
        None => None,
    }
}

} // verus!
