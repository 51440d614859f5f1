//! JSON documents, as `serde_json` parses and holds them.
//!
//! A document is opaque here. What it holds is named by four functions, and
//! each accessor is a call into `serde_json` whose contract is trusted.

use vstd::prelude::*;

verus! {

#[verifier::external_type_specification]
#[verifier::external_body]
pub struct ExValue(serde_json::Value);

#[verifier::external_type_specification]
#[verifier::external_body]
pub struct ExError(serde_json::Error);

/// The document that `serde_json::from_str` reads from a text, if it reads one.
pub uninterp spec fn json_parse(text: Seq<char>) -> Option<serde_json::Value>;

/// The member that `serde_json::Value::get` finds under a key: the value
/// stored under that key where the document is an object that holds it.
pub uninterp spec fn json_member(document: serde_json::Value, key: Seq<char>) -> Option<
    serde_json::Value,
>;

/// The text that `serde_json::Value::as_str` finds: the string's characters
/// where the value is a JSON string.
pub uninterp spec fn json_text(value: serde_json::Value) -> Option<Seq<char>>;

/// The items that `serde_json::Value::as_array` finds: the elements, in
/// order, where the value is a JSON array.
pub uninterp spec fn json_items(value: serde_json::Value) -> Option<Seq<serde_json::Value>>;

/// Calls `serde_json::from_str` for a `Value`. Trusted: whether a document
/// comes back, and which, depends on the text alone.
#[verifier::external_body]
pub(crate) fn parse(text: &str) -> (r: Result<serde_json::Value, serde_json::Error>)
    ensures
        match r {
            Ok(document) => json_parse(text@) == Some(document),
            Err(_) => json_parse(text@).is_none(),
        },
{
    serde_json::from_str::<serde_json::Value>(text)
}

/// Calls `to_string` on a `serde_json::Error`. Nothing is claimed of the
/// report's wording.
#[verifier::external_body]
pub(crate) fn report(error: &serde_json::Error) -> (message: String) {
    error.to_string()
}

/// Calls `serde_json::Value::get` with a string key. Trusted: the result is
/// the member named by `json_member`, and `None` where there is none.
#[verifier::external_body]
pub(crate) fn member<'a>(document: &'a serde_json::Value, key: &str) -> (r: Option<
    &'a serde_json::Value,
>)
    ensures
        match r {
            Some(value) => json_member(*document, key@) == Some(*value),
            None => json_member(*document, key@).is_none(),
        },
{
    document.get(key)
}

/// Calls `serde_json::Value::as_str`. Trusted: the result is the text named
/// by `json_text`, and `None` where the value is not a string.
#[verifier::external_body]
pub(crate) fn text<'a>(value: &'a serde_json::Value) -> (r: Option<&'a str>)
    ensures
        match r {
            Some(s) => json_text(*value) == Some(s@),
            None => json_text(*value).is_none(),
        },
{
    value.as_str()
}

/// Calls `serde_json::Value::as_array`. Trusted: the result holds the items
/// named by `json_items`, and is `None` where the value is not an array.
#[verifier::external_body]
pub(crate) fn items<'a>(value: &'a serde_json::Value) -> (r: Option<&'a Vec<serde_json::Value>>)
    ensures
        match r {
            Some(list) => json_items(*value) == Some(list@),
            None => json_items(*value).is_none(),
        },
{
    value.as_array()
}

} // verus!
