//! JSON documents, read through the `serde_json` crate.
//!
//! Nothing in this file is proved: it states what the library takes from
//! `serde_json` on trust. A `serde_json::Value` is opaque to the verifier;
//! `json_tree` names the document that it holds.

use vstd::prelude::*;
use crate::tree::Tree;

verus! {

/// `serde_json::Value`, a parsed JSON value: opaque, nothing is claimed of
/// what is inside it.
#[verifier::external_type_specification]
#[verifier::external_body]
pub struct ExJsonValue(serde_json::Value);

/// `serde_json::Error`, why a text is not JSON: opaque, never read.
#[verifier::external_type_specification]
#[verifier::external_body]
pub struct ExJsonError(serde_json::Error);

/// The document that a `serde_json::Value` holds: a `String` is a `Text`, an
/// `Array` a `List` of its elements in order, an `Object` a `Table` of its
/// entries, every other variant `Other`.
pub uninterp spec fn json_tree(value: serde_json::Value) -> Tree;

/// The document that a text is the JSON for, or `None` where the text is not
/// JSON.
pub uninterp spec fn json_text_tree(text: Seq<char>) -> Option<Tree>;

/// The documents that a sequence of values holds, one by one.
pub open spec fn json_trees(values: Seq<serde_json::Value>) -> Seq<Tree> {
    Seq::new(values.len(), |i: int| json_tree(values[i]))
}

/// `serde_json::from_str` at `serde_json::Value`: parses a text as JSON.
/// Claimed: the outcome depends on the text alone; it is `Ok` of a value that
/// holds the text's document, or `Err` where the text is not JSON.
#[verifier::external_body]
pub(crate) fn parse_json(text: &str) -> (r: Result<serde_json::Value, serde_json::Error>)
    ensures
        match r {
            Ok(value) => json_text_tree(text@) == Some(json_tree(value)),
            Err(_) => json_text_tree(text@) is None,
        },
{
    serde_json::from_str::<serde_json::Value>(text)
}

/// `serde_json::Value::get` with a string index. Claimed: it returns the
/// entry under `key` where the value is an object that has one, else `None`.
#[verifier::external_body]
pub(crate) fn json_child<'a>(value: &'a serde_json::Value, key: &str) -> (r: Option<
    &'a serde_json::Value,
>)
    ensures
        match r {
            Some(entry) => json_tree(*value).child(key@) == Some(json_tree(*entry)),
            None => json_tree(*value).child(key@) is None,
        },
{
    value.get(key)
}

/// `serde_json::Value::as_str`. Claimed: it returns the string where the
/// value is one, else `None`.
#[verifier::external_body]
pub(crate) fn json_text<'a>(value: &'a serde_json::Value) -> (r: Option<&'a str>)
    ensures
        match r {
            Some(s) => json_tree(*value).text() == Some(s@),
            None => json_tree(*value).text() is None,
        },
{
    value.as_str()
}

/// `serde_json::Value::as_array`. Claimed: it returns the elements, in order,
/// where the value is an array, else `None`.
#[verifier::external_body]
pub(crate) fn json_items<'a>(value: &'a serde_json::Value) -> (r: Option<
    &'a Vec<serde_json::Value>,
>)
    ensures
        match r {
            Some(items) => json_tree(*value).items() == Some(json_trees(items@)),
            None => json_tree(*value).items() is None,
        },
{
    value.as_array()
}

} // verus!
