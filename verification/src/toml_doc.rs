//! TOML documents, read through the `toml` crate.
//!
//! Nothing in this file is proved: it states what the library takes from
//! `toml` on trust. A `toml::Value` is opaque to the verifier; `toml_tree`
//! names the document that it holds.

use vstd::prelude::*;
use crate::tree::Tree;

verus! {

/// `toml::Value`, a parsed TOML value: opaque, nothing is claimed of what is
/// inside it.
#[verifier::external_type_specification]
#[verifier::external_body]
pub struct ExTomlValue(toml::Value);

/// `toml::de::Error`, why a text is not TOML: opaque, never read.
#[verifier::external_type_specification]
#[verifier::external_body]
pub struct ExTomlError(toml::de::Error);

/// The document that a `toml::Value` holds: a `String` is a `Text`, an
/// `Array` a `List` of its elements in order, a `Table` a `Table` of its
/// entries, every other variant `Other`.
pub uninterp spec fn toml_tree(value: toml::Value) -> Tree;

/// The document that a text is the TOML for, or `None` where the text is not
/// TOML.
pub uninterp spec fn toml_text_tree(text: Seq<char>) -> Option<Tree>;

/// `<toml::Value as FromStr>::from_str`: parses a text as TOML. Claimed: the
/// outcome depends on the text alone; it is `Ok` of a value that holds the
/// text's document, or `Err` where the text is not TOML.
#[verifier::external_body]
pub(crate) fn parse_toml(text: &str) -> (r: Result<toml::Value, toml::de::Error>)
    ensures
        match r {
            Ok(value) => toml_text_tree(text@) == Some(toml_tree(value)),
            Err(_) => toml_text_tree(text@) is None,
        },
{
    text.parse::<toml::Value>()
}

/// `toml::Value::get` with a string index. Claimed: it returns the entry
/// under `key` where the value is a table that has one, else `None`.
#[verifier::external_body]
pub(crate) fn toml_child<'a>(value: &'a toml::Value, key: &str) -> (r: Option<&'a toml::Value>)
    ensures
        match r {
            Some(entry) => toml_tree(*value).child(key@) == Some(toml_tree(*entry)),
            None => toml_tree(*value).child(key@) is None,
        },
{
    value.get(key)
}

/// `toml::Value::as_str`. Claimed: it returns the string where the value is
/// one, else `None`.
#[verifier::external_body]
pub(crate) fn toml_text<'a>(value: &'a toml::Value) -> (r: Option<&'a str>)
    ensures
        match r {
            Some(s) => toml_tree(*value).text() == Some(s@),
            None => toml_tree(*value).text() is None,
        },
{
    value.as_str()
}

} // verus!
