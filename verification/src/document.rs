//! TOML documents, as the `toml` crate reads them.

use toml::Value;
use vstd::prelude::*;

verus! {

/// `toml::Value`, a value of a TOML document. Nothing of its inside is known
/// here but what the functions below say.
#[verifier::external_type_specification]
#[verifier::external_body]
pub struct ExValue(toml::Value);

/// `toml::de::Error`, with which the reading of a document fails.
#[verifier::external_type_specification]
#[verifier::external_body]
pub struct ExDocumentError(toml::de::Error);

/// The table that `toml` reads from `text` as a TOML document, if `text` is one.
pub uninterp spec fn toml_document(text: Seq<char>) -> Option<Value>;

/// What `Value::get` finds in `value` under the key `key`.
pub uninterp spec fn toml_entry(value: Value, key: Seq<char>) -> Option<Value>;

/// What `Value::as_str` finds in `value`: its text, if it is a string.
pub uninterp spec fn toml_string(value: Value) -> Option<Seq<char>>;

/// `str::parse` into a `toml::Table`, which reads a TOML document: the
/// document's table as a value, or the error where `text` is no document.
#[verifier::external_body]
pub(crate) fn parse_document(text: &str) -> (r: Result<Value, toml::de::Error>)
    ensures
        match r {
            Ok(table) => toml_document(text@) == Some(table),
            Err(_) => toml_document(text@) is None,
        },
{
    text.parse::<toml::Table>().map(Value::Table)
}

/// `Value::get` with a string for the index: the value under `key` where
/// `value` is a table that has the key.
#[verifier::external_body]
pub(crate) fn get<'a>(value: &'a Value, key: &str) -> (r: Option<&'a Value>)
    ensures
        match r {
            Some(found) => toml_entry(*value, key@) == Some(*found),
            None => toml_entry(*value, key@) is None,
        },
{
    value.get(key)
}

/// `Value::as_str`: the text of `value` where it is a string.
#[verifier::external_body]
pub(crate) fn as_str<'a>(value: &'a Value) -> (r: Option<&'a str>)
    ensures
        r.deep_view() == toml_string(*value),
{
    value.as_str()
}

} // verus!
