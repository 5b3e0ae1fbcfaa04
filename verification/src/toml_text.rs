//! Writing configuration entries as TOML text, through the `toml` crate.
use vstd::prelude::*;
use crate::options::{ValueView, strings_view};

verus! {

/// What the `toml` crate's `to_string` gives for a table that holds the single
/// key `key` with the value `value`: the text, or the text of its error.
pub uninterp spec fn toml_entry_text(key: Seq<char>, value: ValueView) -> Result<
    Seq<char>,
    Seq<char>,
>;

/// The model of a result that holds text either way.
pub open spec fn text_result(r: Result<String, String>) -> Result<Seq<char>, Seq<char>> {
    match r {
        Ok(s) => Ok(s@),
        Err(e) => Err(e@),
    }
}

/// Calls `toml::to_string` on a one-entry map from `key` to a boolean.
/// Claimed: the result is the text named by `toml_entry_text`, an error by its
/// `Display` text.
#[verifier::external_body]
pub(crate) fn toml_bool_entry(key: &str, value: bool) -> (r: Result<String, String>)
    ensures
        text_result(r) == toml_entry_text(key@, ValueView::Bool(value)),
{
    toml::to_string(&std::collections::BTreeMap::from([(key, value)])).map_err(|e| e.to_string())
}

/// Calls `toml::to_string` on a one-entry map from `key` to an unsigned integer.
/// Claimed: the result is the text named by `toml_entry_text`, an error by its
/// `Display` text.
#[verifier::external_body]
pub(crate) fn toml_usize_entry(key: &str, value: usize) -> (r: Result<String, String>)
    ensures
        text_result(r) == toml_entry_text(key@, ValueView::Usize(value)),
{
    toml::to_string(&std::collections::BTreeMap::from([(key, value)])).map_err(|e| e.to_string())
}

/// Calls `toml::to_string` on a one-entry map from `key` to a string.
/// Claimed: the result is the text named by `toml_entry_text`, an error by its
/// `Display` text.
#[verifier::external_body]
pub(crate) fn toml_text_entry(key: &str, value: &str) -> (r: Result<String, String>)
    ensures
        text_result(r) == toml_entry_text(key@, ValueView::Text(value@)),
{
    toml::to_string(&std::collections::BTreeMap::from([(key, value)])).map_err(|e| e.to_string())
}

/// Calls `toml::to_string` on a one-entry map from `key` to a list of strings.
/// Claimed: the result is the text named by `toml_entry_text`, an error by its
/// `Display` text.
#[verifier::external_body]
pub(crate) fn toml_paths_entry(key: &str, value: &Vec<String>) -> (r: Result<String, String>)
    ensures
        text_result(r) == toml_entry_text(key@, ValueView::Paths(strings_view(value@))),
{
    toml::to_string(&std::collections::BTreeMap::from([(key, value)])).map_err(|e| e.to_string())
}

/// What parsing `text` as a TOML document with the `toml` crate gives: the
/// keys of the top-level table in the order the crate keeps them, `None` when
/// the document is not a table, or the text of the parse error.
pub uninterp spec fn toml_parse_keys(text: Seq<char>) -> Result<Option<Seq<Seq<char>>>, Seq<char>>;

/// The model of the result of reading the keys of a document.
pub open spec fn keys_result(r: Result<Option<Vec<String>>, String>) -> Result<
    Option<Seq<Seq<char>>>,
    Seq<char>,
> {
    match r {
        Ok(Some(k)) => Ok(Some(strings_view(k@))),
        Ok(None) => Ok(None),
        Err(e) => Err(e@),
    }
}

/// Parses `text` as a `toml::Value` (its `FromStr`) and lists the keys of the
/// top-level table. Claimed: the result is what `toml_parse_keys` names, an
/// error by its `Display` text.
#[verifier::external_body]
pub(crate) fn toml_document_keys(text: &str) -> (r: Result<Option<Vec<String>>, String>)
    ensures
        keys_result(r) == toml_parse_keys(text@),
{
    match text.parse::<toml::Value>() {
        Ok(toml::Value::Table(t)) => Ok(Some(t.keys().cloned().collect())),
        Ok(_) => Ok(None),
        Err(e) => Err(e.to_string()),
    }
}

} // verus!
