//! Reading parsed TOML: what a table holds under a key, field by field.

use crate::text::option_view;
use crate::toml_doc::{error_text, parse_table, table_get, table_model, toml_document, ValueModel};
use vstd::prelude::*;

verus! {

/// A text that is not a TOML document.
#[derive(Debug, Clone, PartialEq, Eq)]
pub struct ParseError {
    /// What the parser said of the text.
    pub message: String,
}

/// The value stored under `key`, if the table has that key.
pub open spec fn entry(table: Map<Seq<char>, ValueModel>, key: Seq<char>) -> Option<ValueModel> {
    if table.contains_key(key) {
        Some(table[key])
    } else {
        None
    }
}

/// The characters of a string value, `None` for any other value.
pub open spec fn text_of(value: ValueModel) -> Option<Seq<char>> {
    match value {
        ValueModel::Str(s) => Some(s),
        _ => None,
    }
}

/// The string stored under `key`, if the table holds a string there.
pub open spec fn text_entry(table: Map<Seq<char>, ValueModel>, key: Seq<char>) -> Option<
    Seq<char>,
> {
    match entry(table, key) {
        Some(value) => text_of(value),
        None => None,
    }
}

/// The string stored under `key`, empty where the table holds no string
/// there.
pub open spec fn text_entry_or_empty(table: Map<Seq<char>, ValueModel>, key: Seq<char>) -> Seq<
    char,
> {
    match text_entry(table, key) {
        Some(text) => text,
        None => Seq::empty(),
    }
}

/// Parses a text as a TOML document. The error carries the parser's
/// message.
pub fn parse_document(text: &str) -> (r: Result<toml::Table, ParseError>)
    ensures
        match r {
            Ok(table) => toml_document(text@) == Some(table_model(table)),
            Err(_) => toml_document(text@) is None,
        },
{
    match parse_table(text) {
        Ok(table) => Ok(table),
        Err(e) => Err(ParseError { message: error_text(&e) }),
    }
}

/// The string stored under `key`, if the table holds a string there.
pub fn string_entry(table: &toml::Table, key: &str) -> (s: Option<String>)
    ensures
        option_view(s) == text_entry(table_model(*table), key@),
{
    match table_get(table, key) {
        Some(value) => match value.as_str() {
            Some(text) => Some(text.to_owned()),
            None => None,
        },
        None => None,
    }
}

/// The string stored under `key`, empty where the table holds no string
/// there.
pub fn string_entry_or_empty(table: &toml::Table, key: &str) -> (s: String)
    ensures
        s@ == text_entry_or_empty(table_model(*table), key@),
{
    match string_entry(table, key) {
        Some(text) => text,
        None => String::new(),
    }
}

} // verus!
