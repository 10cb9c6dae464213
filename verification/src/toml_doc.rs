//! The TOML documents this library reads, as the `toml` crate parses them.
//!
//! Nothing here is proved: the declarations below state what the `toml`
//! crate does, over a mathematical model of its values.

use crate::date::{Date, DateTimeParts};
use vstd::prelude::*;

verus! {

/// `toml::Value`, a TOML value. Opaque here: `value_model` says what it
/// holds.
#[verifier::external_type_specification]
#[verifier::external_body]
pub struct ExValue(toml::Value);

/// `toml::map::Map`, of which `toml::Table` is the map from `String` to
/// `toml::Value`. Opaque here: `table_model` says what a table holds.
#[verifier::external_type_specification]
#[verifier::external_body]
#[verifier::reject_recursive_types(K)]
#[verifier::reject_recursive_types(V)]
pub struct ExMap<K, V>(toml::map::Map<K, V>);

/// `toml::de::Error`, the error of a text that is not a TOML document.
#[verifier::external_type_specification]
#[verifier::external_body]
pub struct ExError(toml::de::Error);

/// What a TOML value holds, as far as this library reads it.
pub enum ValueModel {
    /// A string, with its characters.
    Str(Seq<char>),
    /// A date-time, with its calendar date if it has one, and whether it has
    /// a time of day and an offset.
    Datetime(DateTimeParts),
    /// An array, with its items in order.
    Array(Seq<ValueModel>),
    /// A table, with its entries by key.
    Table(Map<Seq<char>, ValueModel>),
    /// An integer, a float or a boolean.
    Other,
}

/// What the value `v` holds.
pub uninterp spec fn value_model(v: toml::Value) -> ValueModel;

/// The entries of the table `t`, by key.
pub uninterp spec fn table_model(t: toml::Table) -> Map<Seq<char>, ValueModel>;

/// The entries of the document that `text` parses to, `None` where `text`
/// is not a TOML document.
pub uninterp spec fn toml_document(text: Seq<char>) -> Option<Map<Seq<char>, ValueModel>>;

/// Parsing with `str::parse::<toml::Table>`, which depends on the text alone:
/// it gives the table of the document, or an error where the text is not TOML.
#[verifier::external_body]
pub(crate) fn parse_table(text: &str) -> (r: Result<toml::Table, toml::de::Error>)
    ensures
        match r {
            Ok(t) => toml_document(text@) == Some(table_model(t)),
            Err(_) => toml_document(text@) is None,
        },
{
    text.parse::<toml::Table>()
}

/// `toml::de::Error` written with `to_string`. Nothing is claimed of the text.
#[verifier::external_body]
pub(crate) fn error_text(e: &toml::de::Error) -> String {
    e.to_string()
}

/// `Map::get` on a table: the value stored under `key`, if there is one.
#[verifier::external_body]
pub(crate) fn table_get<'a>(t: &'a toml::Table, key: &str) -> (r: Option<&'a toml::Value>)
    ensures
        match r {
            Some(v) => table_model(*t).contains_key(key@) && table_model(*t)[key@] == value_model(*v),
            None => !table_model(*t).contains_key(key@),
        },
{
    t.get(key)
}

/// `Value::as_str` gives the characters of a string value, and `None` for
/// any other value.
pub assume_specification[ toml::Value::as_str ](v: &toml::Value) -> (r: Option<&str>)
    ensures
        match r {
            Some(s) => value_model(*v) == ValueModel::Str(s@),
            None => !(value_model(*v) is Str),
        },
;

/// `Value::as_array` gives the items of an array value, and `None` for any
/// other value.
pub assume_specification[ toml::Value::as_array ](v: &toml::Value) -> (r: Option<&Vec<toml::Value>>)
    ensures
        match r {
            Some(items) => value_model(*v) == ValueModel::Array(
                items@.map_values(|item: toml::Value| value_model(item)),
            ),
            None => !(value_model(*v) is Array),
        },
;

/// `Value::as_table` gives the table of a table value, and `None` for any
/// other value.
pub assume_specification[ toml::Value::as_table ](v: &toml::Value) -> (r: Option<&toml::Table>)
    ensures
        match r {
            Some(t) => value_model(*v) == ValueModel::Table(table_model(*t)),
            None => !(value_model(*v) is Table),
        },
;

/// `Value::as_datetime` and the three fields of what it gives: for a
/// date-time value its calendar date, if it has one, and whether its `time`
/// and its `offset` are there; `None` for any other value.
#[verifier::external_body]
pub(crate) fn value_datetime(v: &toml::Value) -> (r: Option<DateTimeParts>)
    ensures
        r == match value_model(*v) {
            ValueModel::Datetime(parts) => Some(parts),
            _ => None,
        },
{
    match v.as_datetime() {
        Some(moment) => Some(DateTimeParts {
            date: match moment.date {
                Some(d) => Some(Date { year: d.year, month: d.month, day: d.day }),
                None => None,
            },
            has_time: moment.time.is_some(),
            has_offset: moment.offset.is_some(),
        }),
        None => None,
    }
}

} // verus!
