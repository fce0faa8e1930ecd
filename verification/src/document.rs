//! The structured-text decoder behind the manifest.
//!
//! Manifests are TOML. Decoding TOML is the `toml` crate's work; nothing in
//! this module is proved. Each item states what one function of that crate
//! returns, over names that stand for its results.

use vstd::prelude::*;

verus! {

/// `toml::map::Map`, the crate's table type; `toml::Table` is this map
/// from `String` to `toml::Value`.
#[verifier::external_type_specification]
#[verifier::external_body]
#[verifier::reject_recursive_types(K)]
#[verifier::reject_recursive_types(V)]
pub struct ExTomlMap<K, V>(toml::map::Map<K, V>);

/// `toml::Value`, one value of a document.
#[verifier::external_type_specification]
#[verifier::external_body]
pub struct ExTomlValue(toml::Value);

/// `toml::de::Error`, why a text is not a document.
#[verifier::external_type_specification]
#[verifier::external_body]
pub struct ExTomlError(toml::de::Error);

/// The document that a text decodes to, or `None` where the text is not
/// well-formed TOML.
pub uninterp spec fn parsed_document(text: Seq<char>) -> Option<toml::Table>;

/// The entries of a table, by key.
pub uninterp spec fn table_entries(table: toml::Table) -> Map<Seq<char>, toml::Value>;

/// The characters of a value that is a string, and `None` for any other
/// value.
pub uninterp spec fn value_text(value: toml::Value) -> Option<Seq<char>>;

/// The table of a value that is a table, and `None` for any other value.
pub uninterp spec fn value_table(value: toml::Value) -> Option<toml::Table>;

/// Calls `<toml::Table as FromStr>::from_str` through `str::parse`: decodes
/// a whole document. The result is the one that [`parsed_document`] names
/// for this text, an error standing for `None`.
#[verifier::external_body]
pub(crate) fn parse_document(text: &str) -> (r: Result<toml::Table, toml::de::Error>)
    ensures
        match r {
            Ok(table) => parsed_document(text@) == Some(table),
            Err(_) => parsed_document(text@) is None,
        },
{
    text.parse::<toml::Table>()
}

/// Calls `toml::map::Map::get`: the value stored under `key`, if the table
/// has that key.
#[verifier::external_body]
pub(crate) fn table_get<'a>(table: &'a toml::Table, key: &str) -> (r: Option<&'a toml::Value>)
    ensures
        match r {
            Some(value) => table_entries(*table).contains_key(key@) && table_entries(
                *table,
            )[key@] == *value,
            None => !table_entries(*table).contains_key(key@),
        },
{
    table.get(key)
}

/// Calls `toml::Value::as_str`: the string that a string value holds, and
/// `None` for a value of any other type.
#[verifier::external_body]
pub(crate) fn value_as_str<'a>(value: &'a toml::Value) -> (r: Option<&'a str>)
    ensures
        match r {
            Some(text) => value_text(*value) == Some(text@),
            None => value_text(*value) is None,
        },
{
    value.as_str()
}

/// Calls `toml::Value::as_table`: the table that a table value holds, and
/// `None` for a value of any other type.
#[verifier::external_body]
pub(crate) fn value_as_table<'a>(value: &'a toml::Value) -> (r: Option<&'a toml::Table>)
    ensures
        match r {
            Some(table) => value_table(*value) == Some(*table),
            None => value_table(*value) is None,
        },
{
    value.as_table()
}

} // verus!
