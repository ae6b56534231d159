//! The trusted boundary to the `toml` crate.
//!
//! TOML grammar, table storage and text emission belong to the `toml` crate;
//! everything here either declares one of its types or wraps one of its
//! functions with a contract stated over the document model of
//! [`crate::model`].  The names `toml_doc`, `table_doc`, `table_strings`,
//! `value_table` and `value_str` stand for the projections of parsed data
//! that the loader reads; no contract states what they are on given
//! characters, only how the wrapped calls relate them.

use vstd::prelude::*;

use crate::model::{string_only_doc, Doc, InnerDoc};

verus! {

#[verifier::external_type_specification]
#[verifier::external_body]
#[verifier::reject_recursive_types(K)]
#[verifier::reject_recursive_types(V)]
pub struct ExTomlMap<K, V>(toml::map::Map<K, V>);

#[verifier::external_type_specification]
#[verifier::external_body]
pub struct ExTomlValue(toml::Value);

/// The table projection of the document that parsing the text yields, or
/// `None` where the text is not valid TOML.
pub uninterp spec fn toml_doc(s: Seq<char>) -> Option<Doc>;

/// The table projection of what a table holds: each key, mapped to the
/// string projection of its value when that value is a table.
pub uninterp spec fn table_doc(t: toml::Table) -> Doc;

/// The string projection of what a table holds: each key, mapped to the
/// characters of its value when that value is a string.
pub uninterp spec fn table_strings(t: toml::Table) -> InnerDoc;

/// The string projection of a value's payload when the value is a table.
pub uninterp spec fn value_table(v: toml::Value) -> Option<InnerDoc>;

/// The characters of a value's payload when the value is a string.
pub uninterp spec fn value_str(v: toml::Value) -> Option<Seq<char>>;

/// Relies on toml::from_str::<toml::Table>: parses TOML text into its table
/// of top-level entries; the outcome depends on the characters alone.
#[verifier::external_body]
pub(crate) fn parse_toml_text(s: &str) -> (r: Option<toml::Table>)
    ensures
        r is Some <==> toml_doc(s@) is Some,
        r is Some ==> table_doc(r->0) == toml_doc(s@)->0,
{
    match toml::from_str::<toml::Table>(s) {
        Ok(t) => Some(t),
        Err(_) => None,
    }
}

/// Relies on toml::map::Map::get: the entry stored under the key, if any.
#[verifier::external_body]
pub(crate) fn table_get<'a>(t: &'a toml::Table, key: &str) -> (r: Option<&'a toml::Value>)
    ensures
        r is Some <==> table_doc(*t).dom().contains(key@),
        r is Some <==> table_strings(*t).dom().contains(key@),
        r is Some ==> value_table(*r->0) == table_doc(*t)[key@],
        r is Some ==> value_str(*r->0) == table_strings(*t)[key@],
{
    t.get(key)
}

/// Relies on toml::Value::as_table: the table payload of a table value.
#[verifier::external_body]
pub(crate) fn value_as_table<'a>(v: &'a toml::Value) -> (r: Option<&'a toml::Table>)
    ensures
        r is Some <==> value_table(*v) is Some,
        r is Some ==> table_strings(*r->0) == value_table(*v)->0,
{
    v.as_table()
}

/// Relies on toml::Value::as_str: the character payload of a string value.
#[verifier::external_body]
pub(crate) fn value_as_string(v: &toml::Value) -> (r: Option<String>)
    ensures
        r is Some <==> value_str(*v) is Some,
        r is Some ==> r->0@ == value_str(*v)->0,
{
    v.as_str().map(str::to_owned)
}

/// Relies on toml::map::Map::new: the new table holds no entries.
#[verifier::external_body]
pub(crate) fn table_new() -> (r: toml::Table)
    ensures
        table_doc(r) == crate::model::empty_doc(),
        table_strings(r) == crate::model::empty_inner(),
{
    toml::map::Map::new()
}

/// Relies on toml::map::Map::insert: stores a string value under the key,
/// replacing any entry the key held.
#[verifier::external_body]
pub(crate) fn table_insert_str(t: &mut toml::Table, key: &str, val: &str)
    ensures
        table_strings(*final(t)) == table_strings(*old(t)).insert(key@, Some(val@)),
        table_doc(*final(t)) == table_doc(*old(t)).insert(key@, None),
{
    let _ = t.insert(key.to_owned(), toml::Value::String(val.to_owned()));
}

/// Relies on toml::map::Map::insert: stores a sub-table under the key,
/// replacing any entry the key held.
#[verifier::external_body]
pub(crate) fn table_insert_table(t: &mut toml::Table, key: &str, sub: toml::Table)
    ensures
        table_doc(*final(t)) == table_doc(*old(t)).insert(key@, Some(table_strings(sub))),
        table_strings(*final(t)) == table_strings(*old(t)).insert(key@, None),
{
    let _ = t.insert(key.to_owned(), toml::Value::Table(sub));
}

/// Relies on toml::to_string on toml::Table: the emitted text is TOML whose
/// parse yields the serialized table back, entry for entry; and serializing
/// never fails on a document made of string-valued tables alone, whose
/// emission is plain buffered writes with no error path.
#[verifier::external_body]
pub(crate) fn table_to_text(t: &toml::Table) -> (r: Option<String>)
    ensures
        r is Some ==> toml_doc(r->0@) == Some(table_doc(*t)),
        string_only_doc(table_doc(*t)) ==> r is Some,
{
    match toml::to_string(t) {
        Ok(s) => Some(s),
        Err(_) => None,
    }
}

} // verus!
