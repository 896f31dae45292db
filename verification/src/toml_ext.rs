//! Trusted declarations for the TOML values that front matter and
//! configuration files carry.
//!
//! A parsed table is opaque to the verifier: these wrappers carry its
//! values through, and the logic that consumes them is verified for
//! every value they could hand back.

use vstd::prelude::*;

verus! {

#[verifier::external_type_specification]
#[verifier::external_body]
#[verifier::reject_recursive_types(K)]
#[verifier::reject_recursive_types(V)]
pub struct ExTomlMap<K, V>(toml::map::Map<K, V>);

#[verifier::external_type_specification]
#[verifier::external_body]
pub struct ExTomlValue(toml::Value);

/// Whether `s` parses as a TOML table: a function of the text alone.
pub uninterp spec fn toml_parses(s: Seq<char>) -> bool;

/// Relies on `toml::from_str`: parses a TOML table from text.  Whether
/// the text parses depends on the text alone; a parse failure yields
/// `None`.
#[verifier::external_body]
pub(crate) fn parse_table(s: &str) -> (r: Option<toml::Table>)
    ensures
        (r is Some) == toml_parses(s@),
{
    toml::from_str::<toml::Table>(s).ok()
}

/// Relies on `toml::map::Map::get`: looks up a key in a parsed table.
#[verifier::external_body]
pub(crate) fn table_get<'a>(t: &'a toml::Table, key: &str) -> (r: Option<&'a toml::Value>) {
    t.get(key)
}

/// Relies on `toml::Value::as_str`: the string a value holds, if it is
/// a string.
#[verifier::external_body]
pub(crate) fn value_as_str(v: &toml::Value) -> (r: Option<String>) {
    match v.as_str() {
        Some(s) => Some(s.to_owned()),
        None => None,
    }
}

/// Relies on `toml::Value::as_bool`: the boolean a value holds, if it
/// is a boolean.
#[verifier::external_body]
pub(crate) fn value_as_bool(v: &toml::Value) -> (r: Option<bool>) {
    v.as_bool()
}

/// Relies on `toml::Value::as_table`: the table a value holds, if it is
/// a table.
#[verifier::external_body]
pub(crate) fn value_as_table<'a>(v: &'a toml::Value) -> (r: Option<&'a toml::Table>) {
    v.as_table()
}

/// Relies on `toml::Value`'s `Display` implementation: the value
/// rendered back to TOML notation.
#[verifier::external_body]
pub(crate) fn value_display(v: &toml::Value) -> (r: String) {
    v.to_string()
}

} // verus!
