//! A parsed TOML document, held as plain values that verified code can
//! inspect, and the trusted call into the `toml` crate that produces it.

use vstd::prelude::*;

verus! {

/// One node of a parsed TOML document. A table keeps its entries as a
/// list of key/value pairs with pairwise distinct keys (TOML forbids a
/// duplicated key). Floats and datetimes, which this configuration
/// schema never accepts, appear as `Other`.
pub enum TomlValue {
    Str(String),
    Int(i64),
    Bool(bool),
    Arr(Vec<TomlValue>),
    Table(Vec<(String, TomlValue)>),
    Other,
}

/// The value under `key` in a table's entry list: the first entry whose
/// key reads as `key`, if any.
pub open spec fn spec_lookup(entries: Seq<(String, TomlValue)>, key: Seq<char>) -> Option<
    TomlValue,
>
    decreases entries.len(),
{
    if entries.len() == 0 {
        None
    } else if entries[0].0@ == key {
        Some(entries[0].1)
    } else {
        spec_lookup(entries.drop_first(), key)
    }
}

/// Finds the entry under `key`, as `spec_lookup` reads the table.
pub fn lookup<'a>(entries: &'a Vec<(String, TomlValue)>, key: &String) -> (r: Option<
    &'a TomlValue,
>)
    ensures
        match r {
            Some(v) => spec_lookup(entries@, key@) == Some(*v),
            None => spec_lookup(entries@, key@) is None,
        },
{
    let mut i: usize = 0;
    proof {
        assert(entries@.skip(0) =~= entries@);
    }
    while i < entries.len()
        invariant
            i <= entries@.len(),
            spec_lookup(entries@, key@) == spec_lookup(entries@.skip(i as int), key@),
        decreases entries@.len() - i,
    {
        proof {
            assert(entries@.skip(i as int)[0] == entries@[i as int]);
            assert(entries@.skip(i as int).drop_first() =~= entries@.skip(i as int + 1));
        }
        if entries[i].0 == *key {
            return Some(&entries[i].1);
        }
        i = i + 1;
    }
    proof {
        assert(entries@.skip(i as int).len() == 0);
    }
    None
}

/// The tree that the TOML language assigns to a text, read back as
/// `TomlValue`: `None` where the text is not well-formed TOML. Parsing
/// is a function of the text alone, so the result carries a name rather
/// than a transcription of the TOML grammar.
pub uninterp spec fn toml_doc_of(s: Seq<char>) -> Option<TomlValue>;

#[verifier::external_type_specification]
#[verifier::external_body]
pub struct ExTomlCrateValue(toml::Value);

/// Relies on the variants of `toml::Value`: rebuilds the parsed tree,
/// one arm per variant, as the library's own value type. Floats and
/// datetimes become `TomlValue::Other`.
#[verifier::external_body]
fn value_of_toml(v: toml::Value) -> TomlValue {
    match v {
        toml::Value::String(s) => TomlValue::Str(s),
        toml::Value::Integer(i) => TomlValue::Int(i),
        toml::Value::Boolean(b) => TomlValue::Bool(b),
        toml::Value::Array(items) => TomlValue::Arr(
            items.into_iter().map(value_of_toml).collect(),
        ),
        toml::Value::Table(t) => TomlValue::Table(
            t.into_iter().map(|(k, x)| (k, value_of_toml(x))).collect(),
        ),
        _ => TomlValue::Other,
    }
}

/// Relies on `toml::from_str`: deserializing into `toml::Value` yields
/// the value tree of the text when it is well-formed TOML, and an error
/// otherwise; the outcome depends on the text alone.
#[verifier::external_body]
pub(crate) fn parse_toml_text(s: &str) -> (r: Result<TomlValue, String>)
    ensures
        match r {
            Ok(v) => toml_doc_of(s@) == Some(v),
            Err(_) => toml_doc_of(s@) is None,
        },
{
    match toml::from_str::<toml::Value>(s) {
        Ok(v) => Ok(value_of_toml(v)),
        Err(e) => Err(e.to_string()),
    }
}

} // verus!
