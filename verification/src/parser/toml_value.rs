//! The TOML document model that the TOML parser reads.

use crate::common::text::str_eq;
use vstd::prelude::*;

verus! {

/// A TOML value, as `toml::Value` holds it.
///
/// Floats are represented by their kind only: no specification attribute
/// takes a float.
#[derive(Debug)]
pub enum TomlValue {
    String(String),
    Integer(i64),
    Float,
    Boolean(bool),
    Datetime(String),
    Array(Vec<TomlValue>),
    Table(Vec<(String, TomlValue)>),
}

/// The outside TOML value type.
#[verifier::external_type_specification]
#[verifier::external_body]
pub struct ExTomlValue(toml::Value);

/// The value that `toml::from_str` deserializes from a TOML text, `None`
/// when the text is not a valid TOML document.
pub uninterp spec fn toml_document(text: Seq<char>) -> Option<TomlValue>;

/// Moves a `toml::Value` into the document model, variant by variant.
#[verifier::external_body]
fn toml_value_into(v: toml::Value) -> (res: TomlValue) {
    match v {
        toml::Value::String(s) => TomlValue::String(s),
        toml::Value::Integer(i) => TomlValue::Integer(i),
        toml::Value::Float(_) => TomlValue::Float,
        toml::Value::Boolean(b) => TomlValue::Boolean(b),
        toml::Value::Datetime(d) => TomlValue::Datetime(d.to_string()),
        toml::Value::Array(a) => TomlValue::Array(a.into_iter().map(toml_value_into).collect()),
        toml::Value::Table(t) => TomlValue::Table(
            t.into_iter().map(|(k, v)| (k, toml_value_into(v))).collect(),
        ),
    }
}

/// Deserializes a TOML text with `toml::from_str::<toml::Value>`.
///
/// The contract claims only that the result is a function of the text
/// (named [toml_document]); TOML syntax is the crate's.
#[verifier::external_body]
pub fn toml_from_str(s: &str) -> (res: Option<TomlValue>)
    ensures
        res == toml_document(s@),
{
    toml::from_str::<toml::Value>(s).ok().map(toml_value_into)
}

/// The value of the first entry of table `t` under key `k`.
pub open spec fn tget(t: Seq<(String, TomlValue)>, k: Seq<char>) -> Option<TomlValue>
    decreases t.len(),
{
    if t.len() == 0 {
        None
    } else if t[0].0@ == k {
        Some(t[0].1)
    } else {
        tget(t.drop_first(), k)
    }
}

/// Returns the value of the first entry of table `t` under key `k`.
pub fn table_get<'a>(t: &'a Vec<(String, TomlValue)>, k: &str) -> (res: Option<&'a TomlValue>)
    ensures
        match tget(t@, k@) {
            None => res is None,
            Some(v) => res matches Some(r) && *r == v,
        },
{
    let mut i: usize = 0;
    proof {
        assert(t@.skip(0) =~= t@);
    }
    while i < t.len()
        invariant
            i <= t@.len(),
            tget(t@.skip(i as int), k@) == tget(t@, k@),
        decreases t@.len() - i,
    {
        proof {
            assert(t@.skip(i as int).drop_first() =~= t@.skip(i + 1));
        }
        if str_eq(t[i].0.as_str(), k) {
            return Some(&t[i].1);
        }
        i += 1;
    }
    None
}

} // verus!
