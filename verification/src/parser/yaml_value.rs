//! The YAML document model that the YAML parser reads.

use crate::common::text::str_eq;
use vstd::prelude::*;

verus! {

/// A YAML value, as `serde_yaml::Value` holds it.
///
/// Numbers and tagged values are represented by their kind only: no
/// specification attribute takes one.
#[derive(Debug)]
pub enum YamlValue {
    Null,
    Bool(bool),
    Number,
    String(String),
    Sequence(Vec<YamlValue>),
    Mapping(Vec<(YamlValue, YamlValue)>),
    Tagged,
}

/// The outside YAML value type.
#[verifier::external_type_specification]
#[verifier::external_body]
pub struct ExYamlValue(serde_yaml::Value);

/// The value that `serde_yaml::from_str` deserializes from a YAML text,
/// `None` when the text is not a valid YAML document.
pub uninterp spec fn yaml_document(text: Seq<char>) -> Option<YamlValue>;

/// Moves a `serde_yaml::Value` into the document model, variant by variant.
#[verifier::external_body]
fn yaml_value_into(v: serde_yaml::Value) -> (res: YamlValue) {
    match v {
        serde_yaml::Value::Null => YamlValue::Null,
        serde_yaml::Value::Bool(b) => YamlValue::Bool(b),
        serde_yaml::Value::Number(_) => YamlValue::Number,
        serde_yaml::Value::String(s) => YamlValue::String(s),
        serde_yaml::Value::Sequence(a) => YamlValue::Sequence(a.into_iter().map(yaml_value_into).collect()),
        serde_yaml::Value::Mapping(m) => YamlValue::Mapping(
            m.into_iter().map(|(k, v)| (yaml_value_into(k), yaml_value_into(v))).collect(),
        ),
        serde_yaml::Value::Tagged(_) => YamlValue::Tagged,
    }
}

/// Deserializes a YAML text with `serde_yaml::from_str::<serde_yaml::Value>`.
///
/// The contract claims only that the result is a function of the text
/// (named [yaml_document]); YAML syntax is the crate's.
#[verifier::external_body]
pub fn yaml_from_str(s: &str) -> (res: Option<YamlValue>)
    ensures
        res == yaml_document(s@),
{
    serde_yaml::from_str::<serde_yaml::Value>(s).ok().map(yaml_value_into)
}

/// `k` is a string key equal to `name`.
pub open spec fn is_key(k: YamlValue, name: Seq<char>) -> bool {
    k matches YamlValue::String(s) && s@ == name
}

/// The value of the first entry of mapping `m` under the string key `k`.
pub open spec fn yget(m: Seq<(YamlValue, YamlValue)>, k: Seq<char>) -> Option<YamlValue>
    decreases m.len(),
{
    if m.len() == 0 {
        None
    } else if is_key(m[0].0, k) {
        Some(m[0].1)
    } else {
        yget(m.drop_first(), k)
    }
}

/// Returns the value of the first entry of mapping `m` under the string
/// key `k`.
pub fn mapping_get<'a>(m: &'a Vec<(YamlValue, YamlValue)>, k: &str) -> (res: Option<&'a YamlValue>)
    ensures
        match yget(m@, k@) {
            None => res is None,
            Some(v) => res matches Some(r) && *r == v,
        },
{
    let mut i: usize = 0;
    proof {
        assert(m@.skip(0) =~= m@);
    }
    while i < m.len()
        invariant
            i <= m@.len(),
            yget(m@.skip(i as int), k@) == yget(m@, k@),
        decreases m@.len() - i,
    {
        proof {
            assert(m@.skip(i as int).drop_first() =~= m@.skip(i + 1));
        }
        if let YamlValue::String(s) = &m[i].0 {
            if str_eq(s.as_str(), k) {
                return Some(&m[i].1);
            }
        }
        i += 1;
    }
    None
}

} // verus!
