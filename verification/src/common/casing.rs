//! Identifier case conversion, as performed by the `convert_case` crate.

use vstd::prelude::*;

verus! {

/// The identifier cases that specification names are written in.
#[derive(Copy, Clone, Debug, PartialEq, Eq, Structural)]
pub enum Case {
    /// `lower_snake_case`
    Snake,
    /// `UPPER_SNAKE_CASE`
    UpperSnake,
    /// `UpperCamelCase`
    UpperCamel,
    /// `PascalCase`, the same as `UpperCamelCase`
    Pascal,
}

/// The string that `convert_case` makes of `s` when converting it from case
/// `from` to case `to`.
pub uninterp spec fn case_converted(s: Seq<char>, from: Case, to: Case) -> Seq<char>;

/// Converts `s` from case `from` to case `to` with
/// `convert_case::Converter::{from_case, to_case, convert}`.
///
/// The contract claims only that the result is a function of the three
/// arguments (named [case_converted]); the conversion itself (word
/// boundaries, capitalization) is the crate's.
#[verifier::external_body]
fn converter_convert(s: &str, from: Case, to: Case) -> (res: String)
    ensures
        res@ == case_converted(s@, from, to),
{
    let outside = |c: Case| match c {
        Case::Snake => convert_case::Case::Snake,
        Case::UpperSnake => convert_case::Case::UpperSnake,
        Case::UpperCamel => convert_case::Case::UpperCamel,
        Case::Pascal => convert_case::Case::Pascal,
    };
    convert_case::Converter::new().from_case(outside(from)).to_case(outside(to)).convert(s)
}

/// Converts `s` from case `from_case` to case `to_case`.
pub fn convert_case(s: &str, from_case: Case, to_case: Case) -> (res: String)
    ensures
        res@ == case_converted(s@, from_case, to_case),
{
    converter_convert(s, from_case, to_case)
}

/// `s` is written in `case`: converting it to the same case leaves it unchanged.
pub open spec fn spec_is_case(s: Seq<char>, case: Case) -> bool {
    case_converted(s, case, case) == s
}

/// Checks whether `s` is written in `case`.
pub fn is_case(s: &str, case: Case) -> (res: bool)
    ensures
        res == spec_is_case(s@, case),
{
    let converted = convert_case(s, case, case);
    let owned = s.to_owned();
    converted == owned
}

} // verus!
