//! Identifiers used in generated code.

use crate::common::text::str_eq;
use vstd::prelude::*;

verus! {

pub const ERROR: &'static str = "Error";
pub const ERROR_CATEGORY: &'static str = "ErrorCategory";
pub const ERROR_KIND: &'static str = "ErrorKind";
pub const CATEGORY_NAMES_MOD: &'static str = "_cn";
pub const ERROR_NAMES_MOD: &'static str = "_n";
pub const ERROR_DISPLAYS_MOD: &'static str = "_d";
pub const PRIVATE_MOD: &'static str = "_p";
pub const CATEGORY_CONSTS_MOD: &'static str = "categories";
pub const ERROR_KINDS_MOD: &'static str = "kinds";
pub const VARIANTS_MOD: &'static str = "variant";
pub const TYPES_MOD: &'static str = "types";
pub const TESTS_MOD: &'static str = "test";

/// The identifiers that the generated module defines at its root level.
pub open spec fn spec_is_root_level_ident(s: Seq<char>) -> bool {
    ||| s == ERROR@
    ||| s == ERROR_CATEGORY@
    ||| s == ERROR_KIND@
    ||| s == CATEGORY_NAMES_MOD@
    ||| s == ERROR_NAMES_MOD@
    ||| s == ERROR_DISPLAYS_MOD@
    ||| s == PRIVATE_MOD@
    ||| s == CATEGORY_CONSTS_MOD@
    ||| s == ERROR_KINDS_MOD@
    ||| s == VARIANTS_MOD@
    ||| s == TESTS_MOD@
}

/// Checks whether `s` is an identifier defined at the root of a generated module.
pub fn is_root_level_ident(s: &str) -> (res: bool)
    ensures
        res == spec_is_root_level_ident(s@),
{
    str_eq(s, ERROR) || str_eq(s, ERROR_CATEGORY) || str_eq(s, ERROR_KIND) || str_eq(
        s,
        CATEGORY_NAMES_MOD,
    ) || str_eq(s, ERROR_NAMES_MOD) || str_eq(s, ERROR_DISPLAYS_MOD) || str_eq(s, PRIVATE_MOD)
        || str_eq(s, CATEGORY_CONSTS_MOD) || str_eq(s, ERROR_KINDS_MOD) || str_eq(s, VARIANTS_MOD)
        || str_eq(s, TESTS_MOD)
}

} // verus!
