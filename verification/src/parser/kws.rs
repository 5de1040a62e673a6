//! The keywords of the specification file.

use crate::common::text::str_eq;
use vstd::prelude::*;

verus! {

pub const ERR_CAT_DOC: &'static str = "err_cat_doc";
pub const DISPLAY: &'static str = "display";
pub const DOC: &'static str = "doc";
pub const DOC_FROM_DISPLAY: &'static str = "doc_from_display";
pub const OUTPUT: &'static str = "output";
pub const ERR_DOC: &'static str = "err_doc";
pub const ERR_KIND_DOC: &'static str = "err_kind_doc";
pub const ERRORS: &'static str = "errors";
pub const MAIN: &'static str = "main";
pub const NAME: &'static str = "name";
pub const RESULT_FROM_ERR: &'static str = "result_from_err";
pub const RESULT_FROM_ERR_KIND: &'static str = "result_from_err_kind";
pub const ERROR_TRAIT: &'static str = "error_trait";
pub const ERR_NAME: &'static str = "err_name";
pub const ERR_KIND_NAME: &'static str = "err_kind_name";
pub const ERR_CAT_NAME: &'static str = "err_cat_name";
pub const NO_STD: &'static str = "no_std";
pub const MODULE: &'static str = "module";
pub const MODULES: &'static str = "modules";
pub const CATEGORY: &'static str = "category";
pub const CATEGORIES: &'static str = "categories";
pub const FLAT_KINDS: &'static str = "flat_kinds";

/// The attributes of an error object.
pub open spec fn spec_is_err_kw(s: Seq<char>) -> bool {
    s == NAME@ || s == DISPLAY@ || s == DOC@ || s == DOC_FROM_DISPLAY@
}

/// The attributes of a category object.
pub open spec fn spec_is_cat_kw(s: Seq<char>) -> bool {
    s == NAME@ || s == DOC@ || s == DOC_FROM_DISPLAY@ || s == ERRORS@
}

/// The attributes of a module object.
pub open spec fn spec_is_mod_kw(s: Seq<char>) -> bool {
    ||| s == NAME@
    ||| s == CATEGORIES@
    ||| s == DOC_FROM_DISPLAY@
    ||| s == DOC@
    ||| s == ERR_CAT_DOC@
    ||| s == ERR_DOC@
    ||| s == ERR_KIND_DOC@
    ||| s == RESULT_FROM_ERR@
    ||| s == RESULT_FROM_ERR_KIND@
    ||| s == ERROR_TRAIT@
    ||| s == ERR_NAME@
    ||| s == ERR_KIND_NAME@
    ||| s == ERR_CAT_NAME@
    ||| s == FLAT_KINDS@
}

/// The attributes of the main object.
pub open spec fn spec_is_main_kw(s: Seq<char>) -> bool {
    s == OUTPUT@ || s == NO_STD@
}

/// The root-level attributes of a specification.
pub open spec fn spec_is_root_kw(s: Seq<char>) -> bool {
    ||| s == MAIN@
    ||| s == ERRORS@
    ||| s == MODULE@
    ||| s == MODULES@
    ||| s == CATEGORY@
    ||| s == CATEGORIES@
}

/// Every keyword of the specification language.
pub open spec fn spec_is_any_kw(s: Seq<char>) -> bool {
    ||| s == ERR_CAT_DOC@
    ||| s == DISPLAY@
    ||| s == DOC@
    ||| s == DOC_FROM_DISPLAY@
    ||| s == OUTPUT@
    ||| s == ERR_KIND_DOC@
    ||| s == ERR_DOC@
    ||| s == ERRORS@
    ||| s == NAME@
    ||| s == MAIN@
    ||| s == RESULT_FROM_ERR@
    ||| s == RESULT_FROM_ERR_KIND@
    ||| s == ERROR_TRAIT@
    ||| s == ERR_NAME@
    ||| s == ERR_KIND_NAME@
    ||| s == ERR_CAT_NAME@
    ||| s == NO_STD@
    ||| s == MODULE@
    ||| s == MODULES@
    ||| s == CATEGORY@
    ||| s == CATEGORIES@
    ||| s == FLAT_KINDS@
}

/// The pairs of root-level attributes that cannot appear together.
pub open spec fn spec_mutually_exclusive_root_kws() -> Seq<(Seq<char>, Seq<char>)> {
    seq![
        (CATEGORY@, CATEGORIES@),
        (ERRORS@, CATEGORIES@),
        (MODULES@, ERRORS@),
        (MODULES@, CATEGORY@),
        (MODULES@, CATEGORIES@),
        (MODULES@, MODULE@)
    ]
}

/// One of these root-level attributes must appear in a specification.
pub open spec fn spec_is_required_root_kw(s: Seq<char>) -> bool {
    s == ERRORS@ || s == CATEGORIES@ || s == MODULES@
}

/// Checks whether `s` is any keyword of the specification language.
pub fn is_any_kw(s: &str) -> (res: bool)
    ensures
        res == spec_is_any_kw(s@),
{
    str_eq(s, ERR_CAT_DOC) || str_eq(s, DISPLAY) || str_eq(s, DOC) || str_eq(s, DOC_FROM_DISPLAY)
        || str_eq(s, OUTPUT) || str_eq(s, ERR_KIND_DOC) || str_eq(s, ERR_DOC) || str_eq(s, ERRORS)
        || str_eq(s, NAME) || str_eq(s, MAIN) || str_eq(s, RESULT_FROM_ERR) || str_eq(
        s,
        RESULT_FROM_ERR_KIND,
    ) || str_eq(s, ERROR_TRAIT) || str_eq(s, ERR_NAME) || str_eq(s, ERR_KIND_NAME) || str_eq(
        s,
        ERR_CAT_NAME,
    ) || str_eq(s, NO_STD) || str_eq(s, MODULE) || str_eq(s, MODULES) || str_eq(s, CATEGORY)
        || str_eq(s, CATEGORIES) || str_eq(s, FLAT_KINDS)
}

/// Checks whether `s` is a root-level keyword.
pub fn is_root_kw(s: &str) -> (res: bool)
    ensures
        res == spec_is_root_kw(s@),
{
    str_eq(s, MAIN) || str_eq(s, ERRORS) || str_eq(s, MODULE) || str_eq(s, MODULES) || str_eq(
        s,
        CATEGORY,
    ) || str_eq(s, CATEGORIES)
}

/// Checks whether `s` is an attribute of an error object.
pub fn is_err_kw(s: &str) -> (res: bool)
    ensures
        res == spec_is_err_kw(s@),
{
    str_eq(s, NAME) || str_eq(s, DISPLAY) || str_eq(s, DOC) || str_eq(s, DOC_FROM_DISPLAY)
}

/// Checks whether `s` is an attribute of a category object.
pub fn is_cat_kw(s: &str) -> (res: bool)
    ensures
        res == spec_is_cat_kw(s@),
{
    str_eq(s, NAME) || str_eq(s, DOC) || str_eq(s, DOC_FROM_DISPLAY) || str_eq(s, ERRORS)
}

/// The objects of a specification, each with its set of attributes.
#[derive(Copy, Clone, Debug, PartialEq, Eq, Structural)]
pub enum KwSet {
    Root,
    Main,
    Module,
    Category,
    Error,
}

/// `s` is an attribute of the objects of `set`.
pub open spec fn spec_kw_in(set: KwSet, s: Seq<char>) -> bool {
    match set {
        KwSet::Root => spec_is_root_kw(s),
        KwSet::Main => spec_is_main_kw(s),
        KwSet::Module => spec_is_mod_kw(s),
        KwSet::Category => spec_is_cat_kw(s),
        KwSet::Error => spec_is_err_kw(s),
    }
}

/// Checks whether `s` is an attribute of the objects of `set`.
pub fn kw_in(set: KwSet, s: &str) -> (res: bool)
    ensures
        res == spec_kw_in(set, s@),
{
    match set {
        KwSet::Root => is_root_kw(s),
        KwSet::Main => is_main_kw(s),
        KwSet::Module => is_mod_kw(s),
        KwSet::Category => is_cat_kw(s),
        KwSet::Error => is_err_kw(s),
    }
}

/// Checks whether `s` is an attribute of a module object.
pub fn is_mod_kw(s: &str) -> (res: bool)
    ensures
        res == spec_is_mod_kw(s@),
{
    str_eq(s, NAME) || str_eq(s, CATEGORIES) || str_eq(s, DOC_FROM_DISPLAY) || str_eq(s, DOC)
        || str_eq(s, ERR_CAT_DOC) || str_eq(s, ERR_DOC) || str_eq(s, ERR_KIND_DOC) || str_eq(
        s,
        RESULT_FROM_ERR,
    ) || str_eq(s, RESULT_FROM_ERR_KIND) || str_eq(s, ERROR_TRAIT) || str_eq(s, ERR_NAME)
        || str_eq(s, ERR_KIND_NAME) || str_eq(s, ERR_CAT_NAME) || str_eq(s, FLAT_KINDS)
}

/// Checks whether `s` is an attribute of the main object.
pub fn is_main_kw(s: &str) -> (res: bool)
    ensures
        res == spec_is_main_kw(s@),
{
    str_eq(s, OUTPUT) || str_eq(s, NO_STD)
}

/// Checks whether `s` is one of the root-level attributes of which one is required.
pub fn is_required_root_kw(s: &str) -> (res: bool)
    ensures
        res == spec_is_required_root_kw(s@),
{
    str_eq(s, ERRORS) || str_eq(s, CATEGORIES) || str_eq(s, MODULES)
}

} // verus!
