//! Validation of names and identifiers found in a specification.

use crate::coder::idents::{self, spec_is_root_level_ident};
use crate::common::casing::{self, spec_is_case, Case};
use crate::common::text::str_eq;
use crate::errors::kinds::general::BAD_SPEC;
use crate::errors::{fails_with, TbError};
use crate::parser::kws::{self, spec_is_any_kw};
use crate::spec::{ErrorSpec, ModuleSpec};
use crate::spec::module::or_default;
use crate::util::{get_non_unique_names, holds_string, is_non_unique, is_repeated_at, strs_view,
    unique_ignoring_case};
use crate::common::casing::case_converted;
use vstd::prelude::*;

verus! {

/// The pattern of the characters allowed in an UpperCamelCase identifier.
pub const CAMEL_IDENT_CHARS: &'static str = "^[A-Za-z0-9]+$";

/// The pattern of the characters allowed in other identifiers.
pub const SNAKE_IDENT_CHARS: &'static str = "^[A-Za-z0-9_]+$";

/// `c` is an ASCII letter or digit.
pub open spec fn is_ascii_alnum(c: char) -> bool {
    ('A' <= c && c <= 'Z') || ('a' <= c && c <= 'z') || ('0' <= c && c <= '9')
}

/// `s` is a non-empty string of ASCII letters and digits, and of
/// underscores when `underscore` holds.
pub open spec fn spec_ident_chars(s: Seq<char>, underscore: bool) -> bool {
    s.len() > 0 && forall|i: int|
        0 <= i < s.len() ==> #[trigger] is_ascii_alnum(s[i]) || (underscore && s[i] == '_')
}

/// Matches `text` against one of the two identifier patterns with
/// `regex::Regex::new` and `Regex::is_match`.
///
/// The contract claims what the regex syntax documents for these patterns:
/// `^[A-Za-z0-9]+$` matches exactly the non-empty strings of ASCII letters
/// and digits, `^[A-Za-z0-9_]+$` the same with underscores allowed.
#[verifier::external_body]
fn regex_is_match(pattern: &str, text: &str) -> (res: bool)
    requires
        pattern@ == CAMEL_IDENT_CHARS@ || pattern@ == SNAKE_IDENT_CHARS@,
    ensures
        pattern@ == CAMEL_IDENT_CHARS@ ==> (res <==> spec_ident_chars(text@, false)),
        pattern@ == SNAKE_IDENT_CHARS@ ==> (res <==> spec_ident_chars(text@, true)),
{
    regex::Regex::new(pattern).unwrap().is_match(text)
}

/// UpperCamelCase identifiers take no underscore.
pub open spec fn allows_underscore(case: Case) -> bool {
    !(case == Case::Pascal || case == Case::UpperCamel)
}

/// `ident` is a valid identifier in `case`: non-empty, of allowed characters
/// only, and unchanged by conversion to `case`.
pub open spec fn spec_ident_ok(ident: Seq<char>, case: Case) -> bool {
    &&& ident.len() > 0
    &&& spec_ident_chars(ident, allows_underscore(case))
    &&& spec_is_case(ident, case)
}

/// The result of a check that passes exactly when `ok` holds.
pub open spec fn check_result(res: Result<(), TbError>, ok: bool) -> bool {
    &&& (res is Ok <==> ok)
    &&& (!ok ==> fails_with(res, BAD_SPEC))
}

fn bad_spec() -> (res: Result<(), TbError>)
    ensures
        fails_with(res, BAD_SPEC),
{
    Err(TbError::new(BAD_SPEC))
}

fn check_ident_chars(ident: &str, desc: &str, case: Case) -> (res: Result<(), TbError>)
    ensures
        check_result(res, spec_ident_chars(ident@, allows_underscore(case))),
{
    let matched = match case {
        Case::Pascal | Case::UpperCamel => regex_is_match(CAMEL_IDENT_CHARS, ident),
        _ => regex_is_match(SNAKE_IDENT_CHARS, ident),
    };
    if !matched {
        bad_spec()
    } else {
        Ok(())
    }
}

fn check_ident(ident: &str, desc: &str, case: Case) -> (res: Result<(), TbError>)
    ensures
        check_result(res, spec_ident_ok(ident@, case)),
{
    if ident.is_empty() {
        return bad_spec();
    }
    let chars = check_ident_chars(ident, desc, case);
    if chars.is_err() {
        return chars;
    }
    if !casing::is_case(ident, case) {
        return bad_spec();
    }
    Ok(())
}

/// `ident` may name the struct that keyword `kw` names in a module.
pub open spec fn spec_module_ident_ok(ident: Seq<char>, kw: Seq<char>) -> bool {
    &&& spec_ident_ok(ident, Case::UpperCamel)
    &&& {
        ||| (kw == kws::ERR_NAME@ && ident == idents::ERROR@)
        ||| (kw == kws::ERR_KIND_NAME@ && ident == idents::ERROR_KIND@)
        ||| (kw == kws::ERR_CAT_NAME@ && ident == idents::ERROR_CATEGORY@)
        ||| !spec_is_root_level_ident(ident)
    }
}

/// Checks a module-level struct name given under keyword `kw`.
///
/// The name must be a valid UpperCamelCase identifier and must not be an
/// identifier reserved at the root of a generated module, except the
/// default name of that very struct.
pub fn check_module_ident(ident: &str, kw: &str) -> (res: Result<(), TbError>)
    ensures
        check_result(res, spec_module_ident_ok(ident@, kw@)),
{
    let r = check_ident(ident, kw, Case::UpperCamel);
    if r.is_err() {
        return r;
    }
    if str_eq(kw, kws::ERR_NAME) && str_eq(ident, idents::ERROR) {
        return Ok(());
    }
    if str_eq(kw, kws::ERR_KIND_NAME) && str_eq(ident, idents::ERROR_KIND) {
        return Ok(());
    }
    if str_eq(kw, kws::ERR_CAT_NAME) && str_eq(ident, idents::ERROR_CATEGORY) {
        return Ok(());
    }
    if idents::is_root_level_ident(ident) {
        bad_spec()
    } else {
        Ok(())
    }
}

/// `name` is a valid object name in `case` that is not a keyword.
pub open spec fn spec_name_ok(name: Seq<char>, case: Case) -> bool {
    spec_ident_ok(name, case) && !spec_is_any_kw(name)
}

fn check_name(name: &str, desc: &str, case: Case) -> (res: Result<(), TbError>)
    ensures
        check_result(res, spec_name_ok(name@, case)),
{
    let r = check_ident(name, desc, case);
    if r.is_err() {
        return r;
    }
    if kws::is_any_kw(name) {
        bad_spec()
    } else {
        Ok(())
    }
}

/// Checks an error name: an UpperCamelCase identifier that is not a keyword.
pub fn check_error_name(name: &str) -> (res: Result<(), TbError>)
    ensures
        check_result(res, spec_name_ok(name@, Case::UpperCamel)),
{
    check_name(name, "ErrorObject::name", Case::UpperCamel)
}

/// Checks a category name: an UpperCamelCase identifier that is not a keyword.
pub fn check_category_name(name: &str) -> (res: Result<(), TbError>)
    ensures
        check_result(res, spec_name_ok(name@, Case::UpperCamel)),
{
    check_name(name, "CategoryObject::name", Case::UpperCamel)
}

/// Checks a variant type name: an UpperCamelCase identifier that is not a
/// keyword.
pub fn check_variant_type_name(name: &str) -> (res: Result<(), TbError>)
    ensures
        check_result(res, spec_name_ok(name@, Case::UpperCamel)),
{
    check_name(name, "ErrorObject::variant_type", Case::UpperCamel)
}

/// `name` is a valid module name: non-empty and in lower_snake_case.
pub open spec fn spec_module_name_ok(name: Seq<char>) -> bool {
    name.len() > 0 && spec_is_case(name, Case::Snake)
}

/// Checks a module name: a non-empty lower_snake_case string.
pub fn check_module_name(name: &str) -> (res: Result<(), TbError>)
    ensures
        check_result(res, spec_module_name_ok(name@)),
{
    if name.is_empty() {
        bad_spec()
    } else if !casing::is_case(name, Case::Snake) {
        bad_spec()
    } else {
        Ok(())
    }
}

fn check_name_uniqueness(item_name: &str, names: &Vec<&str>) -> (res: Result<(), TbError>)
    ensures
        check_result(res, unique_ignoring_case(strs_view(names@))),
{
    let non_unique = get_non_unique_names(names);
    let ghost sv = strs_view(names@);
    proof {
        if !unique_ignoring_case(sv) {
            let (i, j) = choose|i: int, j: int|
                !(0 <= i < j < sv.len() ==> crate::util::lowercase(sv[i])
                    != crate::util::lowercase(sv[j]));
            assert(0 <= i < j < sv.len());
            assert(is_repeated_at(sv, j));
            assert(is_non_unique(sv, sv[j], sv.len() as int));
            assert(holds_string(non_unique@, sv[j]));
        } else {
            if non_unique@.len() > 0 {
                assert(holds_string(non_unique@, non_unique@[0]@));
                let n = non_unique@[0]@;
                assert(is_non_unique(sv, n, sv.len() as int));
                let m = choose|m: int| 0 <= m < sv.len() && sv[m] == n && is_repeated_at(sv, m);
                let j = choose|j: int| 0 <= j < m && crate::util::lowercase(sv[j])
                    == crate::util::lowercase(sv[m]);
                assert(lowercase_eq(sv, j, m));
            }
        }
    }
    if non_unique.len() == 0 {
        Ok(())
    } else {
        bad_spec()
    }
}

/// Names `i` and `j` of `names` are equal when case is ignored.
pub open spec fn lowercase_eq(names: Seq<Seq<char>>, i: int, j: int) -> bool {
    crate::util::lowercase(names[i]) == crate::util::lowercase(names[j])
}

/// Checks that the error names of a list are unique, ignoring case.
pub fn check_error_name_uniqueness(names: &Vec<&str>) -> (res: Result<(), TbError>)
    ensures
        check_result(res, unique_ignoring_case(strs_view(names@))),
{
    check_name_uniqueness("error", names)
}

/// Checks that variant type names are unique, ignoring case.
pub fn check_variant_type_name_uniqueness(names: &Vec<&str>) -> (res: Result<(), TbError>)
    ensures
        check_result(res, unique_ignoring_case(strs_view(names@))),
{
    check_name_uniqueness("variant type", names)
}

/// Checks that category names are unique, ignoring case.
pub fn check_category_name_uniqueness(names: &Vec<&str>) -> (res: Result<(), TbError>)
    ensures
        check_result(res, unique_ignoring_case(strs_view(names@))),
{
    check_name_uniqueness("category", names)
}

/// Checks that the error names of a whole module are unique, ignoring case.
pub fn check_module_error_name_uniqueness(names: &Vec<&str>) -> (res: Result<(), TbError>)
    ensures
        check_result(res, unique_ignoring_case(strs_view(names@))),
{
    check_name_uniqueness("<flat_kinds> module error", names)
}

/// Checks that the variant type names of a whole module are unique,
/// ignoring case.
pub fn check_module_variant_type_name_uniqueness(names: &Vec<&str>) -> (res: Result<
    (),
    TbError,
>)
    ensures
        check_result(res, unique_ignoring_case(strs_view(names@))),
{
    check_name_uniqueness("<flat_kinds> module variant type", names)
}

/// Checks that module names are unique, ignoring case.
pub fn check_module_name_uniqueness(names: &Vec<&str>) -> (res: Result<(), TbError>)
    ensures
        check_result(res, unique_ignoring_case(strs_view(names@))),
{
    check_name_uniqueness("module", names)
}

/// The three struct names of module `m` are pairwise different.
pub open spec fn spec_struct_names_distinct(m: ModuleSpec) -> bool {
    let e = or_default(m.err_name, idents::ERROR@);
    let c = or_default(m.err_cat_name, idents::ERROR_CATEGORY@);
    let k = or_default(m.err_kind_name, idents::ERROR_KIND@);
    e != c && e != k && c != k
}

/// Checks that the error, error category and error kind struct names of a
/// module differ from one another.
pub fn check_struct_names_collision(m: &ModuleSpec) -> (res: Result<(), TbError>)
    ensures
        check_result(res, spec_struct_names_distinct(*m)),
{
    let err_name = m.err_name();
    let err_cat_name = m.err_cat_name();
    let err_kind_name = m.err_kind_name();
    if str_eq(err_name, err_cat_name) {
        return bad_spec();
    } else if str_eq(err_name, err_kind_name) {
        return bad_spec();
    } else if str_eq(err_cat_name, err_kind_name) {
        return bad_spec();
    }
    Ok(())
}

/// The variant type name of `e` differs from the three struct names of `m`.
pub open spec fn spec_variant_type_name_free(m: ModuleSpec, e: ErrorSpec) -> bool {
    let name = case_converted(e.name@, Case::UpperSnake, Case::UpperCamel);
    &&& name != or_default(m.err_name, idents::ERROR@)
    &&& name != or_default(m.err_cat_name, idents::ERROR_CATEGORY@)
    &&& name != or_default(m.err_kind_name, idents::ERROR_KIND@)
}

/// No variant type name of the errors of `m` collides with a struct name.
pub open spec fn spec_variant_type_names_free(m: ModuleSpec) -> bool {
    forall|ci: int, ei: int|
        0 <= ci < m.categories@.len() && 0 <= ei < m.categories@[ci].errors@.len()
            ==> #[trigger] spec_variant_type_name_free(m, m.categories@[ci].errors@[ei])
}

fn check_variant_type_names_collision_impl(m: &ModuleSpec, e: &ErrorSpec) -> (res: Result<
    (),
    TbError,
>)
    ensures
        check_result(res, spec_variant_type_name_free(*m, *e)),
{
    let name = e.variant_type_name();
    if str_eq(name.as_str(), m.err_name()) {
        return bad_spec();
    } else if str_eq(name.as_str(), m.err_cat_name()) {
        return bad_spec();
    } else if str_eq(name.as_str(), m.err_kind_name()) {
        return bad_spec();
    }
    Ok(())
}

fn check_variant_type_names_collision(m: &ModuleSpec) -> (res: Result<(), TbError>)
    ensures
        check_result(res, spec_variant_type_names_free(*m)),
{
    let mut ci: usize = 0;
    while ci < m.categories.len()
        invariant
            ci <= m.categories@.len(),
            forall|c: int, ei: int|
                0 <= c < ci && 0 <= ei < m.categories@[c].errors@.len()
                    ==> #[trigger] spec_variant_type_name_free(*m, m.categories@[c].errors@[ei]),
        decreases m.categories@.len() - ci,
    {
        let c = &m.categories[ci];
        let mut ei: usize = 0;
        while ei < c.errors.len()
            invariant
                ci < m.categories@.len(),
                *c == m.categories@[ci as int],
                ei <= c.errors@.len(),
                forall|c2: int, e2: int|
                    0 <= c2 < ci && 0 <= e2 < m.categories@[c2].errors@.len()
                        ==> #[trigger] spec_variant_type_name_free(
                        *m,
                        m.categories@[c2].errors@[e2],
                    ),
                forall|e2: int|
                    0 <= e2 < ei ==> #[trigger] spec_variant_type_name_free(*m, c.errors@[e2]),
            decreases c.errors@.len() - ei,
        {
            let r = check_variant_type_names_collision_impl(m, &c.errors[ei]);
            if r.is_err() {
                return r;
            }
            ei += 1;
        }
        ci += 1;
    }
    Ok(())
}

/// The struct and variant type names of module `m` do not collide.
pub open spec fn spec_no_name_collisions(m: ModuleSpec) -> bool {
    spec_struct_names_distinct(m) && spec_variant_type_names_free(m)
}

/// Checks that the struct names of a module and the variant type names of
/// its errors do not collide.
pub fn check_name_collisions(m: &ModuleSpec) -> (res: Result<(), TbError>)
    ensures
        check_result(res, spec_no_name_collisions(*m)),
{
    let r = check_struct_names_collision(m);
    if r.is_err() {
        return r;
    }
    check_variant_type_names_collision(m)
}

} // verus!
