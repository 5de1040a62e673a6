//! The TOML specification parser.

use crate::common::casing::Case;
use crate::common::text::opt_view;
use crate::errors::kinds::general::{BAD_SPEC, BAD_TOML};
use crate::errors::{fails_with, TbError};
use crate::parser::helpers::{
    check_category_name, check_category_name_uniqueness, check_error_name,
    check_error_name_uniqueness, check_module_ident,
    check_module_name, check_module_name_uniqueness, spec_module_ident_ok, spec_module_name_ok,
    spec_name_ok,
};
use crate::parser::document::{
    assemble, has_key, lemma_assemble_well_formed, category_name_list, check_flat_kinds, check_root_keys, error_name_list,
    module_name_list, spec_all_flat_kinds_ok, spec_assemble, spec_flat_kinds_ok, spec_root_keys_ok,
    with_categories, with_category,
};
use crate::parser::ParseMode;
use crate::parser::kws::{
    self, kw_in, spec_is_required_root_kw, spec_kw_in, spec_mutually_exclusive_root_kws, KwSet,
};
use crate::parser::toml_value::{table_get, tget, toml_document, toml_from_str, TomlValue};
use crate::spec::category::{categories_view, category_names};
use crate::spec::error::{error_names, errors_view};
use crate::spec::category::spec_implicit_category;
use crate::spec::module::{module_names, spec_implicit_module};
use crate::spec::{categories_ok, errors_ok, module_flat_kinds_ok, modules_ok, modules_view};
use crate::spec::{
    CategoryModel, CategorySpec, ErrorModel, ErrorSpec, MainModel, MainSpec, ModuleModel,
    ModuleSpec, OverridableErrorSpec, Spec, SpecModel, IMPLICIT_CATEGORY_NAME,
};
use crate::util::{strs_view, unique_ignoring_case};
use vstd::prelude::*;

verus! {

broadcast use vstd::seq_lib::group_seq_properties;

// ----------------------------------------------------------------------------
// What a TOML specification file means.

/// Every key of table `t` is an attribute of the objects of `set`.
pub open spec fn keys_within(t: Seq<(String, TomlValue)>, set: KwSet) -> bool {
    forall|i: int| 0 <= i < t.len() ==> #[trigger] spec_kw_in(set, t[i].0@)
}

/// An optional attribute that must be a string when present.
pub open spec fn str_ok(v: Option<TomlValue>) -> bool {
    match v {
        None => true,
        Some(TomlValue::String(_)) => true,
        Some(_) => false,
    }
}

/// The string of an optional string attribute.
pub open spec fn str_of(v: Option<TomlValue>) -> Option<Seq<char>> {
    match v {
        Some(TomlValue::String(s)) => Some(s@),
        _ => None,
    }
}

/// An optional attribute that must be a boolean when present.
pub open spec fn bool_ok(v: Option<TomlValue>) -> bool {
    match v {
        None => true,
        Some(TomlValue::Boolean(_)) => true,
        Some(_) => false,
    }
}

/// The value of an optional boolean attribute.
pub open spec fn bool_of(v: Option<TomlValue>) -> Option<bool> {
    match v {
        Some(TomlValue::Boolean(b)) => Some(b),
        _ => None,
    }
}

/// A string, or the empty string when absent.
pub open spec fn or_empty(o: Option<Seq<char>>) -> Seq<char> {
    match o {
        Some(s) => s,
        None => Seq::empty(),
    }
}

/// The error object that table `t` describes.
pub open spec fn spec_error_table(t: Seq<(String, TomlValue)>) -> Option<ErrorModel> {
    let name = or_empty(str_of(tget(t, kws::NAME@)));
    if keys_within(t, KwSet::Error) && str_ok(tget(t, kws::NAME@)) && str_ok(
        tget(t, kws::DISPLAY@),
    ) && str_ok(tget(t, kws::DOC@)) && bool_ok(tget(t, kws::DOC_FROM_DISPLAY@)) && spec_name_ok(
        name,
        Case::UpperCamel,
    ) {
        Some(
            ErrorModel {
                name,
                display: str_of(tget(t, kws::DISPLAY@)),
                doc: str_of(tget(t, kws::DOC@)),
                doc_from_display: bool_of(tget(t, kws::DOC_FROM_DISPLAY@)),
            },
        )
    } else {
        None
    }
}

/// The error object that an item of an error list describes: a bare name
/// or a table.
pub open spec fn spec_error_item(v: TomlValue) -> Option<ErrorModel> {
    match v {
        TomlValue::String(s) => if spec_name_ok(s@, Case::UpperCamel) {
            Some(ErrorModel { name: s@, display: None, doc: None, doc_from_display: None })
        } else {
            None
        },
        TomlValue::Table(t) => spec_error_table(t@),
        _ => None,
    }
}

/// The error list that array `a` describes: non-empty, of valid error
/// objects with names unique ignoring case.
pub open spec fn spec_errors_array(a: Seq<TomlValue>) -> Option<Seq<ErrorModel>> {
    let errs = Seq::new(a.len(), |i: int| spec_error_item(a[i]).unwrap());
    if a.len() > 0 && (forall|i: int| 0 <= i < a.len() ==> #[trigger] spec_error_item(a[i]) is Some)
        && unique_ignoring_case(error_names(errs)) {
        Some(errs)
    } else {
        None
    }
}

/// The error list that value `v` describes.
pub open spec fn spec_errors_value(v: TomlValue) -> Option<Seq<ErrorModel>> {
    match v {
        TomlValue::Array(a) => spec_errors_array(a@),
        _ => None,
    }
}

// ----------------------------------------------------------------------------
// Attribute access.

fn bad_spec<T>() -> (res: Result<T, TbError>)
    ensures
        fails_with(res, BAD_SPEC),
{
    Err(TbError::new(BAD_SPEC))
}

fn get_str(t: &Vec<(String, TomlValue)>, k: &str) -> (res: Result<Option<String>, TbError>)
    ensures
        res is Ok <==> str_ok(tget(t@, k@)),
        res matches Ok(o) ==> opt_view(o) == str_of(tget(t@, k@)),
        res is Err ==> fails_with(res, BAD_SPEC),
{
    match table_get(t, k) {
        None => Ok(None),
        Some(TomlValue::String(s)) => Ok(Some(s.clone())),
        Some(_) => bad_spec(),
    }
}

fn get_bool(t: &Vec<(String, TomlValue)>, k: &str) -> (res: Result<Option<bool>, TbError>)
    ensures
        res is Ok <==> bool_ok(tget(t@, k@)),
        res matches Ok(o) ==> o == bool_of(tget(t@, k@)),
        res is Err ==> fails_with(res, BAD_SPEC),
{
    match table_get(t, k) {
        None => Ok(None),
        Some(TomlValue::Boolean(b)) => Ok(Some(*b)),
        Some(_) => bad_spec(),
    }
}

fn check_keys(t: &Vec<(String, TomlValue)>, set: KwSet) -> (res: bool)
    ensures
        res == keys_within(t@, set),
{
    let mut i: usize = 0;
    while i < t.len()
        invariant
            i <= t@.len(),
            forall|j: int| 0 <= j < i ==> #[trigger] spec_kw_in(set, t@[j].0@),
        decreases t@.len() - i,
    {
        if !kw_in(set, t[i].0.as_str()) {
            return false;
        }
        i += 1;
    }
    true
}

/// The result of a parse: `Ok` with the model's value when the model is
/// `Some`, `BAD_SPEC` when it is `None`.
pub open spec fn parsed_error(res: Result<ErrorSpec, TbError>, m: Option<ErrorModel>) -> bool {
    match m {
        Some(v) => res matches Ok(e) && e@ == v,
        None => fails_with(res, BAD_SPEC),
    }
}

/// A list parse: `Ok` with the model's value when the model is `Some`,
/// `BAD_SPEC` when it is `None`.
pub open spec fn parsed_errors(res: Result<Vec<ErrorSpec>, TbError>, m: Option<Seq<ErrorModel>>) -> bool {
    match m {
        Some(v) => res matches Ok(e) && errors_view(e@) == v,
        None => fails_with(res, BAD_SPEC),
    }
}

// ----------------------------------------------------------------------------
// Error objects.

/// Parses the error objects of a specification.
pub struct ErrorParser;

impl ErrorParser {
    fn string(s: &String) -> (res: Result<ErrorSpec, TbError>)
        ensures
            parsed_error(res, spec_error_item(TomlValue::String(*s))),
    {
        let r = check_error_name(s.as_str());
        if r.is_err() {
            return bad_spec();
        }
        Ok(ErrorSpec::with_name(s.clone()))
    }

    fn table(t: &Vec<(String, TomlValue)>) -> (res: Result<ErrorSpec, TbError>)
        ensures
            parsed_error(res, spec_error_table(t@)),
    {
        let name = match get_str(t, kws::NAME) {
            Ok(n) => n,
            Err(e) => return Err(e),
        };
        let display = match get_str(t, kws::DISPLAY) {
            Ok(n) => n,
            Err(e) => return Err(e),
        };
        let doc = match get_str(t, kws::DOC) {
            Ok(n) => n,
            Err(e) => return Err(e),
        };
        let doc_from_display = match get_bool(t, kws::DOC_FROM_DISPLAY) {
            Ok(n) => n,
            Err(e) => return Err(e),
        };
        if !check_keys(t, KwSet::Error) {
            return bad_spec();
        }
        let name = match name {
            Some(n) => n,
            None => String::new(),
        };
        if check_error_name(name.as_str()).is_err() {
            return bad_spec();
        }
        Ok(
            ErrorSpec {
                name,
                display,
                doc,
                oes: OverridableErrorSpec { doc_from_display },
            },
        )
    }
}

/// Parses the error lists of a specification.
pub struct ErrorListParser;

impl ErrorListParser {
    fn value(v: &TomlValue) -> (res: Result<Vec<ErrorSpec>, TbError>)
        ensures
            parsed_errors(res, spec_errors_value(*v)),
    {
        match v {
            TomlValue::Array(a) => Self::array(a),
            _ => bad_spec(),
        }
    }

    fn array(a: &Vec<TomlValue>) -> (res: Result<Vec<ErrorSpec>, TbError>)
        ensures
            parsed_errors(res, spec_errors_array(a@)),
    {
        let ghost errs = Seq::new(a@.len(), |i: int| spec_error_item(a@[i]).unwrap());
        let mut errors: Vec<ErrorSpec> = Vec::new();
        let mut i: usize = 0;
        while i < a.len()
            invariant
                i <= a@.len(),
                errs == Seq::new(a@.len(), |i: int| spec_error_item(a@[i]).unwrap()),
                forall|j: int| 0 <= j < i ==> #[trigger] spec_error_item(a@[j]) is Some,
                errors@.len() == i,
                forall|k: int| 0 <= k < i ==> #[trigger] errors@[k]@ == errs[k],
            decreases a@.len() - i,
        {
            let r = match &a[i] {
                TomlValue::String(s) => ErrorParser::string(s),
                TomlValue::Table(t) => ErrorParser::table(t),
                _ => bad_spec(),
            };
            let e = match r {
                Ok(e) => e,
                Err(e) => {
                    return Err(e);
                },
            };
            errors.push(e);
            i += 1;
        }
        proof {
            assert(errors_view(errors@) =~= errs);
        }
        if errors.len() == 0 {
            return bad_spec();
        }
        let names = error_name_list(&errors);
        if check_error_name_uniqueness(&names).is_err() {
            return bad_spec();
        }
        Ok(errors)
    }
}

// ----------------------------------------------------------------------------
// Category objects.

/// The category object that table `t` describes, as the root-level
/// `category` attribute (in [ParseMode::Single]) or as an item of a category list.
///
/// A root-level category takes no error list and is named
/// [IMPLICIT_CATEGORY_NAME] when it has no name; a listed one needs both.
pub open spec fn spec_category_table(t: Seq<(String, TomlValue)>, mode: ParseMode) -> Option<
    CategoryModel,
> {
    let list = mode == ParseMode::List;
    let name = str_of(tget(t, kws::NAME@));
    let errs_v = tget(t, kws::ERRORS@);
    let errors = match errs_v {
        Some(v) => spec_errors_value(v),
        None => Some(Seq::empty()),
    };
    if keys_within(t, KwSet::Category) && str_ok(tget(t, kws::NAME@)) && (name matches Some(n)
        ==> spec_name_ok(n, Case::UpperCamel)) && str_ok(tget(t, kws::DOC@)) && bool_ok(
        tget(t, kws::DOC_FROM_DISPLAY@),
    ) && (errs_v is Some ==> list) && errors is Some && (list ==> name is Some && errs_v is Some) {
        Some(
            CategoryModel {
                name: match name {
                    Some(n) => n,
                    None => IMPLICIT_CATEGORY_NAME@,
                },
                doc: str_of(tget(t, kws::DOC@)),
                doc_from_display: bool_of(tget(t, kws::DOC_FROM_DISPLAY@)),
                errors: errors.unwrap(),
            },
        )
    } else {
        None
    }
}

/// The root-level category that value `v` describes.
pub open spec fn spec_category_value(v: TomlValue) -> Option<CategoryModel> {
    match v {
        TomlValue::Table(t) => spec_category_table(t@, ParseMode::Single),
        _ => None,
    }
}

/// The category that an item of a category list describes.
pub open spec fn spec_category_item(v: TomlValue) -> Option<CategoryModel> {
    match v {
        TomlValue::Table(t) => spec_category_table(t@, ParseMode::List),
        _ => None,
    }
}

/// The category list that array `a` describes: non-empty, of valid category
/// objects with names unique ignoring case.
pub open spec fn spec_categories_array(a: Seq<TomlValue>) -> Option<Seq<CategoryModel>> {
    let cats = Seq::new(a.len(), |i: int| spec_category_item(a[i]).unwrap());
    if a.len() > 0 && (forall|i: int| 0 <= i < a.len() ==> #[trigger] spec_category_item(a[i]) is Some)
        && unique_ignoring_case(category_names(cats)) {
        Some(cats)
    } else {
        None
    }
}

/// The category list that value `v` describes.
pub open spec fn spec_categories_value(v: TomlValue) -> Option<Seq<CategoryModel>> {
    match v {
        TomlValue::Array(a) => spec_categories_array(a@),
        _ => None,
    }
}

/// A parse that follows a model: `Ok` with the model's value when the model
/// is `Some`, `BAD_SPEC` when it is `None`.
pub open spec fn parsed_category(res: Result<CategorySpec, TbError>, m: Option<CategoryModel>) -> bool {
    match m {
        Some(v) => res matches Ok(c) && c@ == v,
        None => fails_with(res, BAD_SPEC),
    }
}

/// A list parse that follows a model.
pub open spec fn parsed_categories(
    res: Result<Vec<CategorySpec>, TbError>,
    m: Option<Seq<CategoryModel>>,
) -> bool {
    match m {
        Some(v) => res matches Ok(c) && categories_view(c@) == v,
        None => fails_with(res, BAD_SPEC),
    }
}

/// Parses the category objects of a specification.
pub struct CategoryParser;

impl CategoryParser {
    fn value(v: &TomlValue) -> (res: Result<CategorySpec, TbError>)
        ensures
            parsed_category(res, spec_category_value(*v)),
    {
        match v {
            TomlValue::Table(t) => Self::table(t, ParseMode::Single),
            _ => bad_spec(),
        }
    }

    fn table(t: &Vec<(String, TomlValue)>, mode: ParseMode) -> (res: Result<CategorySpec, TbError>)
        ensures
            parsed_category(res, spec_category_table(t@, mode)),
    {
        let list = mode == ParseMode::List;
        let name = match get_str(t, kws::NAME) {
            Ok(n) => n,
            Err(e) => return Err(e),
        };
        if let Some(n) = &name {
            if check_category_name(n.as_str()).is_err() {
                return bad_spec();
            }
        }
        let doc = match get_str(t, kws::DOC) {
            Ok(n) => n,
            Err(e) => return Err(e),
        };
        let doc_from_display = match get_bool(t, kws::DOC_FROM_DISPLAY) {
            Ok(n) => n,
            Err(e) => return Err(e),
        };
        let errors = match table_get(t, kws::ERRORS) {
            Some(v) => {
                if !list {
                    return bad_spec();
                }
                match ErrorListParser::value(v) {
                    Ok(es) => Some(es),
                    Err(e) => return Err(e),
                }
            },
            None => None,
        };
        if !check_keys(t, KwSet::Category) {
            return bad_spec();
        }
        let name = match name {
            Some(n) => n,
            None => {
                if list {
                    return bad_spec();
                }
                IMPLICIT_CATEGORY_NAME.to_owned()
            },
        };
        let errors = match errors {
            Some(es) => es,
            None => {
                if list {
                    return bad_spec();
                }
                let es: Vec<ErrorSpec> = Vec::new();
                proof {
                    assert(errors_view(es@) =~= Seq::<ErrorModel>::empty());
                }
                es
            },
        };
        Ok(CategorySpec { name, oes: OverridableErrorSpec { doc_from_display }, doc, errors })
    }
}

/// Parses the category lists of a specification.
pub struct CategoryListParser;

impl CategoryListParser {
    fn value(v: &TomlValue) -> (res: Result<Vec<CategorySpec>, TbError>)
        ensures
            parsed_categories(res, spec_categories_value(*v)),
    {
        match v {
            TomlValue::Array(a) => Self::array(a),
            _ => bad_spec(),
        }
    }

    fn array(a: &Vec<TomlValue>) -> (res: Result<Vec<CategorySpec>, TbError>)
        ensures
            parsed_categories(res, spec_categories_array(a@)),
    {
        let ghost cats = Seq::new(a@.len(), |i: int| spec_category_item(a@[i]).unwrap());
        let mut categories: Vec<CategorySpec> = Vec::new();
        let mut i: usize = 0;
        while i < a.len()
            invariant
                i <= a@.len(),
                cats == Seq::new(a@.len(), |i: int| spec_category_item(a@[i]).unwrap()),
                forall|j: int| 0 <= j < i ==> #[trigger] spec_category_item(a@[j]) is Some,
                categories@.len() == i,
                forall|k: int| 0 <= k < i ==> #[trigger] categories@[k]@ == cats[k],
            decreases a@.len() - i,
        {
            let r = match &a[i] {
                TomlValue::Table(t) => CategoryParser::table(t, ParseMode::List),
                _ => bad_spec(),
            };
            let c = match r {
                Ok(c) => c,
                Err(e) => {
                    assert(spec_category_item(a@[i as int]) is None);
                    return Err(e);
                },
            };
            categories.push(c);
            i += 1;
        }
        proof {
            assert(categories_view(categories@) =~= cats);
        }
        if categories.len() == 0 {
            return bad_spec();
        }
        let names = category_name_list(&categories);
        if check_category_name_uniqueness(&names).is_err() {
            return bad_spec();
        }
        Ok(categories)
    }
}

// ----------------------------------------------------------------------------
// The main object.

/// The main object of a specification that has none.
pub open spec fn spec_default_main() -> MainModel {
    MainModel { output: None, no_std: None, separate_files: None }
}

/// The main object that table `t` describes.
pub open spec fn spec_main_table(t: Seq<(String, TomlValue)>) -> Option<MainModel> {
    if keys_within(t, KwSet::Main) && str_ok(tget(t, kws::OUTPUT@)) && bool_ok(
        tget(t, kws::NO_STD@),
    ) {
        Some(
            MainModel {
                output: str_of(tget(t, kws::OUTPUT@)),
                no_std: bool_of(tget(t, kws::NO_STD@)),
                separate_files: None,
            },
        )
    } else {
        None
    }
}

/// The main object that value `v` describes.
pub open spec fn spec_main_value(v: TomlValue) -> Option<MainModel> {
    match v {
        TomlValue::Table(t) => spec_main_table(t@),
        _ => None,
    }
}

/// A parse that follows a model.
pub open spec fn parsed_main(res: Result<MainSpec, TbError>, m: Option<MainModel>) -> bool {
    match m {
        Some(v) => res matches Ok(x) && x@ == v,
        None => fails_with(res, BAD_SPEC),
    }
}

/// Parses the main object of a specification.
pub struct MainParser;

impl MainParser {
    fn value(v: &TomlValue) -> (res: Result<MainSpec, TbError>)
        ensures
            parsed_main(res, spec_main_value(*v)),
    {
        match v {
            TomlValue::Table(t) => Self::table(t),
            _ => bad_spec(),
        }
    }

    fn table(t: &Vec<(String, TomlValue)>) -> (res: Result<MainSpec, TbError>)
        ensures
            parsed_main(res, spec_main_table(t@)),
    {
        let output = match get_str(t, kws::OUTPUT) {
            Ok(n) => n,
            Err(e) => return Err(e),
        };
        let no_std = match get_bool(t, kws::NO_STD) {
            Ok(n) => n,
            Err(e) => return Err(e),
        };
        if !check_keys(t, KwSet::Main) {
            return bad_spec();
        }
        Ok(MainSpec { output, no_std, separate_files: None })
    }
}

// ----------------------------------------------------------------------------
// Module objects.

/// An optional struct name given under keyword `kw`: absent, or a string
/// that may name that struct.
pub open spec fn ident_ok(v: Option<TomlValue>, kw: Seq<char>) -> bool {
    str_ok(v) && (str_of(v) matches Some(s) ==> spec_module_ident_ok(s, kw))
}

/// The attributes of table `t` other than the name and the category list
/// have the types that a module object asks for.
pub open spec fn module_attrs_ok(t: Seq<(String, TomlValue)>) -> bool {
    &&& bool_ok(tget(t, kws::DOC_FROM_DISPLAY@))
    &&& str_ok(tget(t, kws::ERR_CAT_DOC@))
    &&& str_ok(tget(t, kws::ERR_KIND_DOC@))
    &&& str_ok(tget(t, kws::ERR_DOC@))
    &&& str_ok(tget(t, kws::DOC@))
    &&& bool_ok(tget(t, kws::RESULT_FROM_ERR@))
    &&& bool_ok(tget(t, kws::RESULT_FROM_ERR_KIND@))
    &&& bool_ok(tget(t, kws::ERROR_TRAIT@))
    &&& ident_ok(tget(t, kws::ERR_NAME@), kws::ERR_NAME@)
    &&& ident_ok(tget(t, kws::ERR_KIND_NAME@), kws::ERR_KIND_NAME@)
    &&& ident_ok(tget(t, kws::ERR_CAT_NAME@), kws::ERR_CAT_NAME@)
    &&& bool_ok(tget(t, kws::FLAT_KINDS@))
}

/// The module object that table `t` describes, as the root-level `module`
/// attribute (in [ParseMode::Single]) or as an item of a module list.
///
/// A root-level module takes no category list; a listed one needs a name
/// and a category list.
pub open spec fn spec_module_table(t: Seq<(String, TomlValue)>, mode: ParseMode) -> Option<ModuleModel> {
    let list = mode == ParseMode::List;
    let name = str_of(tget(t, kws::NAME@));
    let cats_v = tget(t, kws::CATEGORIES@);
    let cats = match cats_v {
        Some(v) => spec_categories_value(v),
        None => Some(Seq::empty()),
    };
    if keys_within(t, KwSet::Module) && str_ok(tget(t, kws::NAME@)) && (cats_v is Some ==> list)
        && cats is Some && module_attrs_ok(t) && (name matches Some(n) ==> spec_module_name_ok(n))
        && (list ==> name is Some && cats_v is Some) {
        Some(
            ModuleModel {
                name,
                doc: str_of(tget(t, kws::DOC@)),
                err_doc: str_of(tget(t, kws::ERR_DOC@)),
                err_kind_doc: str_of(tget(t, kws::ERR_KIND_DOC@)),
                err_cat_doc: str_of(tget(t, kws::ERR_CAT_DOC@)),
                result_from_err: bool_of(tget(t, kws::RESULT_FROM_ERR@)),
                result_from_err_kind: bool_of(tget(t, kws::RESULT_FROM_ERR_KIND@)),
                error_trait: bool_of(tget(t, kws::ERROR_TRAIT@)),
                err_name: str_of(tget(t, kws::ERR_NAME@)),
                err_kind_name: str_of(tget(t, kws::ERR_KIND_NAME@)),
                err_cat_name: str_of(tget(t, kws::ERR_CAT_NAME@)),
                doc_from_display: bool_of(tget(t, kws::DOC_FROM_DISPLAY@)),
                flat_kinds: bool_of(tget(t, kws::FLAT_KINDS@)),
                categories: cats.unwrap(),
            },
        )
    } else {
        None
    }
}

/// The module object that value `v` describes.
pub open spec fn spec_module_value(v: TomlValue, mode: ParseMode) -> Option<ModuleModel> {
    match v {
        TomlValue::Table(t) => spec_module_table(t@, mode),
        _ => None,
    }
}

/// The module list that array `a` describes: non-empty, of valid module
/// objects with names unique ignoring case.
pub open spec fn spec_modules_array(a: Seq<TomlValue>) -> Option<Seq<ModuleModel>> {
    let ms = Seq::new(a.len(), |i: int| spec_module_value(a[i], ParseMode::List).unwrap());
    if a.len() > 0 && (forall|i: int|
        0 <= i < a.len() ==> #[trigger] spec_module_value(a[i], ParseMode::List) is Some) && unique_ignoring_case(
        module_names(ms),
    ) {
        Some(ms)
    } else {
        None
    }
}

/// The module list that value `v` describes.
pub open spec fn spec_modules_value(v: TomlValue) -> Option<Seq<ModuleModel>> {
    match v {
        TomlValue::Array(a) => spec_modules_array(a@),
        _ => None,
    }
}

/// A parse that follows a model.
pub open spec fn parsed_module(res: Result<ModuleSpec, TbError>, m: Option<ModuleModel>) -> bool {
    match m {
        Some(v) => res matches Ok(x) && x@ == v,
        None => fails_with(res, BAD_SPEC),
    }
}

/// A list parse that follows a model.
pub open spec fn parsed_modules(res: Result<Vec<ModuleSpec>, TbError>, m: Option<Seq<ModuleModel>>) -> bool {
    match m {
        Some(v) => res matches Ok(x) && modules_view(x@) == v,
        None => fails_with(res, BAD_SPEC),
    }
}

fn get_ident(t: &Vec<(String, TomlValue)>, kw: &str) -> (res: Result<Option<String>, TbError>)
    ensures
        res is Ok <==> ident_ok(tget(t@, kw@), kw@),
        res matches Ok(o) ==> opt_view(o) == str_of(tget(t@, kw@)),
        res is Err ==> fails_with(res, BAD_SPEC),
{
    let v = match get_str(t, kw) {
        Ok(v) => v,
        Err(e) => return Err(e),
    };
    if let Some(s) = &v {
        if check_module_ident(s.as_str(), kw).is_err() {
            return bad_spec();
        }
    }
    Ok(v)
}

/// Parses the module objects of a specification.
pub struct ModuleParser;

impl ModuleParser {
    fn value(v: &TomlValue, mode: ParseMode) -> (res: Result<ModuleSpec, TbError>)
        ensures
            parsed_module(res, spec_module_value(*v, mode)),
    {
        match v {
            TomlValue::Table(t) => Self::table(t, mode),
            _ => bad_spec(),
        }
    }

    fn table(t: &Vec<(String, TomlValue)>, mode: ParseMode) -> (res: Result<ModuleSpec, TbError>)
        ensures
            parsed_module(res, spec_module_table(t@, mode)),
    {
        let list = mode == ParseMode::List;
        let name = match get_str(t, kws::NAME) {
            Ok(n) => n,
            Err(e) => return Err(e),
        };
        let categories = match table_get(t, kws::CATEGORIES) {
            Some(v) => {
                if !list {
                    return bad_spec();
                }
                match CategoryListParser::value(v) {
                    Ok(cs) => Some(cs),
                    Err(e) => return Err(e),
                }
            },
            None => None,
        };
        let doc_from_display = match get_bool(t, kws::DOC_FROM_DISPLAY) {
            Ok(n) => n,
            Err(e) => return Err(e),
        };
        let err_cat_doc = match get_str(t, kws::ERR_CAT_DOC) {
            Ok(n) => n,
            Err(e) => return Err(e),
        };
        let err_kind_doc = match get_str(t, kws::ERR_KIND_DOC) {
            Ok(n) => n,
            Err(e) => return Err(e),
        };
        let err_doc = match get_str(t, kws::ERR_DOC) {
            Ok(n) => n,
            Err(e) => return Err(e),
        };
        let doc = match get_str(t, kws::DOC) {
            Ok(n) => n,
            Err(e) => return Err(e),
        };
        let result_from_err = match get_bool(t, kws::RESULT_FROM_ERR) {
            Ok(n) => n,
            Err(e) => return Err(e),
        };
        let result_from_err_kind = match get_bool(t, kws::RESULT_FROM_ERR_KIND) {
            Ok(n) => n,
            Err(e) => return Err(e),
        };
        let error_trait = match get_bool(t, kws::ERROR_TRAIT) {
            Ok(n) => n,
            Err(e) => return Err(e),
        };
        let err_name = match get_ident(t, kws::ERR_NAME) {
            Ok(n) => n,
            Err(e) => return Err(e),
        };
        let err_kind_name = match get_ident(t, kws::ERR_KIND_NAME) {
            Ok(n) => n,
            Err(e) => return Err(e),
        };
        let err_cat_name = match get_ident(t, kws::ERR_CAT_NAME) {
            Ok(n) => n,
            Err(e) => return Err(e),
        };
        let flat_kinds = match get_bool(t, kws::FLAT_KINDS) {
            Ok(n) => n,
            Err(e) => return Err(e),
        };
        if !check_keys(t, KwSet::Module) {
            return bad_spec();
        }
        if let Some(n) = &name {
            if check_module_name(n.as_str()).is_err() {
                return bad_spec();
            }
        }
        if list && (name.is_none() || categories.is_none()) {
            return bad_spec();
        }
        let categories = match categories {
            Some(cs) => cs,
            None => {
                let cs: Vec<CategorySpec> = Vec::new();
                proof {
                    assert(categories_view(cs@) =~= Seq::<CategoryModel>::empty());
                }
                cs
            },
        };
        Ok(
            ModuleSpec {
                name,
                doc,
                err_doc,
                err_kind_doc,
                err_cat_doc,
                result_from_err,
                result_from_err_kind,
                error_trait,
                err_name,
                err_kind_name,
                err_cat_name,
                oes: OverridableErrorSpec { doc_from_display },
                flat_kinds,
                categories,
            },
        )
    }
}

/// Parses the module lists of a specification.
pub struct ModuleListParser;

impl ModuleListParser {
    fn value(v: &TomlValue) -> (res: Result<Vec<ModuleSpec>, TbError>)
        ensures
            parsed_modules(res, spec_modules_value(*v)),
    {
        match v {
            TomlValue::Array(a) => Self::array(a),
            _ => bad_spec(),
        }
    }

    fn array(a: &Vec<TomlValue>) -> (res: Result<Vec<ModuleSpec>, TbError>)
        ensures
            parsed_modules(res, spec_modules_array(a@)),
    {
        let ghost ms = Seq::new(a@.len(), |i: int| spec_module_value(a@[i], ParseMode::List).unwrap());
        let mut modules: Vec<ModuleSpec> = Vec::new();
        let mut i: usize = 0;
        while i < a.len()
            invariant
                i <= a@.len(),
                ms == Seq::new(a@.len(), |i: int| spec_module_value(a@[i], ParseMode::List).unwrap()),
                forall|j: int| 0 <= j < i ==> #[trigger] spec_module_value(a@[j], ParseMode::List) is Some,
                modules@.len() == i,
                forall|k: int| 0 <= k < i ==> #[trigger] modules@[k]@ == ms[k],
            decreases a@.len() - i,
        {
            let m = match ModuleParser::value(&a[i], ParseMode::List) {
                Ok(m) => m,
                Err(e) => {
                    assert(spec_module_value(a@[i as int], ParseMode::List) is None);
                    return Err(e);
                },
            };
            modules.push(m);
            i += 1;
        }
        proof {
            assert(modules_view(modules@) =~= ms);
        }
        if modules.len() == 0 {
            return bad_spec();
        }
        let names = module_name_list(&modules);
        if check_module_name_uniqueness(&names).is_err() {
            return bad_spec();
        }
        Ok(modules)
    }
}

// ----------------------------------------------------------------------------
// The specification file.

/// The keys of table `t`, in order.
pub open spec fn table_keys(t: Seq<(String, TomlValue)>) -> Seq<Seq<char>> {
    t.map_values(|e: (String, TomlValue)| e.0@)
}

/// The specification that the root table `t` describes.
///
/// Each root-level attribute that is present must parse; the module list
/// is then built by [spec_assemble] and checked for flat kinds.
pub open spec fn spec_toml_table(t: Seq<(String, TomlValue)>) -> Option<SpecModel> {
    let main = match tget(t, kws::MAIN@) {
        Some(v) => spec_main_value(v),
        None => Some(spec_default_main()),
    };
    let modules = match tget(t, kws::MODULES@) {
        Some(v) => spec_modules_value(v),
        None => None,
    };
    let module = match tget(t, kws::MODULE@) {
        Some(v) => spec_module_value(v, ParseMode::Single),
        None => None,
    };
    let category = match tget(t, kws::CATEGORY@) {
        Some(v) => spec_category_value(v),
        None => None,
    };
    let categories = match tget(t, kws::CATEGORIES@) {
        Some(v) => spec_categories_value(v),
        None => None,
    };
    let errors = match tget(t, kws::ERRORS@) {
        Some(v) => spec_errors_value(v),
        None => None,
    };
    let ms = spec_assemble(modules, module, category, categories, errors);
    if spec_root_keys_ok(table_keys(t)) && main is Some && (tget(t, kws::MODULES@) is Some
        ==> modules is Some) && (tget(t, kws::MODULE@) is Some ==> module is Some) && (tget(
        t,
        kws::CATEGORY@,
    ) is Some ==> category is Some) && (tget(t, kws::CATEGORIES@) is Some ==> categories is Some)
        && (tget(t, kws::ERRORS@) is Some ==> errors is Some) && spec_all_flat_kinds_ok(ms) {
        Some(SpecModel { path: Seq::empty(), main: main.unwrap(), modules: ms })
    } else {
        None
    }
}

/// The specification that a TOML document describes: its root must be a
/// table.
pub open spec fn spec_toml_value(v: TomlValue) -> Option<SpecModel> {
    match v {
        TomlValue::Table(t) => spec_toml_table(t@),
        _ => None,
    }
}

/// A parse that follows a model: `Ok` with the model's value when the model
/// is `Some`, `BAD_SPEC` when it is `None`.
pub open spec fn parsed_spec(res: Result<Spec, TbError>, m: Option<SpecModel>) -> bool {
    match m {
        Some(v) => res matches Ok(x) && x@ == v,
        None => fails_with(res, BAD_SPEC),
    }
}

fn key_list(t: &Vec<(String, TomlValue)>) -> (res: Vec<&str>)
    ensures
        strs_view(res@) == table_keys(t@),
{
    let mut keys: Vec<&str> = Vec::new();
    let mut i: usize = 0;
    while i < t.len()
        invariant
            i <= t@.len(),
            keys@.len() == i,
            forall|k: int| 0 <= k < i ==> #[trigger] keys@[k]@ == t@[k].0@,
        decreases t@.len() - i,
    {
        keys.push(t[i].0.as_str());
        i += 1;
    }
    proof {
        assert(strs_view(keys@) =~= table_keys(t@));
    }
    keys
}

/// Parses TOML specification files.
pub struct TomlParser;

impl TomlParser {
    /// Parses the text of a TOML specification.
    ///
    /// Text that is not a TOML document fails with `BAD_TOML`; a document
    /// that is not a valid specification fails with `BAD_SPEC`.
    pub fn parse_str(s: &str) -> (res: Result<Spec, TbError>)
        ensures
            match toml_document(s@) {
                None => fails_with(res, BAD_TOML),
                Some(v) => parsed_spec(res, spec_toml_value(v)),
            },
            res matches Ok(x) ==> x@.well_formed(),
    {
        match toml_from_str(s) {
            Some(v) => Self::value(&v),
            None => Err(TbError::new(BAD_TOML)),
        }
    }

    /// Parses the deserialized value of a TOML specification file.
    pub fn value(v: &TomlValue) -> (res: Result<Spec, TbError>)
        ensures
            parsed_spec(res, spec_toml_value(*v)),
            res matches Ok(x) ==> x@.well_formed(),
    {
        proof {
            if spec_toml_value(*v) is Some {
                lemma_toml_spec_well_formed(*v);
            }
        }
        match v {
            TomlValue::Table(t) => Self::table(t),
            _ => bad_spec(),
        }
    }

    #[verifier::rlimit(30)]
    fn table(t: &Vec<(String, TomlValue)>) -> (res: Result<Spec, TbError>)
        ensures
            parsed_spec(res, spec_toml_table(t@)),
    {
        let keys = key_list(t);
        if !check_root_keys(&keys) {
            return bad_spec();
        }
        let main = match table_get(t, kws::MAIN) {
            Some(v) => match MainParser::value(v) {
                Ok(m) => m,
                Err(e) => return Err(e),
            },
            None => MainSpec { output: None, no_std: None, separate_files: None },
        };
        let modules = match table_get(t, kws::MODULES) {
            Some(v) => match ModuleListParser::value(v) {
                Ok(m) => Some(m),
                Err(e) => return Err(e),
            },
            None => None,
        };
        let module = match table_get(t, kws::MODULE) {
            Some(v) => match ModuleParser::value(v, ParseMode::Single) {
                Ok(m) => Some(m),
                Err(e) => return Err(e),
            },
            None => None,
        };
        let category = match table_get(t, kws::CATEGORY) {
            Some(v) => match CategoryParser::value(v) {
                Ok(c) => Some(c),
                Err(e) => return Err(e),
            },
            None => None,
        };
        let categories = match table_get(t, kws::CATEGORIES) {
            Some(v) => match CategoryListParser::value(v) {
                Ok(c) => Some(c),
                Err(e) => return Err(e),
            },
            None => None,
        };
        let errors = match table_get(t, kws::ERRORS) {
            Some(v) => match ErrorListParser::value(v) {
                Ok(es) => Some(es),
                Err(e) => return Err(e),
            },
            None => None,
        };
        let modules = assemble(modules, module, category, categories, errors);
        if !check_flat_kinds(&modules) {
            return bad_spec();
        }
        Ok(Spec { path: String::new(), main, modules })
    }
}

// ----------------------------------------------------------------------------
// What every accepted document holds.

proof fn lemma_errors_value_ok(v: TomlValue)
    requires
        spec_errors_value(v) is Some,
    ensures
        errors_ok(spec_errors_value(v).unwrap()),
{
}

proof fn lemma_category_item_ok(v: TomlValue)
    requires
        spec_category_item(v) is Some,
    ensures
        errors_ok(spec_category_item(v).unwrap().errors),
{
    if let TomlValue::Table(t) = v {
        lemma_errors_value_ok(tget(t@, kws::ERRORS@).unwrap());
    }
}

proof fn lemma_categories_value_ok(v: TomlValue)
    requires
        spec_categories_value(v) is Some,
    ensures
        categories_ok(spec_categories_value(v).unwrap()),
{
    if let TomlValue::Array(a) = v {
        let cs = spec_categories_value(v).unwrap();
        assert forall|i: int| 0 <= i < cs.len() implies #[trigger] errors_ok(cs[i].errors) by {
            lemma_category_item_ok(a@[i]);
        }
    }
}

proof fn lemma_module_item_ok(v: TomlValue)
    requires
        spec_module_value(v, ParseMode::List) is Some,
    ensures
        categories_ok(spec_module_value(v, ParseMode::List).unwrap().categories),
{
    if let TomlValue::Table(t) = v {
        lemma_categories_value_ok(tget(t@, kws::CATEGORIES@).unwrap());
    }
}

proof fn lemma_modules_value_ok(v: TomlValue)
    requires
        spec_modules_value(v) is Some,
    ensures
        modules_ok(spec_modules_value(v).unwrap()),
{
    if let TomlValue::Array(a) = v {
        let ms = spec_modules_value(v).unwrap();
        assert forall|i: int| 0 <= i < ms.len() implies #[trigger] categories_ok(
            ms[i].categories,
        ) by {
            lemma_module_item_ok(a@[i]);
        }
    }
}

proof fn lemma_tget_has_key(t: Seq<(String, TomlValue)>, k: Seq<char>)
    ensures
        tget(t, k) is Some <==> has_key(table_keys(t), k),
    decreases t.len(),
{
    if t.len() > 0 {
        let keys = table_keys(t);
        let rest = table_keys(t.drop_first());
        lemma_tget_has_key(t.drop_first(), k);
        assert(rest =~= keys.drop_first());
        if t[0].0@ == k {
            assert(keys[0] == k);
        } else {
            if has_key(keys, k) {
                let i = choose|i: int| 0 <= i < keys.len() && keys[i] == k;
                assert(rest[i - 1] == k);
            }
            if has_key(rest, k) {
                let j = choose|j: int| 0 <= j < rest.len() && rest[j] == k;
                assert(keys[j + 1] == k);
            }
        }
    }
}

/// Every specification that a TOML document describes is well formed
/// (see [SpecModel::well_formed]): it has modules, each module categories,
/// each category errors, with names unique ignoring case in every list.
pub proof fn lemma_toml_spec_well_formed(v: TomlValue)
    requires
        spec_toml_value(v) is Some,
    ensures
        spec_toml_value(v).unwrap().well_formed(),
{
    if let TomlValue::Table(tv) = v {
        let t = tv@;
        let keys = table_keys(t);
        let pairs = spec_mutually_exclusive_root_kws();
        lemma_tget_has_key(t, kws::MODULES@);
        lemma_tget_has_key(t, kws::MODULE@);
        lemma_tget_has_key(t, kws::CATEGORY@);
        lemma_tget_has_key(t, kws::CATEGORIES@);
        lemma_tget_has_key(t, kws::ERRORS@);
        assert(!(has_key(keys, pairs[0].0) && has_key(keys, pairs[0].1)));
        assert(!(has_key(keys, pairs[1].0) && has_key(keys, pairs[1].1)));
        assert(!(has_key(keys, pairs[2].0) && has_key(keys, pairs[2].1)));
        assert(!(has_key(keys, pairs[3].0) && has_key(keys, pairs[3].1)));
        assert(!(has_key(keys, pairs[4].0) && has_key(keys, pairs[4].1)));
        assert(!(has_key(keys, pairs[5].0) && has_key(keys, pairs[5].1)));
        let r = choose|i: int| 0 <= i < keys.len() && #[trigger] spec_is_required_root_kw(keys[i]);
        assert(has_key(keys, keys[r]));
        let modules = match tget(t, kws::MODULES@) {
            Some(x) => spec_modules_value(x),
            None => None,
        };
        let module = match tget(t, kws::MODULE@) {
            Some(x) => spec_module_value(x, ParseMode::Single),
            None => None,
        };
        let category = match tget(t, kws::CATEGORY@) {
            Some(x) => spec_category_value(x),
            None => None,
        };
        let categories = match tget(t, kws::CATEGORIES@) {
            Some(x) => spec_categories_value(x),
            None => None,
        };
        let errors = match tget(t, kws::ERRORS@) {
            Some(x) => spec_errors_value(x),
            None => None,
        };
        if let Some(x) = tget(t, kws::MODULES@) {
            lemma_modules_value_ok(x);
        }
        if let Some(x) = tget(t, kws::CATEGORIES@) {
            lemma_categories_value_ok(x);
        }
        if let Some(x) = tget(t, kws::ERRORS@) {
            lemma_errors_value_ok(x);
        }
        lemma_assemble_well_formed(modules, module, category, categories, errors);
        let ms = spec_assemble(modules, module, category, categories, errors);
        assert forall|i: int| 0 <= i < ms.len() implies #[trigger] module_flat_kinds_ok(ms[i]) by {
            assert(spec_flat_kinds_ok(ms[i]));
        }
    }
}

/// A specification that declares nothing but its errors gets a single
/// implicit module with a single implicit category, named
/// [IMPLICIT_CATEGORY_NAME], that holds them.
pub proof fn lemma_toml_errors_only(t: Seq<(String, TomlValue)>)
    requires
        t.len() == 1,
        t[0].0@ == kws::ERRORS@,
        spec_errors_value(t[0].1) is Some,
    ensures
        spec_toml_table(t) == Some(
            SpecModel {
                path: Seq::empty(),
                main: spec_default_main(),
                modules: seq![
                    spec_implicit_module(
                        seq![spec_implicit_category(spec_errors_value(t[0].1).unwrap())],
                    ),
                ],
            },
        ),
{
    reveal_strlit("errors");
    reveal_strlit("main");
    reveal_strlit("modules");
    reveal_strlit("module");
    reveal_strlit("category");
    reveal_strlit("categories");
    assert(kws::ERRORS@.len() == 6);
    assert(kws::MAIN@.len() == 4);
    assert(kws::MODULES@.len() == 7);
    assert(kws::ERRORS@ != kws::MAIN@);
    assert(kws::ERRORS@ != kws::MODULES@);
    let keys = table_keys(t);
    assert(keys =~= seq![kws::ERRORS@]);
    assert(tget(t.drop_first(), kws::MAIN@) is None);
    assert(tget(t.drop_first(), kws::MODULES@) is None);
    assert(tget(t.drop_first(), kws::MODULE@) is None);
    assert(tget(t.drop_first(), kws::CATEGORY@) is None);
    assert(tget(t.drop_first(), kws::CATEGORIES@) is None);
    assert(tget(t.drop_first(), kws::ERRORS@) is None);
    assert(kws::ERRORS@[0] == 'e' && kws::MODULE@[0] == 'm');
    assert(kws::ERRORS@ != kws::MODULE@);
    assert(kws::ERRORS@ != kws::CATEGORY@);
    assert(kws::ERRORS@ != kws::CATEGORIES@);
    assert(tget(t, kws::MAIN@) is None);
    assert(tget(t, kws::MODULES@) is None);
    assert(tget(t, kws::MODULE@) is None);
    assert(tget(t, kws::CATEGORY@) is None);
    assert(tget(t, kws::CATEGORIES@) is None);
    assert(tget(t, kws::ERRORS@) == Some(t[0].1));
    assert(spec_is_required_root_kw(keys[0]));
    let pairs = spec_mutually_exclusive_root_kws();
    assert forall|p: int| 0 <= p < pairs.len() implies !(has_key(keys, #[trigger] pairs[p].0)
        && has_key(keys, pairs[p].1)) by {
        if has_key(keys, pairs[p].0) && has_key(keys, pairs[p].1) {
            assert(pairs[p].0 == kws::ERRORS@ && pairs[p].1 == kws::ERRORS@);
        }
    }
    let es = spec_errors_value(t[0].1).unwrap();
    let ms = seq![spec_implicit_module(seq![spec_implicit_category(es)])];
    assert(spec_assemble(None, None, None, None, Some(es)) == ms);
    assert(spec_all_flat_kinds_ok(ms));
}


// ----------------------------------------------------------------------------
// What a parsed TOML specification keeps of its document.

/// The value under key `kw` of `v`, when `v` is a table.
pub open spec fn toml_attr(v: Option<TomlValue>, kw: Seq<char>) -> Option<TomlValue> {
    match v {
        Some(TomlValue::Table(m)) => tget(m@, kw),
        _ => None,
    }
}

/// The boolean under key `kw` of `v`, when `v` is a table that holds one.
pub open spec fn toml_bool_attr(v: Option<TomlValue>, kw: Seq<char>) -> Option<bool> {
    match toml_attr(v, kw) {
        Some(TomlValue::Boolean(b)) => Some(b),
        _ => None,
    }
}

/// The string under key `kw` of `v`, when `v` is a table that holds one.
pub open spec fn toml_str_attr(v: Option<TomlValue>, kw: Seq<char>) -> Option<Seq<char>> {
    match toml_attr(v, kw) {
        Some(TomlValue::String(s)) => Some(s@),
        _ => None,
    }
}

/// The items of the root-level module list of root table `t`.
pub open spec fn toml_module_items(t: Seq<(String, TomlValue)>) -> Seq<TomlValue> {
    match tget(t, kws::MODULES@) {
        Some(TomlValue::Array(a)) => a@,
        _ => Seq::empty(),
    }
}

/// The root-level attributes of a document that a specification was made
/// of exclude each other as the keywords say.
proof fn lemma_toml_root_exclusive(t: Seq<(String, TomlValue)>)
    requires
        spec_toml_table(t) is Some,
    ensures
        tget(t, kws::MODULES@) is Some ==> tget(t, kws::MODULE@) is None && tget(t, kws::CATEGORY@)
            is None && tget(t, kws::CATEGORIES@) is None && tget(t, kws::ERRORS@) is None,
{
    let keys = table_keys(t);
    let pairs = spec_mutually_exclusive_root_kws();
    lemma_tget_has_key(t, kws::MODULES@);
    lemma_tget_has_key(t, kws::MODULE@);
    lemma_tget_has_key(t, kws::CATEGORY@);
    lemma_tget_has_key(t, kws::CATEGORIES@);
    lemma_tget_has_key(t, kws::ERRORS@);
    assert(!(has_key(keys, pairs[2].0) && has_key(keys, pairs[2].1)));
    assert(!(has_key(keys, pairs[3].0) && has_key(keys, pairs[3].1)));
    assert(!(has_key(keys, pairs[4].0) && has_key(keys, pairs[4].1)));
    assert(!(has_key(keys, pairs[5].0) && has_key(keys, pairs[5].1)));
}

/// The main object of a parsed TOML specification carries the values that
/// the document's `main` table gives: its `output` string and its `no_std`
/// boolean; with no `main` table there is no output path.
pub proof fn law_toml_main_attributes(t: Seq<(String, TomlValue)>)
    requires
        spec_toml_table(t) is Some,
    ensures
        spec_toml_table(t).unwrap().main.output == toml_str_attr(tget(t, kws::MAIN@), kws::OUTPUT@),
        spec_toml_table(t).unwrap().main.no_std == toml_bool_attr(tget(t, kws::MAIN@), kws::NO_STD@),
{
}

/// Module model `m` carries every attribute that `v` gives it: each
/// string attribute as written, each boolean attribute as written, and no
/// value for an attribute that `v` leaves out.
pub open spec fn toml_module_carries(v: Option<TomlValue>, m: ModuleModel) -> bool {
    &&& m.name == toml_str_attr(v, kws::NAME@)
    &&& m.doc == toml_str_attr(v, kws::DOC@)
    &&& m.err_doc == toml_str_attr(v, kws::ERR_DOC@)
    &&& m.err_kind_doc == toml_str_attr(v, kws::ERR_KIND_DOC@)
    &&& m.err_cat_doc == toml_str_attr(v, kws::ERR_CAT_DOC@)
    &&& m.result_from_err == toml_bool_attr(v, kws::RESULT_FROM_ERR@)
    &&& m.result_from_err_kind == toml_bool_attr(v, kws::RESULT_FROM_ERR_KIND@)
    &&& m.error_trait == toml_bool_attr(v, kws::ERROR_TRAIT@)
    &&& m.err_name == toml_str_attr(v, kws::ERR_NAME@)
    &&& m.err_kind_name == toml_str_attr(v, kws::ERR_KIND_NAME@)
    &&& m.err_cat_name == toml_str_attr(v, kws::ERR_CAT_NAME@)
    &&& m.doc_from_display == toml_bool_attr(v, kws::DOC_FROM_DISPLAY@)
    &&& m.flat_kinds == toml_bool_attr(v, kws::FLAT_KINDS@)
}

/// Every module of a parsed TOML specification carries the attributes
/// that its table in the document gives (see [toml_module_carries]), among
/// them `flat_kinds`: the root-level `module` table for the first module, and
/// each item of the root-level module list for the module at its position.
pub proof fn law_toml_module_attributes(t: Seq<(String, TomlValue)>)
    requires
        spec_toml_table(t) is Some,
    ensures
        tget(t, kws::MODULE@) is Some ==> toml_module_carries(
            tget(t, kws::MODULE@),
            spec_toml_table(t).unwrap().modules[0],
        ),
        forall|i: int|
            0 <= i < toml_module_items(t).len() ==> toml_module_carries(
                Some(#[trigger] toml_module_items(t)[i]),
                spec_toml_table(t).unwrap().modules[i],
            ),
{
    lemma_toml_root_exclusive(t);
    let modules = match tget(t, kws::MODULES@) {
        Some(x) => spec_modules_value(x),
        None => None,
    };
    let module = match tget(t, kws::MODULE@) {
        Some(x) => spec_module_value(x, ParseMode::Single),
        None => None,
    };
    let category = match tget(t, kws::CATEGORY@) {
        Some(x) => spec_category_value(x),
        None => None,
    };
    let categories = match tget(t, kws::CATEGORIES@) {
        Some(x) => spec_categories_value(x),
        None => None,
    };
    let errors = match tget(t, kws::ERRORS@) {
        Some(x) => spec_errors_value(x),
        None => None,
    };
    let ms = spec_assemble(modules, module, category, categories, errors);
    assert(spec_toml_table(t).unwrap().modules == ms);
    if tget(t, kws::MODULE@) is Some {
        let md = module.unwrap();
        assert(modules is None);
        let m1 = seq![md];
        assert(Seq::<ModuleModel>::empty().push(md) =~= m1);
        let m2 = match category {
            Some(c) => with_category(m1, c),
            None => m1,
        };
        assert(toml_module_carries(tget(t, kws::MODULE@), md));
        assert(toml_module_carries(tget(t, kws::MODULE@), m2[0]));
        let m3 = match categories {
            Some(cs) => with_categories(m2, cs),
            None => m2,
        };
        assert(toml_module_carries(tget(t, kws::MODULE@), m3[0]));
        assert(toml_module_carries(tget(t, kws::MODULE@), ms[0]));
    }
    assert forall|i: int| 0 <= i < toml_module_items(t).len() implies toml_module_carries(
        Some(#[trigger] toml_module_items(t)[i]),
        ms[i],
    ) by {
        let a = toml_module_items(t);
        assert(spec_module_value(a[i], ParseMode::List) is Some);
        assert(ms == modules.unwrap());
        assert(ms[i] == spec_module_value(a[i], ParseMode::List).unwrap());
    }
}


/// Error model `e` carries what error item `v` of a document gives: a bare
/// string is the name and nothing else; a table gives each attribute as
/// written, with no value for an attribute it leaves out.
pub open spec fn toml_error_carries(v: TomlValue, e: ErrorModel) -> bool {
    match v {
        TomlValue::String(s) => e == ErrorModel {
            name: s@,
            display: None,
            doc: None,
            doc_from_display: None,
        },
        TomlValue::Table(_) => {
            &&& Some(e.name) == toml_str_attr(Some(v), kws::NAME@)
            &&& e.display == toml_str_attr(Some(v), kws::DISPLAY@)
            &&& e.doc == toml_str_attr(Some(v), kws::DOC@)
            &&& e.doc_from_display == toml_bool_attr(Some(v), kws::DOC_FROM_DISPLAY@)
        },
        _ => false,
    }
}

/// The items of an array value, none for any other value.
pub open spec fn toml_items(v: TomlValue) -> Seq<TomlValue> {
    match v {
        TomlValue::Array(a) => a@,
        _ => Seq::empty(),
    }
}

/// A parsed error list has one error per item of the document's array, in
/// order, each carrying what its item gives (see [toml_error_carries]).
pub proof fn law_toml_error_list(v: TomlValue)
    requires
        spec_errors_value(v) is Some,
    ensures
        spec_errors_value(v).unwrap().len() == toml_items(v).len(),
        forall|i: int|
            0 <= i < toml_items(v).len() ==> toml_error_carries(
                #[trigger] toml_items(v)[i],
                spec_errors_value(v).unwrap()[i],
            ),
{
    let a = toml_items(v);
    let es = spec_errors_value(v).unwrap();
    assert forall|i: int| 0 <= i < a.len() implies toml_error_carries(
        #[trigger] a[i],
        es[i],
    ) by {
        assert(spec_error_item(a[i]) is Some);
        assert(es[i] == spec_error_item(a[i]).unwrap());
        if let TomlValue::Table(m) = a[i] {
            assert(spec_name_ok(or_empty(str_of(tget(m@, kws::NAME@))), Case::UpperCamel));
        }
    }
}


/// Category model `c` carries what item `v` of a category list gives: its
/// name, doc and `doc_from_display` as written (no value for one it leaves
/// out), and the error list that its `errors` attribute describes.
pub open spec fn toml_category_carries(v: TomlValue, c: CategoryModel) -> bool {
    &&& Some(c.name) == toml_str_attr(Some(v), kws::NAME@)
    &&& c.doc == toml_str_attr(Some(v), kws::DOC@)
    &&& c.doc_from_display == toml_bool_attr(Some(v), kws::DOC_FROM_DISPLAY@)
    &&& toml_attr(Some(v), kws::ERRORS@) matches Some(ev) && spec_errors_value(ev) == Some(c.errors)
}

/// A parsed category list has one category per item of the document's
/// list, in order, each carrying what its item gives (see
/// [toml_category_carries]).
pub proof fn law_toml_category_list(v: TomlValue)
    requires
        spec_categories_value(v) is Some,
    ensures
        spec_categories_value(v).unwrap().len() == toml_items(v).len(),
        forall|i: int|
            0 <= i < toml_items(v).len() ==> toml_category_carries(
                #[trigger] toml_items(v)[i],
                spec_categories_value(v).unwrap()[i],
            ),
{
    let a = toml_items(v);
    let cs = spec_categories_value(v).unwrap();
    assert forall|i: int| 0 <= i < a.len() implies toml_category_carries(#[trigger] a[i], cs[i]) by {
        assert(spec_category_item(a[i]) is Some);
        assert(cs[i] == spec_category_item(a[i]).unwrap());
    }
}

/// A root-level category list becomes the category list of the first
/// module of the parsed specification.
pub proof fn law_toml_root_categories(t: Seq<(String, TomlValue)>)
    requires
        spec_toml_table(t) is Some,
        tget(t, kws::CATEGORIES@) is Some,
    ensures
        Some(spec_toml_table(t).unwrap().modules[0].categories) == spec_categories_value(
            tget(t, kws::CATEGORIES@).unwrap(),
        ),
{
    lemma_toml_root_exclusive(t);
    let keys = table_keys(t);
    let pairs = spec_mutually_exclusive_root_kws();
    lemma_tget_has_key(t, kws::ERRORS@);
    lemma_tget_has_key(t, kws::CATEGORIES@);
    assert(!(has_key(keys, pairs[1].0) && has_key(keys, pairs[1].1)));
    let modules = match tget(t, kws::MODULES@) {
        Some(x) => spec_modules_value(x),
        None => None,
    };
    let module = match tget(t, kws::MODULE@) {
        Some(x) => spec_module_value(x, ParseMode::Single),
        None => None,
    };
    let category = match tget(t, kws::CATEGORY@) {
        Some(x) => spec_category_value(x),
        None => None,
    };
    let categories = match tget(t, kws::CATEGORIES@) {
        Some(x) => spec_categories_value(x),
        None => None,
    };
    let ms = spec_assemble(modules, module, category, categories, None);
    assert(spec_toml_table(t).unwrap().modules == ms);
}


/// A root-level error list becomes the error list of the first category of
/// the first module of the parsed specification; with no root-level module
/// or category, that is the implicit category of the implicit module.
pub proof fn law_toml_root_errors(t: Seq<(String, TomlValue)>)
    requires
        spec_toml_table(t) is Some,
        tget(t, kws::ERRORS@) is Some,
    ensures
        spec_toml_table(t).unwrap().modules[0].categories.len() > 0,
        Some(spec_toml_table(t).unwrap().modules[0].categories[0].errors) == spec_errors_value(
            tget(t, kws::ERRORS@).unwrap(),
        ),
        tget(t, kws::MODULE@) is None && tget(t, kws::CATEGORY@) is None ==> spec_toml_table(
            t,
        ).unwrap().modules[0].categories[0].name == IMPLICIT_CATEGORY_NAME@,
{
    let keys = table_keys(t);
    let pairs = spec_mutually_exclusive_root_kws();
    lemma_tget_has_key(t, kws::ERRORS@);
    lemma_tget_has_key(t, kws::CATEGORIES@);
    lemma_tget_has_key(t, kws::MODULES@);
    assert(!(has_key(keys, pairs[1].0) && has_key(keys, pairs[1].1)));
    assert(!(has_key(keys, pairs[2].0) && has_key(keys, pairs[2].1)));
    let modules = match tget(t, kws::MODULES@) {
        Some(x) => spec_modules_value(x),
        None => None,
    };
    let module = match tget(t, kws::MODULE@) {
        Some(x) => spec_module_value(x, ParseMode::Single),
        None => None,
    };
    let category = match tget(t, kws::CATEGORY@) {
        Some(x) => spec_category_value(x),
        None => None,
    };
    let errors = match tget(t, kws::ERRORS@) {
        Some(x) => spec_errors_value(x),
        None => None,
    };
    assert(modules is None);
    let ms = spec_assemble(modules, module, category, None, errors);
    assert(spec_toml_table(t).unwrap().modules == ms);
}

} // verus!
