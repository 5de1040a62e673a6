//! The YAML specification parser.

use crate::common::casing::Case;
use crate::common::text::opt_view;
use crate::errors::kinds::general::{BAD_SPEC, BAD_YAML};
use crate::errors::{fails_with, TbError};
use crate::parser::helpers::{
    check_category_name, check_category_name_uniqueness, check_error_name,
    check_error_name_uniqueness, check_module_ident,
    check_module_name, check_module_name_uniqueness, spec_module_ident_ok, spec_module_name_ok,
    spec_name_ok,
};
use crate::parser::document::{
    assemble, has_key, lemma_assemble_well_formed, category_name_list, check_flat_kinds, check_root_keys, error_name_list,
    module_name_list, spec_all_flat_kinds_ok, spec_assemble, spec_flat_kinds_ok, spec_root_keys_ok,
    with_categories, with_category,
};
use crate::parser::ParseMode;
use crate::parser::kws::{
    self, kw_in, spec_is_any_kw, spec_is_required_root_kw, spec_kw_in,
    spec_mutually_exclusive_root_kws, KwSet,
};
use crate::parser::yaml_value::{is_key, mapping_get, yaml_document, yaml_from_str, yget, YamlValue};
use crate::spec::category::{categories_view, category_names};
use crate::spec::error::{error_names, errors_view};
use crate::spec::category::spec_implicit_category;
use crate::spec::module::{module_names, spec_implicit_module};
use crate::spec::{categories_ok, errors_ok, module_flat_kinds_ok, modules_ok, modules_view};
use crate::spec::{
    CategoryModel, CategorySpec, ErrorModel, ErrorSpec, MainModel, MainSpec, ModuleModel,
    ModuleSpec, OverridableErrorSpec, Spec, SpecModel, IMPLICIT_CATEGORY_NAME,
};
use crate::util::{strs_view, unique_ignoring_case};
use vstd::prelude::*;

verus! {

broadcast use vstd::seq_lib::group_seq_properties;

// ----------------------------------------------------------------------------
// What a YAML specification file means.

/// Key `k` is a string that names an attribute of the objects of `set`.
pub open spec fn key_in(k: YamlValue, set: KwSet) -> bool {
    k matches YamlValue::String(s) && spec_kw_in(set, s@)
}

/// Every key of mapping `t` is an attribute of the objects of `set`.
pub open spec fn keys_within(t: Seq<(YamlValue, YamlValue)>, set: KwSet) -> bool {
    forall|i: int| 0 <= i < t.len() ==> #[trigger] key_in(t[i].0, set)
}

/// An optional attribute that must be a string when present.
pub open spec fn str_ok(v: Option<YamlValue>) -> bool {
    match v {
        None => true,
        Some(YamlValue::String(_)) => true,
        Some(_) => false,
    }
}

/// The string of an optional string attribute.
pub open spec fn str_of(v: Option<YamlValue>) -> Option<Seq<char>> {
    match v {
        Some(YamlValue::String(s)) => Some(s@),
        _ => None,
    }
}

/// An optional attribute that must be a boolean when present.
pub open spec fn bool_ok(v: Option<YamlValue>) -> bool {
    match v {
        None => true,
        Some(YamlValue::Bool(_)) => true,
        Some(_) => false,
    }
}

/// The value of an optional boolean attribute.
pub open spec fn bool_of(v: Option<YamlValue>) -> Option<bool> {
    match v {
        Some(YamlValue::Bool(b)) => Some(b),
        _ => None,
    }
}

/// A string, or the empty string when absent.
pub open spec fn or_empty(o: Option<Seq<char>>) -> Seq<char> {
    match o {
        Some(s) => s,
        None => Seq::empty(),
    }
}

/// Mapping `t` is in the short notation of an error object: a single entry
/// from the error name, which is no keyword, to its display string.
pub open spec fn is_short_mapping(t: Seq<(YamlValue, YamlValue)>) -> bool {
    &&& t.len() == 1
    &&& t[0].0 matches YamlValue::String(k) && !spec_is_any_kw(k@)
}

/// The error object that mapping `t` describes in the short notation.
pub open spec fn spec_error_short_mapping(t: Seq<(YamlValue, YamlValue)>) -> Option<ErrorModel> {
    match (t[0].0, t[0].1) {
        (YamlValue::String(k), YamlValue::String(d)) => if spec_name_ok(k@, Case::UpperCamel) {
            Some(ErrorModel { name: k@, display: Some(d@), doc: None, doc_from_display: None })
        } else {
            None
        },
        _ => None,
    }
}

/// The error object that mapping `t` describes: nothing when it is empty,
/// else in the short notation where that applies, else attribute by
/// attribute.
pub open spec fn spec_error_mapping(t: Seq<(YamlValue, YamlValue)>) -> Option<ErrorModel> {
    if t.len() == 0 {
        None
    } else if is_short_mapping(t) {
        spec_error_short_mapping(t)
    } else {
        spec_error_long_mapping(t)
    }
}

/// The error object that mapping `t` describes attribute by attribute.
pub open spec fn spec_error_long_mapping(t: Seq<(YamlValue, YamlValue)>) -> Option<ErrorModel> {
    let name = or_empty(str_of(yget(t, kws::NAME@)));
    if keys_within(t, KwSet::Error) && str_ok(yget(t, kws::NAME@)) && str_ok(
        yget(t, kws::DISPLAY@),
    ) && str_ok(yget(t, kws::DOC@)) && bool_ok(yget(t, kws::DOC_FROM_DISPLAY@)) && spec_name_ok(
        name,
        Case::UpperCamel,
    ) {
        Some(
            ErrorModel {
                name,
                display: str_of(yget(t, kws::DISPLAY@)),
                doc: str_of(yget(t, kws::DOC@)),
                doc_from_display: bool_of(yget(t, kws::DOC_FROM_DISPLAY@)),
            },
        )
    } else {
        None
    }
}

/// The error object that an item of an error list describes: a bare name
/// or a mapping.
pub open spec fn spec_error_item(v: YamlValue) -> Option<ErrorModel> {
    match v {
        YamlValue::String(s) => if spec_name_ok(s@, Case::UpperCamel) {
            Some(ErrorModel { name: s@, display: None, doc: None, doc_from_display: None })
        } else {
            None
        },
        YamlValue::Mapping(t) => spec_error_mapping(t@),
        _ => None,
    }
}

/// The error list that sequence `a` describes: non-empty, of valid error
/// objects with names unique ignoring case.
pub open spec fn spec_errors_sequence(a: Seq<YamlValue>) -> Option<Seq<ErrorModel>> {
    let errs = Seq::new(a.len(), |i: int| spec_error_item(a[i]).unwrap());
    if a.len() > 0 && (forall|i: int| 0 <= i < a.len() ==> #[trigger] spec_error_item(a[i]) is Some)
        && unique_ignoring_case(error_names(errs)) {
        Some(errs)
    } else {
        None
    }
}

/// The error list that value `v` describes.
pub open spec fn spec_errors_value(v: YamlValue) -> Option<Seq<ErrorModel>> {
    match v {
        YamlValue::Sequence(a) => spec_errors_sequence(a@),
        _ => None,
    }
}

// ----------------------------------------------------------------------------
// Attribute access.

fn bad_spec<T>() -> (res: Result<T, TbError>)
    ensures
        fails_with(res, BAD_SPEC),
{
    Err(TbError::new(BAD_SPEC))
}

fn get_str(t: &Vec<(YamlValue, YamlValue)>, k: &str) -> (res: Result<Option<String>, TbError>)
    ensures
        res is Ok <==> str_ok(yget(t@, k@)),
        res matches Ok(o) ==> opt_view(o) == str_of(yget(t@, k@)),
        res is Err ==> fails_with(res, BAD_SPEC),
{
    match mapping_get(t, k) {
        None => Ok(None),
        Some(YamlValue::String(s)) => Ok(Some(s.clone())),
        Some(_) => bad_spec(),
    }
}

fn get_bool(t: &Vec<(YamlValue, YamlValue)>, k: &str) -> (res: Result<Option<bool>, TbError>)
    ensures
        res is Ok <==> bool_ok(yget(t@, k@)),
        res matches Ok(o) ==> o == bool_of(yget(t@, k@)),
        res is Err ==> fails_with(res, BAD_SPEC),
{
    match mapping_get(t, k) {
        None => Ok(None),
        Some(YamlValue::Bool(b)) => Ok(Some(*b)),
        Some(_) => bad_spec(),
    }
}

fn check_keys(t: &Vec<(YamlValue, YamlValue)>, set: KwSet) -> (res: bool)
    ensures
        res == keys_within(t@, set),
{
    let mut i: usize = 0;
    while i < t.len()
        invariant
            i <= t@.len(),
            forall|j: int| 0 <= j < i ==> #[trigger] key_in(t@[j].0, set),
        decreases t@.len() - i,
    {
        let ok = match &t[i].0 {
            YamlValue::String(s) => kw_in(set, s.as_str()),
            _ => false,
        };
        if !ok {
            assert(!key_in(t@[i as int].0, set));
            return false;
        }
        i += 1;
    }
    true
}

/// The result of a parse: `Ok` with the model's value when the model is
/// `Some`, `BAD_SPEC` when it is `None`.
pub open spec fn parsed_error(res: Result<ErrorSpec, TbError>, m: Option<ErrorModel>) -> bool {
    match m {
        Some(v) => res matches Ok(e) && e@ == v,
        None => fails_with(res, BAD_SPEC),
    }
}

/// A list parse: `Ok` with the model's value when the model is `Some`,
/// `BAD_SPEC` when it is `None`.
pub open spec fn parsed_errors(res: Result<Vec<ErrorSpec>, TbError>, m: Option<Seq<ErrorModel>>) -> bool {
    match m {
        Some(v) => res matches Ok(e) && errors_view(e@) == v,
        None => fails_with(res, BAD_SPEC),
    }
}

// ----------------------------------------------------------------------------
// Error objects.

/// Parses the error objects of a specification.
pub struct ErrorParser;

impl ErrorParser {
    fn string(s: &String) -> (res: Result<ErrorSpec, TbError>)
        ensures
            parsed_error(res, spec_error_item(YamlValue::String(*s))),
    {
        let r = check_error_name(s.as_str());
        if r.is_err() {
            return bad_spec();
        }
        Ok(ErrorSpec::with_name(s.clone()))
    }

    fn mapping(t: &Vec<(YamlValue, YamlValue)>) -> (res: Result<ErrorSpec, TbError>)
        ensures
            parsed_error(res, spec_error_mapping(t@)),
    {
        if t.len() == 0 {
            return bad_spec();
        }
        if Self::is_short_mapping(t) {
            Self::short_mapping(t)
        } else {
            Self::long_mapping(t)
        }
    }

    fn is_short_mapping(t: &Vec<(YamlValue, YamlValue)>) -> (res: bool)
        ensures
            res == is_short_mapping(t@),
    {
        if t.len() != 1 {
            return false;
        }
        match &t[0].0 {
            YamlValue::String(k) => !kws::is_any_kw(k.as_str()),
            _ => false,
        }
    }

    fn short_mapping(t: &Vec<(YamlValue, YamlValue)>) -> (res: Result<ErrorSpec, TbError>)
        requires
            t@.len() == 1,
        ensures
            parsed_error(res, spec_error_short_mapping(t@)),
    {
        let name = match &t[0].0 {
            YamlValue::String(k) => k,
            _ => return bad_spec(),
        };
        if check_error_name(name.as_str()).is_err() {
            return bad_spec();
        }
        let display = match &t[0].1 {
            YamlValue::String(d) => d,
            _ => return bad_spec(),
        };
        Ok(
            ErrorSpec {
                name: name.clone(),
                display: Some(display.clone()),
                doc: None,
                oes: OverridableErrorSpec { doc_from_display: None },
            },
        )
    }

    fn long_mapping(t: &Vec<(YamlValue, YamlValue)>) -> (res: Result<ErrorSpec, TbError>)
        ensures
            parsed_error(res, spec_error_long_mapping(t@)),
    {
        let name = match get_str(t, kws::NAME) {
            Ok(n) => n,
            Err(e) => return Err(e),
        };
        let display = match get_str(t, kws::DISPLAY) {
            Ok(n) => n,
            Err(e) => return Err(e),
        };
        let doc = match get_str(t, kws::DOC) {
            Ok(n) => n,
            Err(e) => return Err(e),
        };
        let doc_from_display = match get_bool(t, kws::DOC_FROM_DISPLAY) {
            Ok(n) => n,
            Err(e) => return Err(e),
        };
        if !check_keys(t, KwSet::Error) {
            return bad_spec();
        }
        let name = match name {
            Some(n) => n,
            None => String::new(),
        };
        if check_error_name(name.as_str()).is_err() {
            return bad_spec();
        }
        Ok(
            ErrorSpec {
                name,
                display,
                doc,
                oes: OverridableErrorSpec { doc_from_display },
            },
        )
    }
}

/// Parses the error lists of a specification.
pub struct ErrorsParser;

impl ErrorsParser {
    fn value(v: &YamlValue) -> (res: Result<Vec<ErrorSpec>, TbError>)
        ensures
            parsed_errors(res, spec_errors_value(*v)),
    {
        match v {
            YamlValue::Sequence(a) => Self::sequence(a),
            _ => bad_spec(),
        }
    }

    fn sequence(a: &Vec<YamlValue>) -> (res: Result<Vec<ErrorSpec>, TbError>)
        ensures
            parsed_errors(res, spec_errors_sequence(a@)),
    {
        let ghost errs = Seq::new(a@.len(), |i: int| spec_error_item(a@[i]).unwrap());
        let mut errors: Vec<ErrorSpec> = Vec::new();
        let mut i: usize = 0;
        while i < a.len()
            invariant
                i <= a@.len(),
                errs == Seq::new(a@.len(), |i: int| spec_error_item(a@[i]).unwrap()),
                forall|j: int| 0 <= j < i ==> #[trigger] spec_error_item(a@[j]) is Some,
                errors@.len() == i,
                forall|k: int| 0 <= k < i ==> #[trigger] errors@[k]@ == errs[k],
            decreases a@.len() - i,
        {
            let r = match &a[i] {
                YamlValue::String(s) => ErrorParser::string(s),
                YamlValue::Mapping(t) => ErrorParser::mapping(t),
                _ => bad_spec(),
            };
            let e = match r {
                Ok(e) => e,
                Err(e) => {
                    return Err(e);
                },
            };
            errors.push(e);
            i += 1;
        }
        proof {
            assert(errors_view(errors@) =~= errs);
        }
        if errors.len() == 0 {
            return bad_spec();
        }
        let names = error_name_list(&errors);
        if check_error_name_uniqueness(&names).is_err() {
            return bad_spec();
        }
        Ok(errors)
    }
}

// ----------------------------------------------------------------------------
// Category objects.

/// The category object that mapping `t` describes, as the root-level
/// `category` attribute (in [ParseMode::Single]) or as an item of a category list.
///
/// A root-level category takes no error list and is named
/// [IMPLICIT_CATEGORY_NAME] when it has no name; a listed one needs both.
pub open spec fn spec_category_mapping(t: Seq<(YamlValue, YamlValue)>, mode: ParseMode) -> Option<
    CategoryModel,
> {
    let list = mode == ParseMode::List;
    let name = str_of(yget(t, kws::NAME@));
    let errs_v = yget(t, kws::ERRORS@);
    let errors = match errs_v {
        Some(v) => spec_errors_value(v),
        None => Some(Seq::empty()),
    };
    if keys_within(t, KwSet::Category) && str_ok(yget(t, kws::NAME@)) && (name matches Some(n)
        ==> spec_name_ok(n, Case::UpperCamel)) && str_ok(yget(t, kws::DOC@)) && bool_ok(
        yget(t, kws::DOC_FROM_DISPLAY@),
    ) && (errs_v is Some ==> list) && errors is Some && (list ==> name is Some && errs_v is Some) {
        Some(
            CategoryModel {
                name: match name {
                    Some(n) => n,
                    None => IMPLICIT_CATEGORY_NAME@,
                },
                doc: str_of(yget(t, kws::DOC@)),
                doc_from_display: bool_of(yget(t, kws::DOC_FROM_DISPLAY@)),
                errors: errors.unwrap(),
            },
        )
    } else {
        None
    }
}

/// The root-level category that value `v` describes.
pub open spec fn spec_category_value(v: YamlValue) -> Option<CategoryModel> {
    match v {
        YamlValue::Mapping(t) => spec_category_mapping(t@, ParseMode::Single),
        _ => None,
    }
}

/// The category that an item of a category list describes.
pub open spec fn spec_category_item(v: YamlValue) -> Option<CategoryModel> {
    match v {
        YamlValue::Mapping(t) => spec_category_mapping(t@, ParseMode::List),
        _ => None,
    }
}

/// The category list that sequence `a` describes: non-empty, of valid category
/// objects with names unique ignoring case.
pub open spec fn spec_categories_sequence(a: Seq<YamlValue>) -> Option<Seq<CategoryModel>> {
    let cats = Seq::new(a.len(), |i: int| spec_category_item(a[i]).unwrap());
    if a.len() > 0 && (forall|i: int| 0 <= i < a.len() ==> #[trigger] spec_category_item(a[i]) is Some)
        && unique_ignoring_case(category_names(cats)) {
        Some(cats)
    } else {
        None
    }
}

/// The category list that value `v` describes.
pub open spec fn spec_categories_value(v: YamlValue) -> Option<Seq<CategoryModel>> {
    match v {
        YamlValue::Sequence(a) => spec_categories_sequence(a@),
        _ => None,
    }
}

/// A parse that follows a model: `Ok` with the model's value when the model
/// is `Some`, `BAD_SPEC` when it is `None`.
pub open spec fn parsed_category(res: Result<CategorySpec, TbError>, m: Option<CategoryModel>) -> bool {
    match m {
        Some(v) => res matches Ok(c) && c@ == v,
        None => fails_with(res, BAD_SPEC),
    }
}

/// A list parse that follows a model.
pub open spec fn parsed_categories(
    res: Result<Vec<CategorySpec>, TbError>,
    m: Option<Seq<CategoryModel>>,
) -> bool {
    match m {
        Some(v) => res matches Ok(c) && categories_view(c@) == v,
        None => fails_with(res, BAD_SPEC),
    }
}

/// Parses the category objects of a specification.
pub struct CategoryParser;

impl CategoryParser {
    fn value(v: &YamlValue) -> (res: Result<CategorySpec, TbError>)
        ensures
            parsed_category(res, spec_category_value(*v)),
    {
        match v {
            YamlValue::Mapping(t) => Self::mapping(t, ParseMode::Single),
            _ => bad_spec(),
        }
    }

    fn mapping(t: &Vec<(YamlValue, YamlValue)>, mode: ParseMode) -> (res: Result<CategorySpec, TbError>)
        ensures
            parsed_category(res, spec_category_mapping(t@, mode)),
    {
        let list = mode == ParseMode::List;
        let name = match get_str(t, kws::NAME) {
            Ok(n) => n,
            Err(e) => return Err(e),
        };
        if let Some(n) = &name {
            if check_category_name(n.as_str()).is_err() {
                return bad_spec();
            }
        }
        let doc = match get_str(t, kws::DOC) {
            Ok(n) => n,
            Err(e) => return Err(e),
        };
        let doc_from_display = match get_bool(t, kws::DOC_FROM_DISPLAY) {
            Ok(n) => n,
            Err(e) => return Err(e),
        };
        let errors = match mapping_get(t, kws::ERRORS) {
            Some(v) => {
                if !list {
                    return bad_spec();
                }
                match ErrorsParser::value(v) {
                    Ok(es) => Some(es),
                    Err(e) => return Err(e),
                }
            },
            None => None,
        };
        if !check_keys(t, KwSet::Category) {
            return bad_spec();
        }
        let name = match name {
            Some(n) => n,
            None => {
                if list {
                    return bad_spec();
                }
                IMPLICIT_CATEGORY_NAME.to_owned()
            },
        };
        let errors = match errors {
            Some(es) => es,
            None => {
                if list {
                    return bad_spec();
                }
                let es: Vec<ErrorSpec> = Vec::new();
                proof {
                    assert(errors_view(es@) =~= Seq::<ErrorModel>::empty());
                }
                es
            },
        };
        Ok(CategorySpec { name, oes: OverridableErrorSpec { doc_from_display }, doc, errors })
    }
}

/// Parses the category lists of a specification.
pub struct CategoriesParser;

impl CategoriesParser {
    fn value(v: &YamlValue) -> (res: Result<Vec<CategorySpec>, TbError>)
        ensures
            parsed_categories(res, spec_categories_value(*v)),
    {
        match v {
            YamlValue::Sequence(a) => Self::sequence(a),
            _ => bad_spec(),
        }
    }

    fn sequence(a: &Vec<YamlValue>) -> (res: Result<Vec<CategorySpec>, TbError>)
        ensures
            parsed_categories(res, spec_categories_sequence(a@)),
    {
        let ghost cats = Seq::new(a@.len(), |i: int| spec_category_item(a@[i]).unwrap());
        let mut categories: Vec<CategorySpec> = Vec::new();
        let mut i: usize = 0;
        while i < a.len()
            invariant
                i <= a@.len(),
                cats == Seq::new(a@.len(), |i: int| spec_category_item(a@[i]).unwrap()),
                forall|j: int| 0 <= j < i ==> #[trigger] spec_category_item(a@[j]) is Some,
                categories@.len() == i,
                forall|k: int| 0 <= k < i ==> #[trigger] categories@[k]@ == cats[k],
            decreases a@.len() - i,
        {
            let r = match &a[i] {
                YamlValue::Mapping(t) => CategoryParser::mapping(t, ParseMode::List),
                _ => bad_spec(),
            };
            let c = match r {
                Ok(c) => c,
                Err(e) => {
                    assert(spec_category_item(a@[i as int]) is None);
                    return Err(e);
                },
            };
            categories.push(c);
            i += 1;
        }
        proof {
            assert(categories_view(categories@) =~= cats);
        }
        if categories.len() == 0 {
            return bad_spec();
        }
        let names = category_name_list(&categories);
        if check_category_name_uniqueness(&names).is_err() {
            return bad_spec();
        }
        Ok(categories)
    }
}

// ----------------------------------------------------------------------------
// The main object.

/// The main object of a specification that has none.
pub open spec fn spec_default_main() -> MainModel {
    MainModel { output: None, no_std: None, separate_files: None }
}

/// The main object that mapping `t` describes.
pub open spec fn spec_main_mapping(t: Seq<(YamlValue, YamlValue)>) -> Option<MainModel> {
    if keys_within(t, KwSet::Main) && str_ok(yget(t, kws::OUTPUT@)) && bool_ok(
        yget(t, kws::NO_STD@),
    ) {
        Some(
            MainModel {
                output: str_of(yget(t, kws::OUTPUT@)),
                no_std: bool_of(yget(t, kws::NO_STD@)),
                separate_files: None,
            },
        )
    } else {
        None
    }
}

/// The main object that value `v` describes.
pub open spec fn spec_main_value(v: YamlValue) -> Option<MainModel> {
    match v {
        YamlValue::Mapping(t) => spec_main_mapping(t@),
        _ => None,
    }
}

/// A parse that follows a model.
pub open spec fn parsed_main(res: Result<MainSpec, TbError>, m: Option<MainModel>) -> bool {
    match m {
        Some(v) => res matches Ok(x) && x@ == v,
        None => fails_with(res, BAD_SPEC),
    }
}

/// Parses the main object of a specification.
pub struct MainParser;

impl MainParser {
    fn value(v: &YamlValue) -> (res: Result<MainSpec, TbError>)
        ensures
            parsed_main(res, spec_main_value(*v)),
    {
        match v {
            YamlValue::Mapping(t) => Self::mapping(t),
            _ => bad_spec(),
        }
    }

    fn mapping(t: &Vec<(YamlValue, YamlValue)>) -> (res: Result<MainSpec, TbError>)
        ensures
            parsed_main(res, spec_main_mapping(t@)),
    {
        let output = match get_str(t, kws::OUTPUT) {
            Ok(n) => n,
            Err(e) => return Err(e),
        };
        let no_std = match get_bool(t, kws::NO_STD) {
            Ok(n) => n,
            Err(e) => return Err(e),
        };
        if !check_keys(t, KwSet::Main) {
            return bad_spec();
        }
        Ok(MainSpec { output, no_std, separate_files: None })
    }
}

// ----------------------------------------------------------------------------
// Module objects.

/// An optional struct name given under keyword `kw`: absent, or a string
/// that may name that struct.
pub open spec fn ident_ok(v: Option<YamlValue>, kw: Seq<char>) -> bool {
    str_ok(v) && (str_of(v) matches Some(s) ==> spec_module_ident_ok(s, kw))
}

/// The attributes of mapping `t` other than the name and the category list
/// have the types that a module object asks for.
pub open spec fn module_attrs_ok(t: Seq<(YamlValue, YamlValue)>) -> bool {
    &&& bool_ok(yget(t, kws::DOC_FROM_DISPLAY@))
    &&& str_ok(yget(t, kws::ERR_CAT_DOC@))
    &&& str_ok(yget(t, kws::ERR_KIND_DOC@))
    &&& str_ok(yget(t, kws::ERR_DOC@))
    &&& str_ok(yget(t, kws::DOC@))
    &&& bool_ok(yget(t, kws::RESULT_FROM_ERR@))
    &&& bool_ok(yget(t, kws::RESULT_FROM_ERR_KIND@))
    &&& bool_ok(yget(t, kws::ERROR_TRAIT@))
    &&& ident_ok(yget(t, kws::ERR_NAME@), kws::ERR_NAME@)
    &&& ident_ok(yget(t, kws::ERR_KIND_NAME@), kws::ERR_KIND_NAME@)
    &&& ident_ok(yget(t, kws::ERR_CAT_NAME@), kws::ERR_CAT_NAME@)
    &&& bool_ok(yget(t, kws::FLAT_KINDS@))
}

/// The module object that mapping `t` describes, as the root-level `module`
/// attribute (in [ParseMode::Single]) or as an item of a module list.
///
/// A root-level module takes no category list; a listed one needs a name
/// and a category list.
pub open spec fn spec_module_mapping(t: Seq<(YamlValue, YamlValue)>, mode: ParseMode) -> Option<ModuleModel> {
    let list = mode == ParseMode::List;
    let name = str_of(yget(t, kws::NAME@));
    let cats_v = yget(t, kws::CATEGORIES@);
    let cats = match cats_v {
        Some(v) => spec_categories_value(v),
        None => Some(Seq::empty()),
    };
    if keys_within(t, KwSet::Module) && str_ok(yget(t, kws::NAME@)) && (cats_v is Some ==> list)
        && cats is Some && module_attrs_ok(t) && (name matches Some(n) ==> spec_module_name_ok(n))
        && (list ==> name is Some && cats_v is Some) {
        Some(
            ModuleModel {
                name,
                doc: str_of(yget(t, kws::DOC@)),
                err_doc: str_of(yget(t, kws::ERR_DOC@)),
                err_kind_doc: str_of(yget(t, kws::ERR_KIND_DOC@)),
                err_cat_doc: str_of(yget(t, kws::ERR_CAT_DOC@)),
                result_from_err: bool_of(yget(t, kws::RESULT_FROM_ERR@)),
                result_from_err_kind: bool_of(yget(t, kws::RESULT_FROM_ERR_KIND@)),
                error_trait: bool_of(yget(t, kws::ERROR_TRAIT@)),
                err_name: str_of(yget(t, kws::ERR_NAME@)),
                err_kind_name: str_of(yget(t, kws::ERR_KIND_NAME@)),
                err_cat_name: str_of(yget(t, kws::ERR_CAT_NAME@)),
                doc_from_display: bool_of(yget(t, kws::DOC_FROM_DISPLAY@)),
                flat_kinds: bool_of(yget(t, kws::FLAT_KINDS@)),
                categories: cats.unwrap(),
            },
        )
    } else {
        None
    }
}

/// The module object that value `v` describes.
pub open spec fn spec_module_value(v: YamlValue, mode: ParseMode) -> Option<ModuleModel> {
    match v {
        YamlValue::Mapping(t) => spec_module_mapping(t@, mode),
        _ => None,
    }
}

/// The module list that sequence `a` describes: non-empty, of valid module
/// objects with names unique ignoring case.
pub open spec fn spec_modules_sequence(a: Seq<YamlValue>) -> Option<Seq<ModuleModel>> {
    let ms = Seq::new(a.len(), |i: int| spec_module_value(a[i], ParseMode::List).unwrap());
    if a.len() > 0 && (forall|i: int|
        0 <= i < a.len() ==> #[trigger] spec_module_value(a[i], ParseMode::List) is Some) && unique_ignoring_case(
        module_names(ms),
    ) {
        Some(ms)
    } else {
        None
    }
}

/// The module list that value `v` describes.
pub open spec fn spec_modules_value(v: YamlValue) -> Option<Seq<ModuleModel>> {
    match v {
        YamlValue::Sequence(a) => spec_modules_sequence(a@),
        _ => None,
    }
}

/// A parse that follows a model.
pub open spec fn parsed_module(res: Result<ModuleSpec, TbError>, m: Option<ModuleModel>) -> bool {
    match m {
        Some(v) => res matches Ok(x) && x@ == v,
        None => fails_with(res, BAD_SPEC),
    }
}

/// A list parse that follows a model.
pub open spec fn parsed_modules(res: Result<Vec<ModuleSpec>, TbError>, m: Option<Seq<ModuleModel>>) -> bool {
    match m {
        Some(v) => res matches Ok(x) && modules_view(x@) == v,
        None => fails_with(res, BAD_SPEC),
    }
}

fn get_ident(t: &Vec<(YamlValue, YamlValue)>, kw: &str) -> (res: Result<Option<String>, TbError>)
    ensures
        res is Ok <==> ident_ok(yget(t@, kw@), kw@),
        res matches Ok(o) ==> opt_view(o) == str_of(yget(t@, kw@)),
        res is Err ==> fails_with(res, BAD_SPEC),
{
    let v = match get_str(t, kw) {
        Ok(v) => v,
        Err(e) => return Err(e),
    };
    if let Some(s) = &v {
        if check_module_ident(s.as_str(), kw).is_err() {
            return bad_spec();
        }
    }
    Ok(v)
}

/// Parses the module objects of a specification.
pub struct ModuleParser;

impl ModuleParser {
    fn value(v: &YamlValue, mode: ParseMode) -> (res: Result<ModuleSpec, TbError>)
        ensures
            parsed_module(res, spec_module_value(*v, mode)),
    {
        match v {
            YamlValue::Mapping(t) => Self::mapping(t, mode),
            _ => bad_spec(),
        }
    }

    fn mapping(t: &Vec<(YamlValue, YamlValue)>, mode: ParseMode) -> (res: Result<ModuleSpec, TbError>)
        ensures
            parsed_module(res, spec_module_mapping(t@, mode)),
    {
        let list = mode == ParseMode::List;
        let name = match get_str(t, kws::NAME) {
            Ok(n) => n,
            Err(e) => return Err(e),
        };
        let categories = match mapping_get(t, kws::CATEGORIES) {
            Some(v) => {
                if !list {
                    return bad_spec();
                }
                match CategoriesParser::value(v) {
                    Ok(cs) => Some(cs),
                    Err(e) => return Err(e),
                }
            },
            None => None,
        };
        let doc_from_display = match get_bool(t, kws::DOC_FROM_DISPLAY) {
            Ok(n) => n,
            Err(e) => return Err(e),
        };
        let err_cat_doc = match get_str(t, kws::ERR_CAT_DOC) {
            Ok(n) => n,
            Err(e) => return Err(e),
        };
        let err_kind_doc = match get_str(t, kws::ERR_KIND_DOC) {
            Ok(n) => n,
            Err(e) => return Err(e),
        };
        let err_doc = match get_str(t, kws::ERR_DOC) {
            Ok(n) => n,
            Err(e) => return Err(e),
        };
        let doc = match get_str(t, kws::DOC) {
            Ok(n) => n,
            Err(e) => return Err(e),
        };
        let result_from_err = match get_bool(t, kws::RESULT_FROM_ERR) {
            Ok(n) => n,
            Err(e) => return Err(e),
        };
        let result_from_err_kind = match get_bool(t, kws::RESULT_FROM_ERR_KIND) {
            Ok(n) => n,
            Err(e) => return Err(e),
        };
        let error_trait = match get_bool(t, kws::ERROR_TRAIT) {
            Ok(n) => n,
            Err(e) => return Err(e),
        };
        let err_name = match get_ident(t, kws::ERR_NAME) {
            Ok(n) => n,
            Err(e) => return Err(e),
        };
        let err_kind_name = match get_ident(t, kws::ERR_KIND_NAME) {
            Ok(n) => n,
            Err(e) => return Err(e),
        };
        let err_cat_name = match get_ident(t, kws::ERR_CAT_NAME) {
            Ok(n) => n,
            Err(e) => return Err(e),
        };
        let flat_kinds = match get_bool(t, kws::FLAT_KINDS) {
            Ok(n) => n,
            Err(e) => return Err(e),
        };
        if !check_keys(t, KwSet::Module) {
            return bad_spec();
        }
        if let Some(n) = &name {
            if check_module_name(n.as_str()).is_err() {
                return bad_spec();
            }
        }
        if list && (name.is_none() || categories.is_none()) {
            return bad_spec();
        }
        let categories = match categories {
            Some(cs) => cs,
            None => {
                let cs: Vec<CategorySpec> = Vec::new();
                proof {
                    assert(categories_view(cs@) =~= Seq::<CategoryModel>::empty());
                }
                cs
            },
        };
        Ok(
            ModuleSpec {
                name,
                doc,
                err_doc,
                err_kind_doc,
                err_cat_doc,
                result_from_err,
                result_from_err_kind,
                error_trait,
                err_name,
                err_kind_name,
                err_cat_name,
                oes: OverridableErrorSpec { doc_from_display },
                flat_kinds,
                categories,
            },
        )
    }
}

/// Parses the module lists of a specification.
pub struct ModulesParser;

impl ModulesParser {
    fn value(v: &YamlValue) -> (res: Result<Vec<ModuleSpec>, TbError>)
        ensures
            parsed_modules(res, spec_modules_value(*v)),
    {
        match v {
            YamlValue::Sequence(a) => Self::sequence(a),
            _ => bad_spec(),
        }
    }

    fn sequence(a: &Vec<YamlValue>) -> (res: Result<Vec<ModuleSpec>, TbError>)
        ensures
            parsed_modules(res, spec_modules_sequence(a@)),
    {
        let ghost ms = Seq::new(a@.len(), |i: int| spec_module_value(a@[i], ParseMode::List).unwrap());
        let mut modules: Vec<ModuleSpec> = Vec::new();
        let mut i: usize = 0;
        while i < a.len()
            invariant
                i <= a@.len(),
                ms == Seq::new(a@.len(), |i: int| spec_module_value(a@[i], ParseMode::List).unwrap()),
                forall|j: int| 0 <= j < i ==> #[trigger] spec_module_value(a@[j], ParseMode::List) is Some,
                modules@.len() == i,
                forall|k: int| 0 <= k < i ==> #[trigger] modules@[k]@ == ms[k],
            decreases a@.len() - i,
        {
            let m = match ModuleParser::value(&a[i], ParseMode::List) {
                Ok(m) => m,
                Err(e) => {
                    assert(spec_module_value(a@[i as int], ParseMode::List) is None);
                    return Err(e);
                },
            };
            modules.push(m);
            i += 1;
        }
        proof {
            assert(modules_view(modules@) =~= ms);
        }
        if modules.len() == 0 {
            return bad_spec();
        }
        let names = module_name_list(&modules);
        if check_module_name_uniqueness(&names).is_err() {
            return bad_spec();
        }
        Ok(modules)
    }
}

// ----------------------------------------------------------------------------
// The specification file.

/// The string of a key, the empty string standing for a key of another
/// kind.
pub open spec fn key_str(k: YamlValue) -> Seq<char> {
    match k {
        YamlValue::String(s) => s@,
        _ => Seq::empty(),
    }
}

/// Every key of mapping `t` is a string.
pub open spec fn keys_are_strings(t: Seq<(YamlValue, YamlValue)>) -> bool {
    forall|i: int| 0 <= i < t.len() ==> #[trigger] t[i].0 is String
}

/// The keys of mapping `t`, in order.
pub open spec fn mapping_keys(t: Seq<(YamlValue, YamlValue)>) -> Seq<Seq<char>> {
    t.map_values(|e: (YamlValue, YamlValue)| key_str(e.0))
}

/// The specification that the root mapping `t` describes.
///
/// Each root-level attribute that is present must parse; the module list
/// is then built by [spec_assemble] and checked for flat kinds.
pub open spec fn spec_yaml_mapping(t: Seq<(YamlValue, YamlValue)>) -> Option<SpecModel> {
    let main = match yget(t, kws::MAIN@) {
        Some(v) => spec_main_value(v),
        None => Some(spec_default_main()),
    };
    let modules = match yget(t, kws::MODULES@) {
        Some(v) => spec_modules_value(v),
        None => None,
    };
    let module = match yget(t, kws::MODULE@) {
        Some(v) => spec_module_value(v, ParseMode::Single),
        None => None,
    };
    let category = match yget(t, kws::CATEGORY@) {
        Some(v) => spec_category_value(v),
        None => None,
    };
    let categories = match yget(t, kws::CATEGORIES@) {
        Some(v) => spec_categories_value(v),
        None => None,
    };
    let errors = match yget(t, kws::ERRORS@) {
        Some(v) => spec_errors_value(v),
        None => None,
    };
    let ms = spec_assemble(modules, module, category, categories, errors);
    if keys_are_strings(t) && spec_root_keys_ok(mapping_keys(t)) && main is Some && (yget(t, kws::MODULES@) is Some
        ==> modules is Some) && (yget(t, kws::MODULE@) is Some ==> module is Some) && (yget(
        t,
        kws::CATEGORY@,
    ) is Some ==> category is Some) && (yget(t, kws::CATEGORIES@) is Some ==> categories is Some)
        && (yget(t, kws::ERRORS@) is Some ==> errors is Some) && spec_all_flat_kinds_ok(ms) {
        Some(SpecModel { path: Seq::empty(), main: main.unwrap(), modules: ms })
    } else {
        None
    }
}

/// The specification that a YAML document describes: its root must be a
/// mapping.
pub open spec fn spec_yaml_value(v: YamlValue) -> Option<SpecModel> {
    match v {
        YamlValue::Mapping(t) => spec_yaml_mapping(t@),
        _ => None,
    }
}

/// A parse that follows a model: `Ok` with the model's value when the model
/// is `Some`, `BAD_SPEC` when it is `None`.
pub open spec fn parsed_spec(res: Result<Spec, TbError>, m: Option<SpecModel>) -> bool {
    match m {
        Some(v) => res matches Ok(x) && x@ == v,
        None => fails_with(res, BAD_SPEC),
    }
}

fn key_list(t: &Vec<(YamlValue, YamlValue)>) -> (res: Option<Vec<&str>>)
    ensures
        res is Some <==> keys_are_strings(t@),
        res matches Some(keys) ==> strs_view(keys@) == mapping_keys(t@),
{
    let mut keys: Vec<&str> = Vec::new();
    let mut i: usize = 0;
    while i < t.len()
        invariant
            i <= t@.len(),
            keys@.len() == i,
            forall|k: int| 0 <= k < i ==> #[trigger] t@[k].0 is String,
            forall|k: int| 0 <= k < i ==> #[trigger] keys@[k]@ == key_str(t@[k].0),
        decreases t@.len() - i,
    {
        match &t[i].0 {
            YamlValue::String(k) => keys.push(k.as_str()),
            _ => return None,
        }
        i += 1;
    }
    proof {
        assert(strs_view(keys@) =~= mapping_keys(t@));
    }
    Some(keys)
}

/// Parses YAML specification files.
pub struct YamlParser;

impl YamlParser {
    /// Parses the text of a YAML specification.
    ///
    /// Text that is not a YAML document fails with `BAD_YAML`; a document
    /// that is not a valid specification fails with `BAD_SPEC`.
    pub fn parse_str(s: &str) -> (res: Result<Spec, TbError>)
        ensures
            match yaml_document(s@) {
                None => fails_with(res, BAD_YAML),
                Some(v) => parsed_spec(res, spec_yaml_value(v)),
            },
            res matches Ok(x) ==> x@.well_formed(),
    {
        match yaml_from_str(s) {
            Some(v) => Self::value(&v),
            None => Err(TbError::new(BAD_YAML)),
        }
    }

    /// Parses the deserialized value of a YAML specification file.
    pub fn value(v: &YamlValue) -> (res: Result<Spec, TbError>)
        ensures
            parsed_spec(res, spec_yaml_value(*v)),
            res matches Ok(x) ==> x@.well_formed(),
    {
        proof {
            if spec_yaml_value(*v) is Some {
                lemma_yaml_spec_well_formed(*v);
            }
        }
        match v {
            YamlValue::Mapping(t) => Self::mapping(t),
            _ => bad_spec(),
        }
    }

    #[verifier::rlimit(30)]
    fn mapping(t: &Vec<(YamlValue, YamlValue)>) -> (res: Result<Spec, TbError>)
        ensures
            parsed_spec(res, spec_yaml_mapping(t@)),
    {
        let keys = match key_list(t) {
            Some(k) => k,
            None => return bad_spec(),
        };
        if !check_root_keys(&keys) {
            return bad_spec();
        }
        let main = match mapping_get(t, kws::MAIN) {
            Some(v) => match MainParser::value(v) {
                Ok(m) => m,
                Err(e) => return Err(e),
            },
            None => MainSpec { output: None, no_std: None, separate_files: None },
        };
        let modules = match mapping_get(t, kws::MODULES) {
            Some(v) => match ModulesParser::value(v) {
                Ok(m) => Some(m),
                Err(e) => return Err(e),
            },
            None => None,
        };
        let module = match mapping_get(t, kws::MODULE) {
            Some(v) => match ModuleParser::value(v, ParseMode::Single) {
                Ok(m) => Some(m),
                Err(e) => return Err(e),
            },
            None => None,
        };
        let category = match mapping_get(t, kws::CATEGORY) {
            Some(v) => match CategoryParser::value(v) {
                Ok(c) => Some(c),
                Err(e) => return Err(e),
            },
            None => None,
        };
        let categories = match mapping_get(t, kws::CATEGORIES) {
            Some(v) => match CategoriesParser::value(v) {
                Ok(c) => Some(c),
                Err(e) => return Err(e),
            },
            None => None,
        };
        let errors = match mapping_get(t, kws::ERRORS) {
            Some(v) => match ErrorsParser::value(v) {
                Ok(es) => Some(es),
                Err(e) => return Err(e),
            },
            None => None,
        };
        let modules = assemble(modules, module, category, categories, errors);
        if !check_flat_kinds(&modules) {
            return bad_spec();
        }
        Ok(Spec { path: String::new(), main, modules })
    }
}

// ----------------------------------------------------------------------------
// What every accepted document holds.

proof fn lemma_errors_value_ok(v: YamlValue)
    requires
        spec_errors_value(v) is Some,
    ensures
        errors_ok(spec_errors_value(v).unwrap()),
{
}

proof fn lemma_category_item_ok(v: YamlValue)
    requires
        spec_category_item(v) is Some,
    ensures
        errors_ok(spec_category_item(v).unwrap().errors),
{
    if let YamlValue::Mapping(t) = v {
        lemma_errors_value_ok(yget(t@, kws::ERRORS@).unwrap());
    }
}

proof fn lemma_categories_value_ok(v: YamlValue)
    requires
        spec_categories_value(v) is Some,
    ensures
        categories_ok(spec_categories_value(v).unwrap()),
{
    if let YamlValue::Sequence(a) = v {
        let cs = spec_categories_value(v).unwrap();
        assert forall|i: int| 0 <= i < cs.len() implies #[trigger] errors_ok(cs[i].errors) by {
            lemma_category_item_ok(a@[i]);
        }
    }
}

proof fn lemma_module_item_ok(v: YamlValue)
    requires
        spec_module_value(v, ParseMode::List) is Some,
    ensures
        categories_ok(spec_module_value(v, ParseMode::List).unwrap().categories),
{
    if let YamlValue::Mapping(t) = v {
        lemma_categories_value_ok(yget(t@, kws::CATEGORIES@).unwrap());
    }
}

proof fn lemma_modules_value_ok(v: YamlValue)
    requires
        spec_modules_value(v) is Some,
    ensures
        modules_ok(spec_modules_value(v).unwrap()),
{
    if let YamlValue::Sequence(a) = v {
        let ms = spec_modules_value(v).unwrap();
        assert forall|i: int| 0 <= i < ms.len() implies #[trigger] categories_ok(
            ms[i].categories,
        ) by {
            lemma_module_item_ok(a@[i]);
        }
    }
}

proof fn lemma_yget_has_key(t: Seq<(YamlValue, YamlValue)>, k: Seq<char>)
    requires
        keys_are_strings(t),
    ensures
        yget(t, k) is Some <==> has_key(mapping_keys(t), k),
    decreases t.len(),
{
    if t.len() > 0 {
        let keys = mapping_keys(t);
        let rest = mapping_keys(t.drop_first());
        lemma_yget_has_key(t.drop_first(), k);
        assert(rest =~= keys.drop_first());
        assert(keys_are_strings(t.drop_first()) && t[0].0 is String) by {
            assert forall|i: int| 0 <= i < t.drop_first().len() implies #[trigger] t.drop_first()[i].0 is String by {
                assert(t[i + 1].0 is String);
            }
        }
        if is_key(t[0].0, k) {
            assert(keys[0] == k);
        } else {
            if has_key(keys, k) {
                let i = choose|i: int| 0 <= i < keys.len() && keys[i] == k;
                assert(rest[i - 1] == k);
            }
            if has_key(rest, k) {
                let j = choose|j: int| 0 <= j < rest.len() && rest[j] == k;
                assert(keys[j + 1] == k);
            }
        }
    }
}

/// Every specification that a YAML document describes is well formed
/// (see [SpecModel::well_formed]): it has modules, each module categories,
/// each category errors, with names unique ignoring case in every list.
pub proof fn lemma_yaml_spec_well_formed(v: YamlValue)
    requires
        spec_yaml_value(v) is Some,
    ensures
        spec_yaml_value(v).unwrap().well_formed(),
{
    if let YamlValue::Mapping(tv) = v {
        let t = tv@;
        let keys = mapping_keys(t);
        let pairs = spec_mutually_exclusive_root_kws();
        lemma_yget_has_key(t, kws::MODULES@);
        lemma_yget_has_key(t, kws::MODULE@);
        lemma_yget_has_key(t, kws::CATEGORY@);
        lemma_yget_has_key(t, kws::CATEGORIES@);
        lemma_yget_has_key(t, kws::ERRORS@);
        assert(!(has_key(keys, pairs[0].0) && has_key(keys, pairs[0].1)));
        assert(!(has_key(keys, pairs[1].0) && has_key(keys, pairs[1].1)));
        assert(!(has_key(keys, pairs[2].0) && has_key(keys, pairs[2].1)));
        assert(!(has_key(keys, pairs[3].0) && has_key(keys, pairs[3].1)));
        assert(!(has_key(keys, pairs[4].0) && has_key(keys, pairs[4].1)));
        assert(!(has_key(keys, pairs[5].0) && has_key(keys, pairs[5].1)));
        let r = choose|i: int| 0 <= i < keys.len() && #[trigger] spec_is_required_root_kw(keys[i]);
        assert(has_key(keys, keys[r]));
        let modules = match yget(t, kws::MODULES@) {
            Some(x) => spec_modules_value(x),
            None => None,
        };
        let module = match yget(t, kws::MODULE@) {
            Some(x) => spec_module_value(x, ParseMode::Single),
            None => None,
        };
        let category = match yget(t, kws::CATEGORY@) {
            Some(x) => spec_category_value(x),
            None => None,
        };
        let categories = match yget(t, kws::CATEGORIES@) {
            Some(x) => spec_categories_value(x),
            None => None,
        };
        let errors = match yget(t, kws::ERRORS@) {
            Some(x) => spec_errors_value(x),
            None => None,
        };
        if let Some(x) = yget(t, kws::MODULES@) {
            lemma_modules_value_ok(x);
        }
        if let Some(x) = yget(t, kws::CATEGORIES@) {
            lemma_categories_value_ok(x);
        }
        if let Some(x) = yget(t, kws::ERRORS@) {
            lemma_errors_value_ok(x);
        }
        lemma_assemble_well_formed(modules, module, category, categories, errors);
        let ms = spec_assemble(modules, module, category, categories, errors);
        assert forall|i: int| 0 <= i < ms.len() implies #[trigger] module_flat_kinds_ok(ms[i]) by {
            assert(spec_flat_kinds_ok(ms[i]));
        }
    }
}

/// A specification that declares nothing but its errors gets a single
/// implicit module with a single implicit category, named
/// [IMPLICIT_CATEGORY_NAME], that holds them.
pub proof fn lemma_yaml_errors_only(t: Seq<(YamlValue, YamlValue)>)
    requires
        t.len() == 1,
        t[0].0 matches YamlValue::String(s) && s@ == kws::ERRORS@,
        spec_errors_value(t[0].1) is Some,
    ensures
        spec_yaml_mapping(t) == Some(
            SpecModel {
                path: Seq::empty(),
                main: spec_default_main(),
                modules: seq![
                    spec_implicit_module(
                        seq![spec_implicit_category(spec_errors_value(t[0].1).unwrap())],
                    ),
                ],
            },
        ),
{
    reveal_strlit("errors");
    reveal_strlit("main");
    reveal_strlit("modules");
    reveal_strlit("module");
    reveal_strlit("category");
    reveal_strlit("categories");
    assert(kws::ERRORS@.len() == 6);
    assert(kws::MAIN@.len() == 4);
    assert(kws::MODULES@.len() == 7);
    assert(kws::ERRORS@ != kws::MAIN@);
    assert(kws::ERRORS@ != kws::MODULES@);
    let keys = mapping_keys(t);
        assert(keys_are_strings(t));
    assert(keys =~= seq![kws::ERRORS@]);
    assert(yget(t.drop_first(), kws::MAIN@) is None);
    assert(yget(t.drop_first(), kws::MODULES@) is None);
    assert(yget(t.drop_first(), kws::MODULE@) is None);
    assert(yget(t.drop_first(), kws::CATEGORY@) is None);
    assert(yget(t.drop_first(), kws::CATEGORIES@) is None);
    assert(yget(t.drop_first(), kws::ERRORS@) is None);
    assert(kws::ERRORS@[0] == 'e' && kws::MODULE@[0] == 'm');
    assert(kws::ERRORS@ != kws::MODULE@);
    assert(kws::ERRORS@ != kws::CATEGORY@);
    assert(kws::ERRORS@ != kws::CATEGORIES@);
    assert(yget(t, kws::MAIN@) is None);
    assert(yget(t, kws::MODULES@) is None);
    assert(yget(t, kws::MODULE@) is None);
    assert(yget(t, kws::CATEGORY@) is None);
    assert(yget(t, kws::CATEGORIES@) is None);
    assert(yget(t, kws::ERRORS@) == Some(t[0].1));
    assert(spec_is_required_root_kw(keys[0]));
    let pairs = spec_mutually_exclusive_root_kws();
    assert forall|p: int| 0 <= p < pairs.len() implies !(has_key(keys, #[trigger] pairs[p].0)
        && has_key(keys, pairs[p].1)) by {
        if has_key(keys, pairs[p].0) && has_key(keys, pairs[p].1) {
            assert(pairs[p].0 == kws::ERRORS@ && pairs[p].1 == kws::ERRORS@);
        }
    }
    let es = spec_errors_value(t[0].1).unwrap();
    let ms = seq![spec_implicit_module(seq![spec_implicit_category(es)])];
    assert(spec_assemble(None, None, None, None, Some(es)) == ms);
    assert(spec_all_flat_kinds_ok(ms));
}


// ----------------------------------------------------------------------------
// What a parsed YAML specification keeps of its document.

/// The value under key `kw` of `v`, when `v` is a mapping.
pub open spec fn yaml_attr(v: Option<YamlValue>, kw: Seq<char>) -> Option<YamlValue> {
    match v {
        Some(YamlValue::Mapping(m)) => yget(m@, kw),
        _ => None,
    }
}

/// The boolean under key `kw` of `v`, when `v` is a mapping that holds one.
pub open spec fn yaml_bool_attr(v: Option<YamlValue>, kw: Seq<char>) -> Option<bool> {
    match yaml_attr(v, kw) {
        Some(YamlValue::Bool(b)) => Some(b),
        _ => None,
    }
}

/// The string under key `kw` of `v`, when `v` is a mapping that holds one.
pub open spec fn yaml_str_attr(v: Option<YamlValue>, kw: Seq<char>) -> Option<Seq<char>> {
    match yaml_attr(v, kw) {
        Some(YamlValue::String(s)) => Some(s@),
        _ => None,
    }
}

/// The items of the root-level module list of root mapping `t`.
pub open spec fn yaml_module_items(t: Seq<(YamlValue, YamlValue)>) -> Seq<YamlValue> {
    match yget(t, kws::MODULES@) {
        Some(YamlValue::Sequence(a)) => a@,
        _ => Seq::empty(),
    }
}

/// The root-level attributes of a document that a specification was made
/// of exclude each other as the keywords say.
proof fn lemma_yaml_root_exclusive(t: Seq<(YamlValue, YamlValue)>)
    requires
        spec_yaml_mapping(t) is Some,
    ensures
        yget(t, kws::MODULES@) is Some ==> yget(t, kws::MODULE@) is None && yget(t, kws::CATEGORY@)
            is None && yget(t, kws::CATEGORIES@) is None && yget(t, kws::ERRORS@) is None,
{
    let keys = mapping_keys(t);
    let pairs = spec_mutually_exclusive_root_kws();
    lemma_yget_has_key(t, kws::MODULES@);
    lemma_yget_has_key(t, kws::MODULE@);
    lemma_yget_has_key(t, kws::CATEGORY@);
    lemma_yget_has_key(t, kws::CATEGORIES@);
    lemma_yget_has_key(t, kws::ERRORS@);
    assert(!(has_key(keys, pairs[2].0) && has_key(keys, pairs[2].1)));
    assert(!(has_key(keys, pairs[3].0) && has_key(keys, pairs[3].1)));
    assert(!(has_key(keys, pairs[4].0) && has_key(keys, pairs[4].1)));
    assert(!(has_key(keys, pairs[5].0) && has_key(keys, pairs[5].1)));
}

/// The main object of a parsed YAML specification carries the values that
/// the document's `main` mapping gives: its `output` string and its
/// `no_std` boolean; with no `main` mapping there is no output path.
pub proof fn law_yaml_main_attributes(t: Seq<(YamlValue, YamlValue)>)
    requires
        spec_yaml_mapping(t) is Some,
    ensures
        spec_yaml_mapping(t).unwrap().main.output == yaml_str_attr(yget(t, kws::MAIN@), kws::OUTPUT@),
        spec_yaml_mapping(t).unwrap().main.no_std == yaml_bool_attr(yget(t, kws::MAIN@), kws::NO_STD@),
{
}

/// Module model `m` carries every attribute that `v` gives it: each
/// string attribute as written, each boolean attribute as written, and no
/// value for an attribute that `v` leaves out.
pub open spec fn yaml_module_carries(v: Option<YamlValue>, m: ModuleModel) -> bool {
    &&& m.name == yaml_str_attr(v, kws::NAME@)
    &&& m.doc == yaml_str_attr(v, kws::DOC@)
    &&& m.err_doc == yaml_str_attr(v, kws::ERR_DOC@)
    &&& m.err_kind_doc == yaml_str_attr(v, kws::ERR_KIND_DOC@)
    &&& m.err_cat_doc == yaml_str_attr(v, kws::ERR_CAT_DOC@)
    &&& m.result_from_err == yaml_bool_attr(v, kws::RESULT_FROM_ERR@)
    &&& m.result_from_err_kind == yaml_bool_attr(v, kws::RESULT_FROM_ERR_KIND@)
    &&& m.error_trait == yaml_bool_attr(v, kws::ERROR_TRAIT@)
    &&& m.err_name == yaml_str_attr(v, kws::ERR_NAME@)
    &&& m.err_kind_name == yaml_str_attr(v, kws::ERR_KIND_NAME@)
    &&& m.err_cat_name == yaml_str_attr(v, kws::ERR_CAT_NAME@)
    &&& m.doc_from_display == yaml_bool_attr(v, kws::DOC_FROM_DISPLAY@)
    &&& m.flat_kinds == yaml_bool_attr(v, kws::FLAT_KINDS@)
}

/// Every module of a parsed YAML specification carries the attributes
/// that its mapping in the document gives (see [yaml_module_carries]), among
/// them `flat_kinds`: the root-level `module` mapping for the first module, and
/// each item of the root-level module list for the module at its position.
pub proof fn law_yaml_module_attributes(t: Seq<(YamlValue, YamlValue)>)
    requires
        spec_yaml_mapping(t) is Some,
    ensures
        yget(t, kws::MODULE@) is Some ==> yaml_module_carries(
            yget(t, kws::MODULE@),
            spec_yaml_mapping(t).unwrap().modules[0],
        ),
        forall|i: int|
            0 <= i < yaml_module_items(t).len() ==> yaml_module_carries(
                Some(#[trigger] yaml_module_items(t)[i]),
                spec_yaml_mapping(t).unwrap().modules[i],
            ),
{
    lemma_yaml_root_exclusive(t);
    let modules = match yget(t, kws::MODULES@) {
        Some(x) => spec_modules_value(x),
        None => None,
    };
    let module = match yget(t, kws::MODULE@) {
        Some(x) => spec_module_value(x, ParseMode::Single),
        None => None,
    };
    let category = match yget(t, kws::CATEGORY@) {
        Some(x) => spec_category_value(x),
        None => None,
    };
    let categories = match yget(t, kws::CATEGORIES@) {
        Some(x) => spec_categories_value(x),
        None => None,
    };
    let errors = match yget(t, kws::ERRORS@) {
        Some(x) => spec_errors_value(x),
        None => None,
    };
    let ms = spec_assemble(modules, module, category, categories, errors);
    assert(spec_yaml_mapping(t).unwrap().modules == ms);
    if yget(t, kws::MODULE@) is Some {
        let md = module.unwrap();
        assert(modules is None);
        let m1 = seq![md];
        assert(Seq::<ModuleModel>::empty().push(md) =~= m1);
        let m2 = match category {
            Some(c) => with_category(m1, c),
            None => m1,
        };
        assert(yaml_module_carries(yget(t, kws::MODULE@), md));
        assert(yaml_module_carries(yget(t, kws::MODULE@), m2[0]));
        let m3 = match categories {
            Some(cs) => with_categories(m2, cs),
            None => m2,
        };
        assert(yaml_module_carries(yget(t, kws::MODULE@), m3[0]));
        assert(yaml_module_carries(yget(t, kws::MODULE@), ms[0]));
    }
    assert forall|i: int| 0 <= i < yaml_module_items(t).len() implies yaml_module_carries(
        Some(#[trigger] yaml_module_items(t)[i]),
        ms[i],
    ) by {
        let a = yaml_module_items(t);
        assert(spec_module_value(a[i], ParseMode::List) is Some);
        assert(ms == modules.unwrap());
        assert(ms[i] == spec_module_value(a[i], ParseMode::List).unwrap());
    }
}


/// Error model `e` carries what error item `v` of a document gives: a bare
/// string is the name and nothing else; a single entry from a name that is
/// no keyword to a string is the name and its display string; any other
/// mapping gives each attribute as written, with no value for an attribute
/// it leaves out.
pub open spec fn yaml_error_carries(v: YamlValue, e: ErrorModel) -> bool {
    match v {
        YamlValue::String(s) => e == ErrorModel {
            name: s@,
            display: None,
            doc: None,
            doc_from_display: None,
        },
        YamlValue::Mapping(m) => if is_short_mapping(m@) {
            &&& e.name == key_str(m@[0].0)
            &&& e.display == (match m@[0].1 {
                YamlValue::String(d) => Some(d@),
                _ => None,
            })
            &&& e.doc is None
            &&& e.doc_from_display is None
        } else {
            &&& Some(e.name) == yaml_str_attr(Some(v), kws::NAME@)
            &&& e.display == yaml_str_attr(Some(v), kws::DISPLAY@)
            &&& e.doc == yaml_str_attr(Some(v), kws::DOC@)
            &&& e.doc_from_display == yaml_bool_attr(Some(v), kws::DOC_FROM_DISPLAY@)
        },
        _ => false,
    }
}

/// The items of a sequence value, none for any other value.
pub open spec fn yaml_items(v: YamlValue) -> Seq<YamlValue> {
    match v {
        YamlValue::Sequence(a) => a@,
        _ => Seq::empty(),
    }
}

/// A parsed error list has one error per item of the document's sequence,
/// in order, each carrying what its item gives (see [yaml_error_carries]).
pub proof fn law_yaml_error_list(v: YamlValue)
    requires
        spec_errors_value(v) is Some,
    ensures
        spec_errors_value(v).unwrap().len() == yaml_items(v).len(),
        forall|i: int|
            0 <= i < yaml_items(v).len() ==> yaml_error_carries(
                #[trigger] yaml_items(v)[i],
                spec_errors_value(v).unwrap()[i],
            ),
{
    let a = yaml_items(v);
    let es = spec_errors_value(v).unwrap();
    assert forall|i: int| 0 <= i < a.len() implies yaml_error_carries(
        #[trigger] a[i],
        es[i],
    ) by {
        assert(spec_error_item(a[i]) is Some);
        assert(es[i] == spec_error_item(a[i]).unwrap());
        if let YamlValue::Mapping(m) = a[i] {
            if !is_short_mapping(m@) {
                assert(spec_name_ok(or_empty(str_of(yget(m@, kws::NAME@))), Case::UpperCamel));
            }
        }
    }
}


/// Category model `c` carries what item `v` of a category list gives: its
/// name, doc and `doc_from_display` as written (no value for one it leaves
/// out), and the error list that its `errors` attribute describes.
pub open spec fn yaml_category_carries(v: YamlValue, c: CategoryModel) -> bool {
    &&& Some(c.name) == yaml_str_attr(Some(v), kws::NAME@)
    &&& c.doc == yaml_str_attr(Some(v), kws::DOC@)
    &&& c.doc_from_display == yaml_bool_attr(Some(v), kws::DOC_FROM_DISPLAY@)
    &&& yaml_attr(Some(v), kws::ERRORS@) matches Some(ev) && spec_errors_value(ev) == Some(c.errors)
}

/// A parsed category list has one category per item of the document's
/// list, in order, each carrying what its item gives (see
/// [yaml_category_carries]).
pub proof fn law_yaml_category_list(v: YamlValue)
    requires
        spec_categories_value(v) is Some,
    ensures
        spec_categories_value(v).unwrap().len() == yaml_items(v).len(),
        forall|i: int|
            0 <= i < yaml_items(v).len() ==> yaml_category_carries(
                #[trigger] yaml_items(v)[i],
                spec_categories_value(v).unwrap()[i],
            ),
{
    let a = yaml_items(v);
    let cs = spec_categories_value(v).unwrap();
    assert forall|i: int| 0 <= i < a.len() implies yaml_category_carries(#[trigger] a[i], cs[i]) by {
        assert(spec_category_item(a[i]) is Some);
        assert(cs[i] == spec_category_item(a[i]).unwrap());
    }
}

/// A root-level category list becomes the category list of the first
/// module of the parsed specification.
pub proof fn law_yaml_root_categories(t: Seq<(YamlValue, YamlValue)>)
    requires
        spec_yaml_mapping(t) is Some,
        yget(t, kws::CATEGORIES@) is Some,
    ensures
        Some(spec_yaml_mapping(t).unwrap().modules[0].categories) == spec_categories_value(
            yget(t, kws::CATEGORIES@).unwrap(),
        ),
{
    lemma_yaml_root_exclusive(t);
    let keys = mapping_keys(t);
    let pairs = spec_mutually_exclusive_root_kws();
    lemma_yget_has_key(t, kws::ERRORS@);
    lemma_yget_has_key(t, kws::CATEGORIES@);
    assert(!(has_key(keys, pairs[1].0) && has_key(keys, pairs[1].1)));
    let modules = match yget(t, kws::MODULES@) {
        Some(x) => spec_modules_value(x),
        None => None,
    };
    let module = match yget(t, kws::MODULE@) {
        Some(x) => spec_module_value(x, ParseMode::Single),
        None => None,
    };
    let category = match yget(t, kws::CATEGORY@) {
        Some(x) => spec_category_value(x),
        None => None,
    };
    let categories = match yget(t, kws::CATEGORIES@) {
        Some(x) => spec_categories_value(x),
        None => None,
    };
    let ms = spec_assemble(modules, module, category, categories, None);
    assert(spec_yaml_mapping(t).unwrap().modules == ms);
}


/// A root-level error list becomes the error list of the first category of
/// the first module of the parsed specification; with no root-level module
/// or category, that is the implicit category of the implicit module.
pub proof fn law_yaml_root_errors(t: Seq<(YamlValue, YamlValue)>)
    requires
        spec_yaml_mapping(t) is Some,
        yget(t, kws::ERRORS@) is Some,
    ensures
        spec_yaml_mapping(t).unwrap().modules[0].categories.len() > 0,
        Some(spec_yaml_mapping(t).unwrap().modules[0].categories[0].errors) == spec_errors_value(
            yget(t, kws::ERRORS@).unwrap(),
        ),
        yget(t, kws::MODULE@) is None && yget(t, kws::CATEGORY@) is None ==> spec_yaml_mapping(
            t,
        ).unwrap().modules[0].categories[0].name == IMPLICIT_CATEGORY_NAME@,
{
    let keys = mapping_keys(t);
    let pairs = spec_mutually_exclusive_root_kws();
    lemma_yget_has_key(t, kws::ERRORS@);
    lemma_yget_has_key(t, kws::CATEGORIES@);
    lemma_yget_has_key(t, kws::MODULES@);
    assert(!(has_key(keys, pairs[1].0) && has_key(keys, pairs[1].1)));
    assert(!(has_key(keys, pairs[2].0) && has_key(keys, pairs[2].1)));
    let modules = match yget(t, kws::MODULES@) {
        Some(x) => spec_modules_value(x),
        None => None,
    };
    let module = match yget(t, kws::MODULE@) {
        Some(x) => spec_module_value(x, ParseMode::Single),
        None => None,
    };
    let category = match yget(t, kws::CATEGORY@) {
        Some(x) => spec_category_value(x),
        None => None,
    };
    let errors = match yget(t, kws::ERRORS@) {
        Some(x) => spec_errors_value(x),
        None => None,
    };
    assert(modules is None);
    let ms = spec_assemble(modules, module, category, None, errors);
    assert(spec_yaml_mapping(t).unwrap().modules == ms);
}

} // verus!
