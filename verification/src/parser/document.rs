//! The root of a specification file: which root-level attributes may
//! appear together, and the list of modules that they build.

use crate::parser::kws::{self, spec_is_required_root_kw, spec_is_root_kw, spec_mutually_exclusive_root_kws};
use crate::spec::category::{
    category_names, model_flat_errors, spec_implicit_category, CategoryModel, CategorySpec,
};
use crate::spec::definitions::DEFAULT_FLAT_KINDS;
use crate::spec::error::{error_names, errors_view, ErrorModel, ErrorSpec};
use crate::spec::module::{
    flag_or, flatten_errors, lemma_flatten_errors_view, module_names, spec_implicit_module, ModuleModel,
    ModuleSpec,
};
use crate::spec::category::categories_view;
use crate::spec::{categories_ok, errors_ok, modules_ok, modules_view};
use crate::util::{strs_view, unique_ignoring_case};
use vstd::prelude::*;

verus! {

broadcast use vstd::seq_lib::group_seq_properties;

// ----------------------------------------------------------------------------
// Root-level attributes.

/// `keys` holds the key `k`.
pub open spec fn has_key(keys: Seq<Seq<char>>, k: Seq<char>) -> bool {
    exists|i: int| 0 <= i < keys.len() && keys[i] == k
}

/// The root-level keys of a document are valid: each is a root-level
/// attribute, no two of them exclude each other, and one of the required
/// attributes is there.
pub open spec fn spec_root_keys_ok(keys: Seq<Seq<char>>) -> bool {
    &&& forall|i: int| 0 <= i < keys.len() ==> #[trigger] spec_is_root_kw(keys[i])
    &&& forall|p: int|
        0 <= p < spec_mutually_exclusive_root_kws().len() ==> !(has_key(
            keys,
            #[trigger] spec_mutually_exclusive_root_kws()[p].0,
        ) && has_key(keys, spec_mutually_exclusive_root_kws()[p].1))
    &&& exists|i: int| 0 <= i < keys.len() && #[trigger] spec_is_required_root_kw(keys[i])
}

fn holds_key(keys: &Vec<&str>, k: &str) -> (res: bool)
    ensures
        res == has_key(strs_view(keys@), k@),
{
    let mut i: usize = 0;
    while i < keys.len()
        invariant
            i <= keys@.len(),
            forall|j: int| 0 <= j < i ==> keys@[j]@ != k@,
        decreases keys@.len() - i,
    {
        if crate::common::text::str_eq(keys[i], k) {
            assert(strs_view(keys@)[i as int] == k@);
            return true;
        }
        i += 1;
    }
    proof {
        if has_key(strs_view(keys@), k@) {
            let w = choose|w: int| 0 <= w < keys@.len() && strs_view(keys@)[w] == k@;
            assert(keys@[w]@ == k@);
        }
    }
    false
}

/// Checks the root-level keys of a document.
pub fn check_root_keys(keys: &Vec<&str>) -> (res: bool)
    ensures
        res == spec_root_keys_ok(strs_view(keys@)),
{
    let ghost names = strs_view(keys@);
    let mut i: usize = 0;
    let mut required = false;
    while i < keys.len()
        invariant
            i <= keys@.len(),
            names == strs_view(keys@),
            forall|j: int| 0 <= j < i ==> #[trigger] spec_is_root_kw(names[j]),
            required <==> exists|j: int| 0 <= j < i && #[trigger] spec_is_required_root_kw(names[j]),
        decreases keys@.len() - i,
    {
        if !kws::is_root_kw(keys[i]) {
            assert(!spec_is_root_kw(names[i as int]));
            return false;
        }
        if kws::is_required_root_kw(keys[i]) {
            assert(spec_is_required_root_kw(names[i as int]));
            required = true;
        }
        i += 1;
    }
    let pairs: [(&str, &str); 6] = [
        (kws::CATEGORY, kws::CATEGORIES),
        (kws::ERRORS, kws::CATEGORIES),
        (kws::MODULES, kws::ERRORS),
        (kws::MODULES, kws::CATEGORY),
        (kws::MODULES, kws::CATEGORIES),
        (kws::MODULES, kws::MODULE),
    ];
    let mut p: usize = 0;
    while p < 6
        invariant
            p <= 6,
            names == strs_view(keys@),
            forall|q: int| 0 <= q < 6 ==> (#[trigger] pairs@[q]).0@ == spec_mutually_exclusive_root_kws()[q].0
                && pairs@[q].1@ == spec_mutually_exclusive_root_kws()[q].1,
            forall|q: int|
                0 <= q < p ==> !(has_key(names, #[trigger] spec_mutually_exclusive_root_kws()[q].0)
                    && has_key(names, spec_mutually_exclusive_root_kws()[q].1)),
        decreases 6 - p,
    {
        let (k1, k2) = pairs[p];
        if holds_key(keys, k1) && holds_key(keys, k2) {
            return false;
        }
        p += 1;
    }
    required
}

// ----------------------------------------------------------------------------
// Building the module list.

/// The modules after a root-level category was added: to the first module,
/// or to a new implicit module.
pub open spec fn with_category(modules: Seq<ModuleModel>, c: CategoryModel) -> Seq<ModuleModel> {
    if modules.len() > 0 {
        modules.update(0, ModuleModel { categories: modules[0].categories.push(c), ..modules[0] })
    } else {
        seq![spec_implicit_module(seq![c])]
    }
}

/// The modules after a root-level category list was set: as the categories
/// of the first module, or of a new implicit module.
pub open spec fn with_categories(modules: Seq<ModuleModel>, cs: Seq<CategoryModel>) -> Seq<
    ModuleModel,
> {
    if modules.len() > 0 {
        modules.update(0, ModuleModel { categories: cs, ..modules[0] })
    } else {
        seq![spec_implicit_module(cs)]
    }
}

/// The modules after a root-level error list was set: as the errors of the
/// first category of the first module, of a new implicit category of it, or
/// of an implicit category in a new implicit module.
pub open spec fn with_errors(modules: Seq<ModuleModel>, es: Seq<ErrorModel>) -> Seq<ModuleModel> {
    if modules.len() > 0 {
        let m = modules[0];
        if m.categories.len() > 0 {
            modules.update(
                0,
                ModuleModel {
                    categories: m.categories.update(
                        0,
                        CategoryModel { errors: es, ..m.categories[0] },
                    ),
                    ..m
                },
            )
        } else {
            modules.update(
                0,
                ModuleModel { categories: m.categories.push(spec_implicit_category(es)), ..m },
            )
        }
    } else {
        seq![spec_implicit_module(seq![spec_implicit_category(es)])]
    }
}

/// The modules that the root-level attributes build, each given when it is
/// present: the module list, then the single module, the single category,
/// the category list and the error list, in this order.
pub open spec fn spec_assemble(
    modules: Option<Seq<ModuleModel>>,
    module: Option<ModuleModel>,
    category: Option<CategoryModel>,
    categories: Option<Seq<CategoryModel>>,
    errors: Option<Seq<ErrorModel>>,
) -> Seq<ModuleModel> {
    let m0 = match modules {
        Some(ms) => ms,
        None => Seq::empty(),
    };
    let m1 = match module {
        Some(m) => m0.push(m),
        None => m0,
    };
    let m2 = match category {
        Some(c) => with_category(m1, c),
        None => m1,
    };
    let m3 = match categories {
        Some(cs) => with_categories(m2, cs),
        None => m2,
    };
    match errors {
        Some(es) => with_errors(m3, es),
        None => m3,
    }
}

/// A module with flat kinds has error names that are unique ignoring case
/// across all its categories.
pub open spec fn spec_flat_kinds_ok(m: ModuleModel) -> bool {
    crate::spec::module_flat_kinds_ok(m)
}

/// Every module satisfies [spec_flat_kinds_ok].
pub open spec fn spec_all_flat_kinds_ok(ms: Seq<ModuleModel>) -> bool {
    forall|i: int| 0 <= i < ms.len() ==> #[trigger] spec_flat_kinds_ok(ms[i])
}

fn add_category(modules: &mut Vec<ModuleSpec>, c: CategorySpec)
    ensures
        modules_view(final(modules)@) == with_category(modules_view(old(modules)@), c@),
{
    if modules.len() > 0 {
        let mut m = modules.remove(0);
        let ghost m_old = m;
        m.categories.push(c);
        proof {
            assert(categories_view(m.categories@) =~= categories_view(m_old.categories@).push(c@));
        }
        modules.insert(0, m);
        proof {
            assert(modules_view(modules@) =~= with_category(modules_view(old(modules)@), c@));
        }
    } else {
        let v = vec![c];
        let m = ModuleSpec::implicit_with_categories(v);
        proof {
            assert(categories_view(v@) =~= seq![c@]);
        }
        modules.push(m);
        proof {
            assert(modules_view(modules@) =~= with_category(modules_view(old(modules)@), c@));
        }
    }
}

fn set_categories(modules: &mut Vec<ModuleSpec>, cs: Vec<CategorySpec>)
    ensures
        modules_view(final(modules)@) == with_categories(
            modules_view(old(modules)@),
            categories_view(cs@),
        ),
{
    if modules.len() > 0 {
        let mut m = modules.remove(0);
        m.categories = cs;
        modules.insert(0, m);
        proof {
            assert(modules_view(modules@) =~= with_categories(
                modules_view(old(modules)@),
                categories_view(cs@),
            ));
        }
    } else {
        let m = ModuleSpec::implicit_with_categories(cs);
        modules.push(m);
        proof {
            assert(modules_view(modules@) =~= with_categories(
                modules_view(old(modules)@),
                categories_view(cs@),
            ));
        }
    }
}

fn set_errors(modules: &mut Vec<ModuleSpec>, es: Vec<ErrorSpec>)
    ensures
        modules_view(final(modules)@) == with_errors(modules_view(old(modules)@), errors_view(es@)),
{
    let ghost ev = errors_view(es@);
    if modules.len() > 0 {
        let mut m = modules.remove(0);
        let ghost m_old = m;
        if m.categories.len() > 0 {
            let mut c = m.categories.remove(0);
            c.errors = es;
            m.categories.insert(0, c);
            proof {
                assert(categories_view(m.categories@) =~= categories_view(m_old.categories@).update(
                    0,
                    CategoryModel { errors: ev, ..m_old.categories@[0]@ },
                ));
            }
        } else {
            let c = CategorySpec::implicit_with_errors(es);
            m.categories.push(c);
            proof {
                assert(categories_view(m.categories@) =~= categories_view(m_old.categories@).push(
                    spec_implicit_category(ev),
                ));
            }
        }
        modules.insert(0, m);
        proof {
            assert(modules_view(modules@) =~= with_errors(modules_view(old(modules)@), ev));
        }
    } else {
        let c = CategorySpec::implicit_with_errors(es);
        let v = vec![c];
        proof {
            assert(categories_view(v@) =~= seq![spec_implicit_category(ev)]);
        }
        let m = ModuleSpec::implicit_with_categories(v);
        modules.push(m);
        proof {
            assert(modules_view(modules@) =~= with_errors(modules_view(old(modules)@), ev));
        }
    }
}

/// The models of an optional list of modules.
pub open spec fn opt_modules_view(o: Option<Vec<ModuleSpec>>) -> Option<Seq<ModuleModel>> {
    match o {
        Some(v) => Some(modules_view(v@)),
        None => None,
    }
}

/// The model of an optional module.
pub open spec fn opt_module_view(o: Option<ModuleSpec>) -> Option<ModuleModel> {
    match o {
        Some(m) => Some(m@),
        None => None,
    }
}

/// The model of an optional category.
pub open spec fn opt_category_view(o: Option<CategorySpec>) -> Option<CategoryModel> {
    match o {
        Some(c) => Some(c@),
        None => None,
    }
}

/// The models of an optional list of categories.
pub open spec fn opt_categories_view(o: Option<Vec<CategorySpec>>) -> Option<Seq<CategoryModel>> {
    match o {
        Some(v) => Some(categories_view(v@)),
        None => None,
    }
}

/// The models of an optional list of errors.
pub open spec fn opt_errors_view(o: Option<Vec<ErrorSpec>>) -> Option<Seq<ErrorModel>> {
    match o {
        Some(v) => Some(errors_view(v@)),
        None => None,
    }
}

/// Builds the module list from the parsed root-level attributes.
pub fn assemble(
    modules: Option<Vec<ModuleSpec>>,
    module: Option<ModuleSpec>,
    category: Option<CategorySpec>,
    categories: Option<Vec<CategorySpec>>,
    errors: Option<Vec<ErrorSpec>>,
) -> (res: Vec<ModuleSpec>)
    ensures
        modules_view(res@) == spec_assemble(
            opt_modules_view(modules),
            opt_module_view(module),
            opt_category_view(category),
            opt_categories_view(categories),
            opt_errors_view(errors),
        ),
{
    let mut ms = match modules {
        Some(v) => v,
        None => Vec::new(),
    };
    proof {
        if modules is None {
            assert(modules_view(ms@) =~= Seq::<ModuleModel>::empty());
        }
    }
    match module {
        Some(m) => {
            let ghost before = ms@;
            ms.push(m);
            proof {
                assert(modules_view(ms@) =~= modules_view(before).push(m@));
            }
        },
        None => {},
    }
    match category {
        Some(c) => add_category(&mut ms, c),
        None => {},
    }
    match categories {
        Some(cs) => set_categories(&mut ms, cs),
        None => {},
    }
    match errors {
        Some(es) => set_errors(&mut ms, es),
        None => {},
    }
    ms
}

/// The names of a list of error objects, in order.
pub fn error_name_list(errors: &Vec<ErrorSpec>) -> (res: Vec<&str>)
    ensures
        strs_view(res@) == error_names(errors_view(errors@)),
{
    let mut names: Vec<&str> = Vec::new();
    let mut i: usize = 0;
    while i < errors.len()
        invariant
            i <= errors@.len(),
            names@.len() == i,
            forall|k: int| 0 <= k < i ==> #[trigger] names@[k]@ == errors@[k].name@,
        decreases errors@.len() - i,
    {
        names.push(errors[i].name.as_str());
        i += 1;
    }
    proof {
        assert(strs_view(names@) =~= error_names(errors_view(errors@)));
    }
    names
}

/// The names of a list of category objects, in order.
pub fn category_name_list(categories: &Vec<CategorySpec>) -> (res: Vec<&str>)
    ensures
        strs_view(res@) == category_names(categories_view(categories@)),
{
    let mut names: Vec<&str> = Vec::new();
    let mut i: usize = 0;
    while i < categories.len()
        invariant
            i <= categories@.len(),
            names@.len() == i,
            forall|k: int| 0 <= k < i ==> #[trigger] names@[k]@ == categories@[k].name@,
        decreases categories@.len() - i,
    {
        names.push(categories[i].name.as_str());
        i += 1;
    }
    proof {
        assert(strs_view(names@) =~= category_names(categories_view(categories@)));
    }
    names
}

/// The names of a list of module objects, in order, [IMPLICIT_MODULE_NAME]
/// standing for an unnamed one.
pub fn module_name_list(modules: &Vec<ModuleSpec>) -> (res: Vec<&str>)
    ensures
        strs_view(res@) == module_names(modules_view(modules@)),
{
    let mut names: Vec<&str> = Vec::new();
    let mut i: usize = 0;
    while i < modules.len()
        invariant
            i <= modules@.len(),
            names@.len() == i,
            forall|k: int| 0 <= k < i ==> #[trigger] names@[k]@ == module_names(modules_view(modules@))[k],
        decreases modules@.len() - i,
    {
        names.push(modules[i].name());
        i += 1;
    }
    proof {
        assert(strs_view(names@) =~= module_names(modules_view(modules@)));
    }
    names
}

/// The names of a module's errors, category by category.
pub fn module_error_names(m: &ModuleSpec) -> (res: Vec<&str>)
    ensures
        strs_view(res@) == error_names(model_flat_errors(m@.categories)),
{
    let ghost all = flatten_errors(m.categories@);
    let mut it = m.errors_iter();
    let mut names: Vec<&str> = Vec::new();
    loop
        invariant
            it.wf(),
            all == flatten_errors(m.categories@),
            names@.len() + it.remaining().len() == all.len(),
            forall|k: int| 0 <= k < names@.len() ==> #[trigger] names@[k]@ == all[k].name@,
            forall|k: int|
                0 <= k < it.remaining().len() ==> #[trigger] it.remaining()[k] == all[names@.len()
                    + k],
        ensures
            names@.len() == all.len(),
            forall|k: int| 0 <= k < names@.len() ==> #[trigger] names@[k]@ == all[k].name@,
        decreases it.remaining().len(),
    {
        let ghost before = it.remaining();
        match it.next() {
            Some(e) => {
                proof {
                    assert(before[0] == all[names@.len() as int]);
                }
                names.push(e.name.as_str());
                proof {
                    assert forall|k: int| 0 <= k < it.remaining().len() implies #[trigger] it.remaining()[k]
                        == all[names@.len() + k] by {
                        assert(it.remaining()[k] == before[k + 1]);
                    }
                }
            },
            None => {
                break;
            },
        }
    }
    proof {
        lemma_flatten_errors_view(m.categories@);
        assert(strs_view(names@) =~= error_names(errors_view(all)));
    }
    names
}

/// Checks [spec_all_flat_kinds_ok] on a list of modules.
pub fn check_flat_kinds(modules: &Vec<ModuleSpec>) -> (res: bool)
    ensures
        res == spec_all_flat_kinds_ok(modules_view(modules@)),
{
    let ghost mv = modules_view(modules@);
    let mut i: usize = 0;
    while i < modules.len()
        invariant
            i <= modules@.len(),
            mv == modules_view(modules@),
            forall|j: int| 0 <= j < i ==> #[trigger] spec_flat_kinds_ok(mv[j]),
        decreases modules@.len() - i,
    {
        let m = &modules[i];
        if m.flat_kinds() {
            let names = module_error_names(m);
            if crate::parser::helpers::check_module_error_name_uniqueness(&names).is_err() {
                assert(!spec_flat_kinds_ok(mv[i as int]));
                return false;
            }
        }
        i += 1;
    }
    true
}

/// The module list that the root-level attributes build is one that a
/// specification can hold (see [modules_ok]), given what the parsers
/// guarantee of each attribute and of the attributes that may appear
/// together: a module list excludes the other attributes, a category list
/// excludes a single category and an error list, one of the three lists is
/// there, and a single module has no category of its own.
pub proof fn lemma_assemble_well_formed(
    modules: Option<Seq<ModuleModel>>,
    module: Option<ModuleModel>,
    category: Option<CategoryModel>,
    categories: Option<Seq<CategoryModel>>,
    errors: Option<Seq<ErrorModel>>,
)
    requires
        modules matches Some(ms) ==> modules_ok(ms) && module is None && category is None
            && categories is None && errors is None,
        modules is None ==> categories is Some || errors is Some,
        categories matches Some(cs) ==> categories_ok(cs) && category is None && errors is None,
        module matches Some(m) ==> m.categories.len() == 0,
        errors matches Some(es) ==> errors_ok(es),
    ensures
        modules_ok(spec_assemble(modules, module, category, categories, errors)),
{
    let ms = spec_assemble(modules, module, category, categories, errors);
    if modules is None {
        assert(ms.len() == 1);
        assert(unique_ignoring_case(module_names(ms)));
        let cats = ms[0].categories;
        if categories is Some {
            assert(categories_ok(cats));
        } else {
            let es = errors.unwrap();
            assert(cats.len() == 1);
            assert(cats[0].errors == es);
            assert(unique_ignoring_case(category_names(cats)));
            assert(categories_ok(cats));
        }
    }
}

} // verus!
