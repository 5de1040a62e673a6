//! Module objects.

use crate::coder::idents;
use crate::common::text::opt_view;
use crate::spec::category::{categories_view, model_flat_errors, CategoryModel, CategorySpec};
use crate::spec::definitions::{
    DEFAULT_CATEGORY_STRUCT_DOC, DEFAULT_DOC_FROM_DISPLAY, DEFAULT_ERROR_KIND_CONST_DOC,
    DEFAULT_ERROR_KIND_STRUCT_DOC, DEFAULT_ERROR_STRUCT_DOC, DEFAULT_ERROR_TRAIT,
    DEFAULT_ERR_INTO_RESULT, DEFAULT_ERR_KIND_INTO_RESULT, DEFAULT_FLAT_KINDS,
    DEFAULT_GENERAL_CAT_DOC, DEFAULT_MODULE_DOC,
};
use crate::spec::error::{errors_view, ErrorModel, ErrorSpec, OverridableErrorSpec};
use vstd::prelude::*;

verus! {

/// The name of the module that is created when a specification defines no
/// module.
pub const IMPLICIT_MODULE_NAME: &'static str = "errors";

/// A module object.
#[derive(Clone, Debug, Default, PartialEq, Eq)]
pub struct ModuleSpec {
    /// The name of the module
    pub name: Option<String>,
    /// Module documentation
    pub doc: Option<String>,
    /// Error struct's documentation
    pub err_doc: Option<String>,
    /// ErrorKind struct's documentation
    pub err_kind_doc: Option<String>,
    /// A doc string for the ErrorCategory struct
    pub err_cat_doc: Option<String>,
    /// Add `impl From<Error> for Result`
    pub result_from_err: Option<bool>,
    /// Add `impl From<ErrorKind> for Result<T, Error>`
    pub result_from_err_kind: Option<bool>,
    /// Add `impl std::error::Error for Error`
    pub error_trait: Option<bool>,
    /// A custom name for the Error struct
    pub err_name: Option<String>,
    /// A custom name for the ErrorKind struct
    pub err_kind_name: Option<String>,
    /// A custom name for the ErrorCategory struct
    pub err_cat_name: Option<String>,
    /// Attributes inherited by the module's errors.
    pub oes: OverridableErrorSpec,
    /// Place the error kind consts under `mod kinds`
    /// and not under `mod kinds::<category_mod>`.
    /// Requires all error names to be unique per module.
    pub flat_kinds: Option<bool>,
    /// Module categories
    pub categories: Vec<CategorySpec>,
}

/// The mathematical value of a [ModuleSpec].
pub struct ModuleModel {
    pub name: Option<Seq<char>>,
    pub doc: Option<Seq<char>>,
    pub err_doc: Option<Seq<char>>,
    pub err_kind_doc: Option<Seq<char>>,
    pub err_cat_doc: Option<Seq<char>>,
    pub result_from_err: Option<bool>,
    pub result_from_err_kind: Option<bool>,
    pub error_trait: Option<bool>,
    pub err_name: Option<Seq<char>>,
    pub err_kind_name: Option<Seq<char>>,
    pub err_cat_name: Option<Seq<char>>,
    pub doc_from_display: Option<bool>,
    pub flat_kinds: Option<bool>,
    pub categories: Seq<CategoryModel>,
}

impl View for ModuleSpec {
    type V = ModuleModel;

    open spec fn view(&self) -> ModuleModel {
        ModuleModel {
            name: opt_view(self.name),
            doc: opt_view(self.doc),
            err_doc: opt_view(self.err_doc),
            err_kind_doc: opt_view(self.err_kind_doc),
            err_cat_doc: opt_view(self.err_cat_doc),
            result_from_err: self.result_from_err,
            result_from_err_kind: self.result_from_err_kind,
            error_trait: self.error_trait,
            err_name: opt_view(self.err_name),
            err_kind_name: opt_view(self.err_kind_name),
            err_cat_name: opt_view(self.err_cat_name),
            doc_from_display: self.oes.doc_from_display,
            flat_kinds: self.flat_kinds,
            categories: categories_view(self.categories@),
        }
    }
}

/// A module with no attribute but the given categories.
pub open spec fn spec_implicit_module(categories: Seq<CategoryModel>) -> ModuleModel {
    ModuleModel {
        name: None,
        doc: None,
        err_doc: None,
        err_kind_doc: None,
        err_cat_doc: None,
        result_from_err: None,
        result_from_err_kind: None,
        error_trait: None,
        err_name: None,
        err_kind_name: None,
        err_cat_name: None,
        doc_from_display: None,
        flat_kinds: None,
        categories,
    }
}

/// The value of an optional string attribute, or `default` when it is unset.
pub open spec fn or_default(o: Option<String>, default: Seq<char>) -> Seq<char> {
    match o {
        Some(s) => s@,
        None => default,
    }
}

/// The value of an optional flag, or `default` when it is unset.
pub open spec fn flag_or(o: Option<bool>, default: bool) -> bool {
    match o {
        Some(v) => v,
        None => default,
    }
}

/// The errors of a sequence of categories, in order: those of the first
/// category first.
pub open spec fn flatten_errors(cats: Seq<CategorySpec>) -> Seq<ErrorSpec>
    decreases cats.len(),
{
    if cats.len() == 0 {
        Seq::empty()
    } else {
        cats[0].errors@ + flatten_errors(cats.drop_first())
    }
}

/// The models of the errors of a sequence of categories are the errors of
/// their models.
pub proof fn lemma_flatten_errors_view(cats: Seq<CategorySpec>)
    ensures
        errors_view(flatten_errors(cats)) == model_flat_errors(categories_view(cats)),
    decreases cats.len(),
{
    if cats.len() > 0 {
        lemma_flatten_errors_view(cats.drop_first());
        assert(categories_view(cats).drop_first() =~= categories_view(cats.drop_first()));
        assert(errors_view(flatten_errors(cats)) =~= errors_view(cats[0].errors@) + errors_view(
            flatten_errors(cats.drop_first()),
        ));
    } else {
        assert(errors_view(flatten_errors(cats)) =~= Seq::<ErrorModel>::empty());
    }
}

/// The names of a list of modules, [IMPLICIT_MODULE_NAME] standing for an
/// unnamed one.
pub open spec fn module_names(ms: Seq<ModuleModel>) -> Seq<Seq<char>> {
    ms.map_values(
        |m: ModuleModel|
            match m.name {
                Some(n) => n,
                None => IMPLICIT_MODULE_NAME@,
            },
    )
}

/// The largest number of errors in any of the categories, `None` when there
/// are no categories.
pub open spec fn spec_max_errors(cats: Seq<CategorySpec>) -> Option<usize>
    decreases cats.len(),
{
    if cats.len() == 0 {
        None
    } else {
        match spec_max_errors(cats.drop_last()) {
            None => Some(cats.last().errors.len()),
            Some(m) => if m >= cats.last().errors.len() {
                Some(m)
            } else {
                Some(cats.last().errors.len())
            },
        }
    }
}

fn opt_str_or<'a>(o: &'a Option<String>, default: &'static str) -> (res: &'a str)
    ensures
        res@ == or_default(*o, default@),
{
    match o {
        Some(s) => s.as_str(),
        None => default,
    }
}

impl ModuleSpec {
    /// Creates a module with no attribute but the given categories.
    pub fn implicit_with_categories(categories: Vec<CategorySpec>) -> (res: ModuleSpec)
        ensures
            res@ == spec_implicit_module(categories_view(categories@)),
            res.categories@ == categories@,
    {
        ModuleSpec {
            name: None,
            doc: None,
            err_doc: None,
            err_kind_doc: None,
            err_cat_doc: None,
            result_from_err: None,
            result_from_err_kind: None,
            error_trait: None,
            err_name: None,
            err_kind_name: None,
            err_cat_name: None,
            oes: OverridableErrorSpec { doc_from_display: None },
            flat_kinds: None,
            categories,
        }
    }

    /// Returns an iterator over the errors of all categories, in order.
    pub fn errors_iter(&self) -> (res: ModuleSpecErrorIter<'_>)
        ensures
            res.wf(),
            res.remaining() == flatten_errors(self.categories@),
    {
        let it = ModuleSpecErrorIter { module: self, cat: 0, err: 0 };
        proof {
            assert(self.categories@.skip(0) =~= self.categories@);
            assert(self.categories@.len() == 0 || self.categories@[0].errors@.skip(0)
                =~= self.categories@[0].errors@);
        }
        it
    }

    /// Returns the number of errors in the largest category, `None` when the
    /// module has no category.
    pub fn n_errors_in_largest_category(&self) -> (res: Option<usize>)
        ensures
            res == spec_max_errors(self.categories@),
    {
        let mut ans: Option<usize> = None;
        let mut i: usize = 0;
        while i < self.categories.len()
            invariant
                i <= self.categories@.len(),
                ans == spec_max_errors(self.categories@.take(i as int)),
            decreases self.categories@.len() - i,
        {
            let n = self.categories[i].errors.len();
            proof {
                assert(self.categories@.take(i + 1).drop_last() =~= self.categories@.take(
                    i as int,
                ));
            }
            ans = match ans {
                None => Some(n),
                Some(m) => if m >= n {
                    Some(m)
                } else {
                    Some(n)
                },
            };
            i += 1;
        }
        proof {
            assert(self.categories@.take(i as int) =~= self.categories@);
        }
        ans
    }

    /// Returns the doc comment of the error struct.
    pub fn err_doc(&self) -> (res: &str)
        ensures
            res@ == or_default(self.err_doc, DEFAULT_ERROR_STRUCT_DOC@),
    {
        opt_str_or(&self.err_doc, DEFAULT_ERROR_STRUCT_DOC)
    }

    /// Returns the doc comment of the error category struct.
    pub fn err_cat_doc(&self) -> (res: &str)
        ensures
            res@ == or_default(self.err_cat_doc, DEFAULT_CATEGORY_STRUCT_DOC@),
    {
        opt_str_or(&self.err_cat_doc, DEFAULT_CATEGORY_STRUCT_DOC)
    }

    /// Returns the doc comment of a category constant: the category's own
    /// doc, else a default text when the module has a single category, else
    /// nothing.
    pub fn cat_const_doc<'a>(&'a self, c: &'a CategorySpec) -> (res: &'a str)
        ensures
            res@ == or_default(
                c.doc,
                if self.categories@.len() == 1 {
                    DEFAULT_GENERAL_CAT_DOC@
                } else {
                    ""@
                },
            ),
    {
        let implicit_value = if self.categories.len() == 1 {
            DEFAULT_GENERAL_CAT_DOC
        } else {
            ""
        };
        opt_str_or(&c.doc, implicit_value)
    }

    /// The effective `doc_from_display` of error `e` in category `c`: the
    /// error's own value wins over the category's, which wins over the
    /// module's.
    pub open spec fn spec_doc_from_display(&self, c: CategorySpec, e: ErrorSpec) -> bool {
        match e.oes.doc_from_display {
            Some(v) => v,
            None => match c.oes.doc_from_display {
                Some(v) => v,
                None => flag_or(self.oes.doc_from_display, DEFAULT_DOC_FROM_DISPLAY),
            },
        }
    }

    /// The doc comment of the constant of error `e` in category `c`.
    pub open spec fn spec_err_kind_const_doc(&self, c: CategorySpec, e: ErrorSpec) -> Seq<char> {
        match e.doc {
            Some(d) => d@,
            None => if self.spec_doc_from_display(c, e) {
                or_default(e.display, DEFAULT_ERROR_KIND_CONST_DOC@)
            } else {
                DEFAULT_ERROR_KIND_CONST_DOC@
            },
        }
    }

    /// Returns the doc comment of the constant of error `e` in category `c`.
    ///
    /// The error's own doc wins. Otherwise, when `doc_from_display` is in
    /// effect (see [ModuleSpec::spec_doc_from_display]), the display string
    /// is used.
    pub fn err_kind_const_doc<'a>(&self, c: &'a CategorySpec, e: &'a ErrorSpec) -> (res: &'a str)
        ensures
            res@ == self.spec_err_kind_const_doc(*c, *e),
    {
        if let Some(doc) = &e.doc {
            return doc.as_str();
        }
        let dfd = match e.oes.doc_from_display {
            Some(v) => v,
            None => match c.oes.doc_from_display {
                Some(v) => v,
                None => match self.oes.doc_from_display {
                    Some(v) => v,
                    None => DEFAULT_DOC_FROM_DISPLAY,
                },
            },
        };
        if dfd {
            opt_str_or(&e.display, DEFAULT_ERROR_KIND_CONST_DOC)
        } else {
            DEFAULT_ERROR_KIND_CONST_DOC
        }
    }

    /// Returns the doc comment of the error kind struct.
    pub fn err_kind_doc(&self) -> (res: &str)
        ensures
            res@ == or_default(self.err_kind_doc, DEFAULT_ERROR_KIND_STRUCT_DOC@),
    {
        opt_str_or(&self.err_kind_doc, DEFAULT_ERROR_KIND_STRUCT_DOC)
    }

    /// Returns the module name.
    pub fn name(&self) -> (res: &str)
        ensures
            res@ == or_default(self.name, IMPLICIT_MODULE_NAME@),
    {
        opt_str_or(&self.name, IMPLICIT_MODULE_NAME)
    }

    /// Returns the module doc comment.
    pub fn doc(&self) -> (res: &str)
        ensures
            res@ == or_default(self.doc, DEFAULT_MODULE_DOC@),
    {
        opt_str_or(&self.doc, DEFAULT_MODULE_DOC)
    }

    /// Returns the largest category value.
    pub fn category_max(&self) -> (res: usize)
        requires
            self.categories@.len() > 0,
        ensures
            res == self.categories@.len() - 1,
    {
        self.categories.len() - 1
    }

    /// Returns whether `From<Error> for Result` is generated.
    pub fn result_from_err(&self) -> (res: bool)
        ensures
            res == flag_or(self.result_from_err, DEFAULT_ERR_INTO_RESULT),
    {
        match self.result_from_err {
            Some(v) => v,
            None => DEFAULT_ERR_INTO_RESULT,
        }
    }

    /// Returns whether `From<ErrorKind> for Result` is generated.
    pub fn result_from_err_kind(&self) -> (res: bool)
        ensures
            res == flag_or(self.result_from_err_kind, DEFAULT_ERR_KIND_INTO_RESULT),
    {
        match self.result_from_err_kind {
            Some(v) => v,
            None => DEFAULT_ERR_KIND_INTO_RESULT,
        }
    }

    /// Returns whether `std::error::Error` is implemented for the error
    /// struct: never when `no_std` is enabled, and per the module attribute
    /// (by default yes) otherwise.
    pub fn error_trait(&self, no_std: Option<bool>) -> (res: bool)
        ensures
            res == (no_std != Some(true) && flag_or(self.error_trait, DEFAULT_ERROR_TRAIT)),
    {
        if let Some(true) = no_std {
            return false;
        }
        match self.error_trait {
            Some(v) => v,
            None => DEFAULT_ERROR_TRAIT,
        }
    }

    /// Returns the name of the error struct.
    pub fn err_name(&self) -> (res: &str)
        ensures
            res@ == or_default(self.err_name, idents::ERROR@),
    {
        opt_str_or(&self.err_name, idents::ERROR)
    }

    /// Returns the name of the error kind struct.
    pub fn err_kind_name(&self) -> (res: &str)
        ensures
            res@ == or_default(self.err_kind_name, idents::ERROR_KIND@),
    {
        opt_str_or(&self.err_kind_name, idents::ERROR_KIND)
    }

    /// Returns the name of the error category struct.
    pub fn err_cat_name(&self) -> (res: &str)
        ensures
            res@ == or_default(self.err_cat_name, idents::ERROR_CATEGORY@),
    {
        opt_str_or(&self.err_cat_name, idents::ERROR_CATEGORY)
    }

    /// Returns whether the error kind constants are placed directly under
    /// the kinds module.
    pub fn flat_kinds(&self) -> (res: bool)
        ensures
            res == flag_or(self.flat_kinds, DEFAULT_FLAT_KINDS),
    {
        match self.flat_kinds {
            Some(v) => v,
            None => DEFAULT_FLAT_KINDS,
        }
    }
}

/// An iterator over the errors of a module, category by category.
pub struct ModuleSpecErrorIter<'a> {
    module: &'a ModuleSpec,
    cat: usize,
    err: usize,
}

impl<'a> ModuleSpecErrorIter<'a> {
    /// The iterator's well-formedness: it points into the module.
    pub closed spec fn wf(&self) -> bool {
        self.cat <= self.module.categories@.len() && (self.cat < self.module.categories@.len()
            ==> self.err <= self.module.categories@[self.cat as int].errors@.len())
    }

    /// The errors that the iterator has yet to return, in order.
    pub closed spec fn remaining(&self) -> Seq<ErrorSpec> {
        if self.cat < self.module.categories@.len() {
            self.module.categories@[self.cat as int].errors@.skip(self.err as int)
                + flatten_errors(self.module.categories@.skip(self.cat + 1))
        } else {
            Seq::empty()
        }
    }

    /// Returns the next error, `None` when all errors were returned.
    pub fn next(&mut self) -> (res: Option<&'a ErrorSpec>)
        requires
            old(self).wf(),
        ensures
            final(self).wf(),
            old(self).remaining().len() == 0 ==> res is None && final(self).remaining().len() == 0,
            old(self).remaining().len() > 0 ==> res == Some(&old(self).remaining()[0])
                && final(self).remaining() == old(self).remaining().drop_first(),
    {
        let ghost start = self.remaining();
        while self.cat < self.module.categories.len()
            invariant
                self.wf(),
                self.remaining() == start,
                start == old(self).remaining(),
                self.module == old(self).module,
            decreases self.module.categories@.len() - self.cat,
        {
            let c = &self.module.categories[self.cat];
            if self.err < c.errors.len() {
                let e = &c.errors[self.err];
                proof {
                    assert(c.errors@.skip(self.err as int) =~= seq![*e] + c.errors@.skip(
                        self.err + 1,
                    ));
                    assert(start[0] == *e);
                    assert(start.len() > 0);
                }
                self.err = self.err + 1;
                proof {
                    assert(self.remaining() =~= start.drop_first());
                }
                return Some(e);
            }
            proof {
                let cats = self.module.categories@;
                assert(c.errors@.skip(self.err as int) =~= Seq::<ErrorSpec>::empty());
                if self.cat + 1 < cats.len() {
                    assert(cats.skip(self.cat + 1).drop_first() =~= cats.skip(self.cat + 2));
                    assert(cats.skip(self.cat + 1)[0] == cats[self.cat + 1]);
                    assert(cats[self.cat + 1].errors@.skip(0) =~= cats[self.cat + 1].errors@);
                } else {
                    assert(cats.skip(self.cat + 1) =~= Seq::<CategorySpec>::empty());
                }
            }
            self.cat = self.cat + 1;
            self.err = 0;
            proof {
                assert(self.remaining() =~= start);
            }
        }
        None
    }
}


/// An error's own `doc_from_display` decides, whatever its category and
/// module say: with no doc of its own, an error that sets it to `true` and
/// has a display string gets that string as the doc of its constant, one
/// that sets it to `false` gets the default doc, and the doc is the same in
/// any other category or module. An error's own doc always wins.
pub proof fn law_error_doc_from_display_decides(
    m: ModuleSpec,
    c: CategorySpec,
    e: ErrorSpec,
    m2: ModuleSpec,
    c2: CategorySpec,
)
    ensures
        e.doc matches Some(d) ==> m.spec_err_kind_const_doc(c, e) == d@,
        e.doc is None && e.oes.doc_from_display == Some(true) && e.display is Some
            ==> m.spec_err_kind_const_doc(c, e) == e.display.unwrap()@,
        e.doc is None && e.oes.doc_from_display == Some(false) ==> m.spec_err_kind_const_doc(c, e)
            == DEFAULT_ERROR_KIND_CONST_DOC@,
        e.oes.doc_from_display is Some ==> m.spec_err_kind_const_doc(c, e)
            == m2.spec_err_kind_const_doc(c2, e),
{
}

} // verus!
