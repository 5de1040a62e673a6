//! Category objects.

use crate::common::casing::{self, case_converted, Case};
use crate::common::text::opt_view;
use crate::spec::error::{errors_view, ErrorModel, ErrorSpec, OverridableErrorSpec};
use vstd::prelude::*;

verus! {

/// The name of the category that is created when a specification defines
/// errors without a category.
pub const IMPLICIT_CATEGORY_NAME: &'static str = "General";

/// A category object.
#[derive(Clone, Debug, Default, PartialEq, Eq)]
pub struct CategorySpec {
    /// The category name.
    pub name: String,
    /// Attributes inherited by the category's errors.
    pub oes: OverridableErrorSpec,
    /// Category constant's documentation
    pub doc: Option<String>,
    /// The errors of the category.
    pub errors: Vec<ErrorSpec>,
}

/// The mathematical value of a [CategorySpec].
pub struct CategoryModel {
    pub name: Seq<char>,
    pub doc_from_display: Option<bool>,
    pub doc: Option<Seq<char>>,
    pub errors: Seq<ErrorModel>,
}

impl View for CategorySpec {
    type V = CategoryModel;

    open spec fn view(&self) -> CategoryModel {
        CategoryModel {
            name: self.name@,
            doc_from_display: self.oes.doc_from_display,
            doc: opt_view(self.doc),
            errors: errors_view(self.errors@),
        }
    }
}

/// The models of a list of categories.
pub open spec fn categories_view(v: Seq<CategorySpec>) -> Seq<CategoryModel> {
    v.map_values(|c: CategorySpec| c@)
}

/// The names of a list of categories.
pub open spec fn category_names(cats: Seq<CategoryModel>) -> Seq<Seq<char>> {
    cats.map_values(|c: CategoryModel| c.name)
}

/// The errors of a sequence of categories, in order: those of the first
/// category first.
pub open spec fn model_flat_errors(cats: Seq<CategoryModel>) -> Seq<ErrorModel>
    decreases cats.len(),
{
    if cats.len() == 0 {
        Seq::empty()
    } else {
        cats[0].errors + model_flat_errors(cats.drop_first())
    }
}

/// The implicit category holding the given errors.
pub open spec fn spec_implicit_category(errors: Seq<ErrorModel>) -> CategoryModel {
    CategoryModel {
        name: IMPLICIT_CATEGORY_NAME@,
        doc_from_display: None,
        doc: None,
        errors,
    }
}

impl CategorySpec {
    /// Returns the name of the category constant: the name in UPPER_SNAKE_CASE.
    pub fn ident_name(&self) -> (res: String)
        ensures
            res@ == case_converted(self.name@, Case::UpperCamel, Case::UpperSnake),
    {
        casing::convert_case(self.name.as_str(), Case::UpperCamel, Case::UpperSnake)
    }

    /// Returns the name of the category module: the name in snake_case.
    pub fn module_name(&self) -> (res: String)
        ensures
            res@ == case_converted(self.name@, Case::UpperCamel, Case::Snake),
    {
        casing::convert_case(self.name.as_str(), Case::UpperCamel, Case::Snake)
    }

    /// Creates the implicit category with the given errors.
    pub fn implicit_with_errors(errors: Vec<ErrorSpec>) -> (res: CategorySpec)
        ensures
            res@ == spec_implicit_category(errors_view(errors@)),
    {
        CategorySpec {
            name: IMPLICIT_CATEGORY_NAME.to_owned(),
            oes: OverridableErrorSpec { doc_from_display: None },
            doc: None,
            errors,
        }
    }
}

} // verus!
