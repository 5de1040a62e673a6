//! The specification model: what a specification file describes.

pub mod category;
pub mod definitions;
pub mod error;
pub mod main;
pub mod module;

pub use category::{CategoryModel, CategorySpec, IMPLICIT_CATEGORY_NAME};
pub use error::{ErrorModel, ErrorSpec, OverridableErrorSpec};
pub use main::{MainModel, MainSpec};
pub use module::{ModuleModel, ModuleSpec, ModuleSpecErrorIter, IMPLICIT_MODULE_NAME};

use crate::spec::category::{category_names, model_flat_errors};
use crate::spec::definitions::DEFAULT_FLAT_KINDS;
use crate::spec::error::error_names;
use crate::spec::module::{flag_or, module_names};
use crate::util::unique_ignoring_case;
use vstd::prelude::*;

verus! {

/// A parsed specification.
#[derive(Clone, Debug, Default, PartialEq, Eq)]
pub struct Spec {
    /// The specification file path
    pub path: String,
    /// The main spec
    pub main: MainSpec,
    /// A list of modules
    pub modules: Vec<ModuleSpec>,
}

/// The mathematical value of a [Spec].
pub struct SpecModel {
    pub path: Seq<char>,
    pub main: MainModel,
    pub modules: Seq<ModuleModel>,
}

/// The models of a list of modules.
pub open spec fn modules_view(v: Seq<ModuleSpec>) -> Seq<ModuleModel> {
    v.map_values(|m: ModuleSpec| m@)
}

impl View for Spec {
    type V = SpecModel;

    open spec fn view(&self) -> SpecModel {
        SpecModel { path: self.path@, main: self.main@, modules: modules_view(self.modules@) }
    }
}

/// An error list that a specification can hold: non-empty, with names
/// unique ignoring case.
pub open spec fn errors_ok(es: Seq<ErrorModel>) -> bool {
    es.len() > 0 && unique_ignoring_case(error_names(es))
}

/// A category list that a specification can hold: non-empty, with names
/// unique ignoring case, each category with an error list of its own.
pub open spec fn categories_ok(cs: Seq<CategoryModel>) -> bool {
    &&& cs.len() > 0
    &&& unique_ignoring_case(category_names(cs))
    &&& forall|i: int| 0 <= i < cs.len() ==> #[trigger] errors_ok(cs[i].errors)
}

/// A module list that a specification can hold: non-empty, with names
/// unique ignoring case, each module with a category list of its own.
pub open spec fn modules_ok(ms: Seq<ModuleModel>) -> bool {
    &&& ms.len() > 0
    &&& unique_ignoring_case(module_names(ms))
    &&& forall|i: int| 0 <= i < ms.len() ==> #[trigger] categories_ok(ms[i].categories)
}

/// A module whose error kinds are flat (the constants of all its
/// categories share one namespace) has error names that are unique ignoring
/// case across all its categories.
pub open spec fn module_flat_kinds_ok(m: ModuleModel) -> bool {
    flag_or(m.flat_kinds, DEFAULT_FLAT_KINDS) ==> unique_ignoring_case(
        error_names(model_flat_errors(m.categories)),
    )
}

impl SpecModel {
    /// The specification has modules, each module categories and each
    /// category errors, and names are unique ignoring case within each list;
    /// in a module with flat kinds, error names are unique ignoring case
    /// across all its categories.
    pub open spec fn well_formed(self) -> bool {
        &&& modules_ok(self.modules)
        &&& forall|i: int|
            0 <= i < self.modules.len() ==> #[trigger] module_flat_kinds_ok(self.modules[i])
    }
}

} // verus!
