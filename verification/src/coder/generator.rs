//! Generation of the Rust modules of a specification.

pub mod bits;
pub mod helpers;
pub mod module;
pub mod modules;
pub mod repr_type;

use crate::spec::module::module_names;
use crate::spec::{modules_view, Spec};
use vstd::prelude::*;

verus! {

/// The name of the output unit that holds several modules.
pub const ALL_MODULES: &'static str = "*";

/// The code of an output unit.
#[derive(Debug)]
pub struct ModuleCode {
    /// The name of the module, or [ALL_MODULES].
    pub name: String,
    /// The module's code.
    pub code: String,
}

/// An output unit: the modules whose code goes to one place.
#[derive(Debug)]
pub struct CodeUnit {
    /// The name of the module, or [ALL_MODULES].
    pub name: String,
    /// The positions of the unit's modules in the specification.
    pub modules: Vec<usize>,
    /// Whether each module is wrapped in a `pub mod` of its name; the code
    /// of a module that is not starts with the module's doc comment.
    pub nested: bool,
}

/// The modules of a specification go to one place, each in a `pub mod`,
/// when there are several and they are not written in separate files.
pub open spec fn spec_nested(n_modules: nat, separate_files: bool) -> bool {
    n_modules > 1 && !separate_files
}

/// Lays out the modules of a specification in output units: one unit that
/// nests all modules (see [spec_nested]), or one unit per module.
pub fn code_units(spec: &Spec, separate_files: bool) -> (res: Vec<CodeUnit>)
    requires
        spec.modules@.len() > 0,
    ensures
        spec_nested(spec.modules@.len(), separate_files) ==> {
            &&& res@.len() == 1
            &&& res@[0].name@ == ALL_MODULES@
            &&& res@[0].nested
            &&& res@[0].modules@.len() == spec.modules@.len()
            &&& forall|i: int| 0 <= i < spec.modules@.len() ==> #[trigger] res@[0].modules@[i] == i
        },
        !spec_nested(spec.modules@.len(), separate_files) ==> {
            &&& res@.len() == spec.modules@.len()
            &&& forall|i: int|
                0 <= i < res@.len() ==> {
                    &&& (#[trigger] res@[i]).name@ == module_names(modules_view(spec.modules@))[i]
                    &&& !res@[i].nested
                    &&& res@[i].modules@ == seq![i as usize]
                }
        },
{
    let n = spec.modules.len();
    let mut res: Vec<CodeUnit> = Vec::new();
    if n > 1 && !separate_files {
        let mut all: Vec<usize> = Vec::new();
        let mut i: usize = 0;
        while i < n
            invariant
                i <= n,
                n == spec.modules@.len(),
                all@.len() == i,
                forall|j: int| 0 <= j < i ==> #[trigger] all@[j] == j,
            decreases n - i,
        {
            all.push(i);
            i += 1;
        }
        res.push(CodeUnit { name: ALL_MODULES.to_owned(), modules: all, nested: true });
        return res;
    }
    let mut i: usize = 0;
    while i < n
        invariant
            i <= n,
            n == spec.modules@.len(),
            res@.len() == i,
            forall|j: int|
                0 <= j < i ==> {
                    &&& (#[trigger] res@[j]).name@ == module_names(modules_view(spec.modules@))[j]
                    &&& !res@[j].nested
                    &&& res@[j].modules@ == seq![j as usize]
                },
        decreases n - i,
    {
        let name = spec.modules[i].name().to_owned();
        let v = vec![i];
        res.push(CodeUnit { name, modules: v, nested: false });
        i += 1;
    }
    res
}

} // verus!
