//! The generator of the code of several modules.

use crate::coder::frozen_options::FrozenOptions;
use crate::spec::{MainSpec, ModuleSpec};
use vstd::prelude::*;

verus! {

/// The generator of the code of several modules, placed in one file.
pub struct ModulesGenerator<'a> {
    /// The options of the run.
    pub opts: &'a FrozenOptions,
    /// The main object of the specification.
    pub main: &'a MainSpec,
    /// The modules.
    pub modules: &'a [ModuleSpec],
}

impl<'a> ModulesGenerator<'a> {
    /// Creates the generator of the given modules.
    pub fn new(opts: &'a FrozenOptions, main: &'a MainSpec, modules: &'a [ModuleSpec]) -> (res:
        ModulesGenerator<'a>)
        ensures
            res.opts == opts,
            res.main == main,
            res.modules == modules,
    {
        ModulesGenerator { opts, main, modules }
    }
}

} // verus!
