//! The command-line arguments of the code generator.

use vstd::prelude::*;

verus! {

/// The command-line arguments of the code generator.
#[derive(Debug, Clone, Default)]
pub struct Args {
    /// The specification file path
    pub spec: Option<String>,
    /// The output path
    pub output: Option<String>,
    /// Include a unit-test in the generated code
    pub test: bool,
    /// Do not overwrite the output file if data is unchanged
    pub update: bool,
    /// Write modules in separate files
    pub separate_files: bool,
}

/// A flag given on the command line sets an option; an absent one leaves it
/// unset.
pub open spec fn spec_flag_option(v: bool) -> Option<bool> {
    if v {
        Some(true)
    } else {
        None
    }
}

impl Args {
    fn bool_to_opt(v: bool) -> (res: Option<bool>)
        ensures
            res == spec_flag_option(v),
    {
        if v {
            Some(v)
        } else {
            None
        }
    }

    /// The unit-test option that the arguments set.
    pub fn test(&self) -> (res: Option<bool>)
        ensures
            res == spec_flag_option(self.test),
    {
        Self::bool_to_opt(self.test)
    }

    /// The update option that the arguments set.
    pub fn update(&self) -> (res: Option<bool>)
        ensures
            res == spec_flag_option(self.update),
    {
        Self::bool_to_opt(self.update)
    }

    /// The separate-files option that the arguments set.
    pub fn separate_files(&self) -> (res: Option<bool>)
        ensures
            res == spec_flag_option(self.separate_files),
    {
        Self::bool_to_opt(self.separate_files)
    }
}

} // verus!
