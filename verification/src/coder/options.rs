//! The options of code generation.

use vstd::prelude::*;

verus! {

/// Options of code generation.
///
/// Each setter returns the options, so that calls chain:
/// `CodegenOptions::new().spec(..).output(..)`.
#[derive(Debug, Clone, Default)]
pub struct CodegenOptions {
    /// The specification file path; the default specification file when
    /// unset.
    pub spec: Option<String>,
    /// The output path; the output of the main object when unset.
    pub output: Option<String>,
    /// Whether to add unit tests to the generated code.
    pub test: Option<bool>,
    /// Whether to leave an output file untouched when its contents do not
    /// change.
    pub update: Option<bool>,
    /// Whether to write every module in a file of its own.
    pub separate_files: Option<bool>,
}

impl CodegenOptions {
    /// Creates options with nothing set.
    pub fn new() -> (res: Self)
        ensures
            res.spec is None,
            res.output is None,
            res.test is None,
            res.update is None,
            res.separate_files is None,
    {
        CodegenOptions { spec: None, output: None, test: None, update: None, separate_files: None }
    }

    /// Sets the specification file path.
    pub fn spec(&mut self, spec: String) -> (res: &mut Self)
        ensures
            *res == (CodegenOptions { spec: Some(spec), ..*old(self) }),
            *final(self) == *final(res),
    {
        self.spec = Some(spec);
        self
    }

    /// Sets or unsets the specification file path.
    pub fn spec_option(&mut self, spec: Option<String>) -> (res: &mut Self)
        ensures
            *res == (CodegenOptions { spec, ..*old(self) }),
            *final(self) == *final(res),
    {
        self.spec = spec;
        self
    }

    /// Sets the output path.
    pub fn output(&mut self, output: String) -> (res: &mut Self)
        ensures
            *res == (CodegenOptions { output: Some(output), ..*old(self) }),
            *final(self) == *final(res),
    {
        self.output = Some(output);
        self
    }

    /// Sets or unsets the output path.
    pub fn output_option(&mut self, output: Option<String>) -> (res: &mut Self)
        ensures
            *res == (CodegenOptions { output, ..*old(self) }),
            *final(self) == *final(res),
    {
        self.output = output;
        self
    }

    /// Sets or unsets the unit-test option.
    pub fn test(&mut self, test: Option<bool>) -> (res: &mut Self)
        ensures
            *res == (CodegenOptions { test, ..*old(self) }),
            *final(self) == *final(res),
    {
        self.test = test;
        self
    }

    /// Sets or unsets the update option.
    pub fn update(&mut self, update: Option<bool>) -> (res: &mut Self)
        ensures
            *res == (CodegenOptions { update, ..*old(self) }),
            *final(self) == *final(res),
    {
        self.update = update;
        self
    }

    /// Sets or unsets the separate-files option.
    pub fn separate_files(&mut self, separate_files: Option<bool>) -> (res: &mut Self)
        ensures
            *res == (CodegenOptions { separate_files, ..*old(self) }),
            *final(self) == *final(res),
    {
        self.separate_files = separate_files;
        self
    }
}

} // verus!
