//! The options of a code generation run, with the defaults applied.

use crate::coder::options::CodegenOptions;
use crate::common::text::str_eq;
use crate::errors::TbError;
use crate::spec::definitions::{
    DEFAULT_SEPARATE_FILES, DEFAULT_TEST, DEFAULT_UPDATE_MODE, IMPLICIT_FILENAME, STDOUT_PATH,
};
use crate::common::paths::{is_plain_path, joined_onto, path_join};
use crate::common::text::opt_view;
use crate::spec::module::flag_or;
use crate::spec::Spec;
use vstd::prelude::*;

verus! {

/// The options of a code generation run, with the defaults applied.
#[derive(Debug)]
pub struct FrozenOptions {
    /// The output path: `-` for the standard output.
    pub output: String,
    /// Whether to add unit tests to the generated code.
    pub test: bool,
    /// Whether to leave an output file untouched when its contents do not
    /// change.
    pub update: bool,
    /// Whether to write every module in a file of its own.
    pub separate_files: bool,
}

/// The separate-files option: the caller's, else the main object's, else
/// the default.
pub open spec fn spec_separate_files(opts: CodegenOptions, spec: Spec) -> bool {
    match opts.separate_files {
        Some(v) => v,
        None => flag_or(spec.main.separate_files, DEFAULT_SEPARATE_FILES),
    }
}

/// The output of a run, given the path `p` that [crate::spec::MainSpec::output]
/// gives and whether it is an existing directory: the standard output
/// stays as it is; a directory gets the file [IMPLICIT_FILENAME] joined
/// onto it (see [joined_onto]; what the join gives is stated for a plain
/// `p`); any other path is the output itself.
pub open spec fn spec_frozen_output(p: Seq<char>, output_is_dir: bool, output: Seq<char>) -> bool {
    if p == STDOUT_PATH@ {
        output == STDOUT_PATH@
    } else if output_is_dir {
        is_plain_path(p) ==> joined_onto(p, IMPLICIT_FILENAME@, output)
    } else {
        output == p
    }
}

/// The output of a run: the caller's output path wins over the main
/// object's, and the path that [crate::spec::MainSpec::output] gives for
/// it is frozen by [spec_frozen_output].
pub open spec fn spec_output_of(
    opts: CodegenOptions,
    spec: Spec,
    output_is_dir: bool,
    output: Seq<char>,
) -> bool {
    exists|p: Seq<char>|
        #[trigger] spec.main.spec_output(spec.path@, opt_view(opts.output), p) && spec_frozen_output(
            p,
            output_is_dir,
            output,
        )
}

impl FrozenOptions {
    /// Freezes the options of a run over `spec`.
    ///
    /// The output path is the one that [crate::spec::MainSpec::output]
    /// gives; `output_is_dir` tells whether that path is an existing
    /// directory, in which case the output goes to the file
    /// [IMPLICIT_FILENAME] in it.
    pub fn new(opts: &CodegenOptions, spec: &Spec, output_is_dir: bool) -> (res: Result<
        FrozenOptions,
        TbError,
    >)
        ensures
            res is Ok,
            res matches Ok(f) ==> f.test == flag_or(opts.test, DEFAULT_TEST),
            res matches Ok(f) ==> f.update == flag_or(opts.update, DEFAULT_UPDATE_MODE),
            res matches Ok(f) ==> f.separate_files == spec_separate_files(*opts, *spec),
            res matches Ok(f) ==> spec_output_of(*opts, *spec, output_is_dir, f.output@),
    {
        let output = match Self::output_path(opts, spec, output_is_dir) {
            Ok(o) => o,
            Err(e) => return Err(e),
        };
        let test = match opts.test {
            Some(v) => v,
            None => DEFAULT_TEST,
        };
        let update = match opts.update {
            Some(v) => v,
            None => DEFAULT_UPDATE_MODE,
        };
        let separate_files = match opts.separate_files {
            Some(v) => v,
            None => match spec.main.separate_files {
                Some(v) => v,
                None => DEFAULT_SEPARATE_FILES,
            },
        };
        Ok(FrozenOptions { output, test, update, separate_files })
    }

    fn output_path(opts: &CodegenOptions, spec: &Spec, output_is_dir: bool) -> (res: Result<
        String,
        TbError,
    >)
        ensures
            res is Ok,
            res matches Ok(o) ==> spec_output_of(*opts, *spec, output_is_dir, o@),
    {
        let op = match spec.main.output(spec.path.as_str(), opt_str(&opts.output)) {
            Ok(o) => o,
            Err(e) => return Err(e),
        };
        assert(spec.main.spec_output(spec.path@, opt_view(opts.output), op@));
        if str_eq(op.as_str(), STDOUT_PATH) {
            return Ok(op);
        }
        if output_is_dir {
            let f = path_join(op.as_str(), IMPLICIT_FILENAME);
            proof {
                reveal_strlit("tighterror.rs");
            }
            return Ok(f);
        }
        Ok(op)
    }
}

fn opt_str(o: &Option<String>) -> (res: Option<&str>)
    ensures
        match o {
            Some(s) => res matches Some(r) && r@ == s@,
            None => res is None,
        },
{
    match o {
        Some(s) => Some(s.as_str()),
        None => None,
    }
}

} // verus!
