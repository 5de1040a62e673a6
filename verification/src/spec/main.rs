//! The main object.

use crate::common::paths::{
    is_plain_path, is_relative_path, is_rooted_path, joined_onto, lemma_plain_parent_is_plain,
    path_is_absolute, path_join, path_parent, spec_plain_parent,
};
use crate::common::text::{opt_view, str_eq, to_string};
use crate::errors::TbError;
use crate::spec::definitions::{DEFAULT_NO_STD, STDOUT_PATH};
use vstd::prelude::*;

verus! {

/// The main object: attributes that apply to the whole specification.
#[derive(Clone, Debug, Default, PartialEq, Eq)]
pub struct MainSpec {
    /// Output file path: relative to the specification file, or an
    /// absolute path.
    pub output: Option<String>,
    /// Generate code for `no_std` environment
    pub no_std: Option<bool>,
    /// Write every module in a separate file
    pub separate_files: Option<bool>,
}

/// The mathematical value of a [MainSpec].
pub struct MainModel {
    pub output: Option<Seq<char>>,
    pub no_std: Option<bool>,
    pub separate_files: Option<bool>,
}

impl View for MainSpec {
    type V = MainModel;

    open spec fn view(&self) -> MainModel {
        MainModel {
            output: opt_view(self.output),
            no_std: self.no_std,
            separate_files: self.separate_files,
        }
    }
}

/// The output path that a relative or absolute `output` resolves to, given
/// whether it is absolute and what the specification file's directory
/// joined with it gives (`None` when the specification path has no parent).
pub open spec fn spec_resolve_output(
    output: Seq<char>,
    is_absolute: bool,
    joined_with_parent: Option<Seq<char>>,
) -> Seq<char> {
    if is_absolute {
        output
    } else {
        match joined_with_parent {
            Some(j) => j,
            None => output,
        }
    }
}

/// Resolves an output path against the specification file's directory.
///
/// An absolute output stays as it is; a relative one is placed under the
/// directory of the specification file when that file has a parent.
pub fn resolve_output(output: &str, is_absolute: bool, joined_with_parent: Option<String>) -> (res:
    String)
    ensures
        res@ == spec_resolve_output(output@, is_absolute, opt_view(joined_with_parent)),
{
    if is_absolute {
        return to_string(output);
    }
    match joined_with_parent {
        Some(j) => j,
        None => to_string(output),
    }
}

/// What holds, on every platform, of the path `res` that `output`
/// resolves to against a plain specification path `spec_path` (see
/// [is_plain_path]): a relative output is joined onto the parent of the
/// specification path (see [spec_plain_parent] and [joined_onto]), or stays
/// as it is when there is no parent; an output that starts at the root
/// stays as it is.
pub open spec fn spec_resolved(spec_path: Seq<char>, output: Seq<char>, res: Seq<char>) -> bool {
    &&& is_relative_path(output) && is_plain_path(spec_path) ==> match spec_plain_parent(
        spec_path,
    ) {
        None => res == output,
        Some(q) => joined_onto(q, output, res),
    }
    &&& is_rooted_path(output) && is_plain_path(spec_path) ==> res == output
}

/// Resolves the output path against the specification file's directory
/// (see [resolve_output]): the join is handed the parent of the
/// specification path and the output.
fn output_path(spec_path: &str, output: &str) -> (res: String)
    ensures
        spec_resolved(spec_path@, output@, res@),
{
    let is_absolute = path_is_absolute(output);
    proof {
        if is_plain_path(spec_path@) {
            lemma_plain_parent_is_plain(spec_path@);
        }
    }
    let joined = if is_absolute {
        None
    } else {
        match path_parent(spec_path) {
            Some(p) => Some(path_join(p.as_str(), output)),
            None => None,
        }
    };
    resolve_output(output, is_absolute, joined)
}

/// The output path that is asked for, before it is resolved: the caller's
/// path, else the `output` attribute; `None` when neither is given or the
/// one given is a hyphen, which means the standard output.
pub open spec fn spec_output_request(path: Option<Seq<char>>, attr: Option<Seq<char>>) -> Option<
    Seq<char>,
> {
    let o = match path {
        Some(p) => Some(p),
        None => attr,
    };
    match o {
        Some(x) => if x == STDOUT_PATH@ {
            None
        } else {
            Some(x)
        },
        None => None,
    }
}

impl MainSpec {
    /// `res` is an output path that [MainSpec::output] gives: the standard
    /// output (`-`) when no path is asked for, else the path asked for,
    /// resolved against the specification file (see [spec_resolved]).
    pub open spec fn spec_output(
        &self,
        spec_path: Seq<char>,
        path: Option<Seq<char>>,
        res: Seq<char>,
    ) -> bool {
        match spec_output_request(path, opt_view(self.output)) {
            None => res == STDOUT_PATH@,
            Some(o) => spec_resolved(spec_path, o, res),
        }
    }

    /// Returns the output path.
    ///
    /// A path given by the caller wins over the `output` attribute. A
    /// hyphen, or no path at all, means the standard output (`-`); any other
    /// path is resolved against the specification file's directory (see
    /// [resolve_output]).
    pub fn output(&self, spec_path: &str, path: Option<&str>) -> (res: Result<String, TbError>)
        ensures
            res matches Ok(o) && self.spec_output(
                spec_path@,
                match path {
                    Some(p) => Some(p@),
                    None => None,
                },
                o@,
            ),
    {
        let requested: Option<&str> = match path {
            Some(p) => Some(p),
            None => match &self.output {
                Some(o) => Some(o.as_str()),
                None => None,
            },
        };
        match requested {
            Some(o) => {
                if str_eq(o, STDOUT_PATH) {
                    Ok(to_string(STDOUT_PATH))
                } else {
                    Ok(output_path(spec_path, o))
                }
            },
            None => Ok(to_string(STDOUT_PATH)),
        }
    }

    /// Returns whether code is generated for a `no_std` environment.
    pub fn no_std(&self) -> (res: bool)
        ensures
            res == match self.no_std {
                Some(v) => v,
                None => DEFAULT_NO_STD,
            },
    {
        match self.no_std {
            Some(v) => v,
            None => DEFAULT_NO_STD,
        }
    }
}

} // verus!
