//! Code generation support.

pub mod formatter;
pub mod frozen_options;
pub mod generator;
pub mod idents;
pub mod options;

use crate::coder::frozen_options::FrozenOptions;
use crate::coder::generator::CodeUnit;
use crate::common::text::{concat, str_eq};
use crate::spec::definitions::STDOUT_PATH;
use crate::common::paths::{is_plain_path, is_relative_path, joined_onto, path_join};
use vstd::prelude::*;

verus! {

/// The extension of the files of separately written modules.
pub const RUST_FILE_EXTENSION: &'static str = "rs";

/// Where the generated code goes.
#[derive(Copy, Clone, Debug, PartialEq, Eq, Structural)]
pub enum OutputMode {
    /// To the standard output.
    Stdout,
    /// To files, each left untouched when its contents do not change.
    Update,
    /// To files, each overwritten.
    Write,
}

/// Returns where the generated code goes: the standard output when the
/// output path is `-`, else files, updated or overwritten as the options
/// say.
pub fn output_mode(frozen: &FrozenOptions) -> (res: OutputMode)
    ensures
        frozen.output@ == STDOUT_PATH@ ==> res == OutputMode::Stdout,
        frozen.output@ != STDOUT_PATH@ && frozen.update ==> res == OutputMode::Update,
        frozen.output@ != STDOUT_PATH@ && !frozen.update ==> res == OutputMode::Write,
{
    if str_eq(frozen.output.as_str(), STDOUT_PATH) {
        OutputMode::Stdout
    } else if frozen.update {
        OutputMode::Update
    } else {
        OutputMode::Write
    }
}

/// The file name of a unit written in a file of its own: its name with the
/// Rust file extension.
pub open spec fn unit_file_name(name: Seq<char>) -> Seq<char> {
    name + "."@ + RUST_FILE_EXTENSION@
}

/// Returns the file path of each output unit: the output path itself for
/// the single unit of a run without separate files, else the unit's name
/// with the Rust file extension in the output directory.
pub fn unit_paths(frozen: &FrozenOptions, units: &Vec<CodeUnit>) -> (res: Vec<String>)
    requires
        !frozen.separate_files ==> units@.len() == 1,
    ensures
        res@.len() == units@.len(),
        !frozen.separate_files ==> res@[0]@ == frozen.output@,
        frozen.separate_files ==> forall|i: int|
            0 <= i < units@.len() && is_plain_path(frozen.output@) && is_relative_path(
                #[trigger] unit_file_name(units@[i].name@),
            ) ==> joined_onto(frozen.output@, unit_file_name(units@[i].name@), res@[i]@),
{
    let mut res: Vec<String> = Vec::new();
    if !frozen.separate_files {
        res.push(frozen.output.clone());
        return res;
    }
    let mut i: usize = 0;
    while i < units.len()
        invariant
            i <= units@.len(),
            res@.len() == i,
            frozen.separate_files,
            forall|j: int|
                0 <= j < i && is_plain_path(frozen.output@) && is_relative_path(
                    #[trigger] unit_file_name(units@[j].name@),
                ) ==> joined_onto(frozen.output@, unit_file_name(units@[j].name@), res@[j]@),
        decreases units@.len() - i,
    {
        let file = concat(units[i].name.as_str(), ".");
        let file = concat(file.as_str(), RUST_FILE_EXTENSION);
        proof {
            reveal_strlit(".");
            reveal_strlit("rs");
        }
        res.push(path_join(frozen.output.as_str(), file.as_str()));
        i += 1;
    }
    res
}

/// What becomes of a freshly written and formatted temporary file in update
/// mode.
#[derive(Copy, Clone, Debug, PartialEq, Eq, Structural)]
pub enum UpdateAction {
    /// The output file keeps its contents; the temporary file is removed.
    Keep,
    /// The temporary file replaces the output file.
    Replace,
}

/// Decides the fate of the temporary file from the contents of the output
/// file and of the temporary file: the output file is replaced only when
/// they differ.
pub fn update_action(existing: &str, new: &str) -> (res: UpdateAction)
    ensures
        res == UpdateAction::Replace <==> existing@ != new@,
{
    if str_eq(existing, new) {
        UpdateAction::Keep
    } else {
        UpdateAction::Replace
    }
}

} // verus!
