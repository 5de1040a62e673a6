//! Default values of the specification attributes.

use vstd::prelude::*;

verus! {

/// The output path that denotes the standard output.
pub const STDOUT_PATH: &'static str = "-";
/// The file written under an output directory when modules share a file.
pub const IMPLICIT_FILENAME: &'static str = "tighterror.rs";
/// The default YAML specification file path.
pub const DEFAULT_SPEC_PATH_YAML: &'static str = "tighterror.yaml";
/// The default TOML specification file path.
pub const DEFAULT_SPEC_PATH_TOML: &'static str = "tighterror.toml";

pub const DEFAULT_NO_STD: bool = false;
pub const DEFAULT_DOC_FROM_DISPLAY: bool = false;
pub const DEFAULT_ERR_INTO_RESULT: bool = true;
pub const DEFAULT_ERR_KIND_INTO_RESULT: bool = true;
pub const DEFAULT_ERROR_TRAIT: bool = true;
pub const DEFAULT_FLAT_KINDS: bool = false;
pub const DEFAULT_TEST: bool = false;
pub const DEFAULT_UPDATE_MODE: bool = false;
pub const DEFAULT_SEPARATE_FILES: bool = false;

pub const DEFAULT_MODULE_DOC: &'static str = "";
pub const DEFAULT_ERROR_STRUCT_DOC: &'static str =
    "Error type.\n\nSee the [kinds] module for error kind constants.";
pub const DEFAULT_ERROR_KIND_STRUCT_DOC: &'static str =
    "Error kind type.\n\nSee the [kinds] module for error kind constants.";
pub const DEFAULT_CATEGORY_STRUCT_DOC: &'static str =
    "Error category type.\n\nSee the [categories] module for category constants.";
pub const DEFAULT_GENERAL_CAT_DOC: &'static str = "General category.";
pub const DEFAULT_ERROR_KIND_CONST_DOC: &'static str = "";

} // verus!
