//! General category error kind constants.

use crate::errors::TbErrorKind;
use vstd::prelude::*;

verus! {

/// Specification is invalid.
pub const BAD_SPEC: TbErrorKind = TbErrorKind::BadSpec;

/// TOML deserialization has failed.
pub const BAD_TOML: TbErrorKind = TbErrorKind::BadToml;

/// YAML deserialization has failed.
pub const BAD_YAML: TbErrorKind = TbErrorKind::BadYaml;

/// Specification filename extension is not supported or is missing.
pub const BAD_SPEC_FILE_EXTENSION: TbErrorKind = TbErrorKind::BadSpecFileExtension;

/// Specification file couldn't be opened.
pub const FAILED_TO_OPEN_SPEC_FILE: TbErrorKind = TbErrorKind::FailedToOpenSpecFile;

/// Specification file couldn't be found.
pub const SPEC_FILE_NOT_FOUND: TbErrorKind = TbErrorKind::SpecFileNotFound;

/// A path is invalid.
pub const BAD_PATH: TbErrorKind = TbErrorKind::BadPath;

/// At least one category must be defined.
pub const CATEGORY_REQUIRED: TbErrorKind = TbErrorKind::CategoryRequired;

/// At least one error must be defined.
pub const ERROR_REQUIRED: TbErrorKind = TbErrorKind::ErrorRequired;

/// The number of required bits exceeds the largest supported type u64.
pub const TOO_MANY_BITS: TbErrorKind = TbErrorKind::TooManyBits;

/// Generated code tokens couldn't be parsed.
pub const FAILED_TO_PARSE_TOKENS: TbErrorKind = TbErrorKind::FailedToParseTokens;

/// Output file couldn't be read.
pub const FAILED_TO_READ_OUTPUT_FILE: TbErrorKind = TbErrorKind::FailedToReadOutputFile;

/// Output file couldn't be written.
pub const FAILED_TO_WRITE_OUTPUT_FILE: TbErrorKind = TbErrorKind::FailedToWriteOutputFile;

/// Rustfmt tool exited with an error.
pub const RUSTFMT_FAILED: TbErrorKind = TbErrorKind::RustfmtFailed;

/// Rustfmt tool wasn't found.
pub const RUSTFMT_NOT_FOUND: TbErrorKind = TbErrorKind::RustfmtNotFound;

} // verus!
