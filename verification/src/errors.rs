//! The errors of this library.
//!
//! All errors belong to the single `GENERAL` category. An error kind is a
//! small unsigned integer; with a single category no category bits are
//! needed, so the value of a kind equals its variant number.

use crate::location::Location;
use vstd::prelude::*;

pub mod categories;
pub mod kinds;

verus! {

/// The number of bits occupied by an error kind value.
pub const KIND_BITS: usize = 4;

/// The number of category bits (a single category needs none).
pub const CAT_BITS: usize = 0;

/// The largest category value.
pub const CAT_MAX: u8 = 0;

/// The largest variant value of the `GENERAL` category.
pub const VAR_MAX: u8 = 14;

/// The mask of the variant bits.
pub const VAR_MASK: u8 = 15;

/// The name of every error kind, indexed by the kind's value.
pub open spec fn spec_kind_names() -> Seq<Seq<char>> {
    seq![
        "BAD_SPEC"@, "BAD_TOML"@, "BAD_YAML"@, "BAD_SPEC_FILE_EXTENSION"@,
        "FAILED_TO_OPEN_SPEC_FILE"@, "SPEC_FILE_NOT_FOUND"@, "BAD_PATH"@,
        "CATEGORY_REQUIRED"@, "ERROR_REQUIRED"@, "TOO_MANY_BITS"@,
        "FAILED_TO_PARSE_TOKENS"@, "FAILED_TO_READ_OUTPUT_FILE"@,
        "FAILED_TO_WRITE_OUTPUT_FILE"@, "RUSTFMT_FAILED"@, "RUSTFMT_NOT_FOUND"@
    ]
}

/// The display string of every error kind, indexed by the kind's value.
pub open spec fn spec_kind_displays() -> Seq<Seq<char>> {
    seq![
        "Specification is invalid."@,
        "TOML deserialization has failed."@,
        "YAML deserialization has failed."@,
        "Specification filename extension is not supported or is missing."@,
        "Specification file couldn't be opened."@,
        "Specification file couldn't be found."@,
        "A path is invalid."@,
        "At least one category must be defined."@,
        "At least one error must be defined."@,
        "The number of required bits exceeds the largest supported type u64."@,
        "Generated code tokens couldn't be parsed."@,
        "Output file couldn't be read."@,
        "Output file couldn't be written."@,
        "Rustfmt tool exited with an error."@,
        "Rustfmt tool wasn't found."@
    ]
}

/// Error category type.
///
/// See the [categories] module for category constants.
#[derive(Copy, Clone, Debug, PartialEq, Eq, Structural, PartialOrd, Ord, Hash)]
pub enum TbErrorCategory {
    /// `GENERAL`
    General,
}

impl TbErrorCategory {
    /// The raw value of the category.
    pub open spec fn spec_value(self) -> u8 {
        0
    }

    /// Returns the name of the error category.
    pub fn name(&self) -> (res: &'static str)
        ensures
            res@ == "GENERAL"@,
    {
        "GENERAL"
    }

    /// Returns the category value as the underlying Rust type.
    pub fn value(&self) -> (res: u8)
        ensures
            res == self.spec_value(),
    {
        0
    }
}

/// Error kind type.
///
/// See the [kinds] module for error kind constants. Every kind is
/// identified by a small unsigned value (see [TbErrorKind::value]).
#[derive(Copy, Clone, Debug, PartialEq, Eq, Structural, PartialOrd, Ord, Hash)]
pub enum TbErrorKind {
    /// `BAD_SPEC`
    BadSpec,
    /// `BAD_TOML`
    BadToml,
    /// `BAD_YAML`
    BadYaml,
    /// `BAD_SPEC_FILE_EXTENSION`
    BadSpecFileExtension,
    /// `FAILED_TO_OPEN_SPEC_FILE`
    FailedToOpenSpecFile,
    /// `SPEC_FILE_NOT_FOUND`
    SpecFileNotFound,
    /// `BAD_PATH`
    BadPath,
    /// `CATEGORY_REQUIRED`
    CategoryRequired,
    /// `ERROR_REQUIRED`
    ErrorRequired,
    /// `TOO_MANY_BITS`
    TooManyBits,
    /// `FAILED_TO_PARSE_TOKENS`
    FailedToParseTokens,
    /// `FAILED_TO_READ_OUTPUT_FILE`
    FailedToReadOutputFile,
    /// `FAILED_TO_WRITE_OUTPUT_FILE`
    FailedToWriteOutputFile,
    /// `RUSTFMT_FAILED`
    RustfmtFailed,
    /// `RUSTFMT_NOT_FOUND`
    RustfmtNotFound,
}

impl TbErrorKind {
    /// The raw value of the kind: its position in the list of kinds.
    pub open spec fn spec_value(self) -> u8 {
        match self {
            TbErrorKind::BadSpec => 0,
            TbErrorKind::BadToml => 1,
            TbErrorKind::BadYaml => 2,
            TbErrorKind::BadSpecFileExtension => 3,
            TbErrorKind::FailedToOpenSpecFile => 4,
            TbErrorKind::SpecFileNotFound => 5,
            TbErrorKind::BadPath => 6,
            TbErrorKind::CategoryRequired => 7,
            TbErrorKind::ErrorRequired => 8,
            TbErrorKind::TooManyBits => 9,
            TbErrorKind::FailedToParseTokens => 10,
            TbErrorKind::FailedToReadOutputFile => 11,
            TbErrorKind::FailedToWriteOutputFile => 12,
            TbErrorKind::RustfmtFailed => 13,
            TbErrorKind::RustfmtNotFound => 14,
        }
    }

    /// The kind that a raw value denotes, for values up to [VAR_MAX].
    pub open spec fn spec_from_value(v: u8) -> TbErrorKind {
        if v == 0 { TbErrorKind::BadSpec }
        else if v == 1 { TbErrorKind::BadToml }
        else if v == 2 { TbErrorKind::BadYaml }
        else if v == 3 { TbErrorKind::BadSpecFileExtension }
        else if v == 4 { TbErrorKind::FailedToOpenSpecFile }
        else if v == 5 { TbErrorKind::SpecFileNotFound }
        else if v == 6 { TbErrorKind::BadPath }
        else if v == 7 { TbErrorKind::CategoryRequired }
        else if v == 8 { TbErrorKind::ErrorRequired }
        else if v == 9 { TbErrorKind::TooManyBits }
        else if v == 10 { TbErrorKind::FailedToParseTokens }
        else if v == 11 { TbErrorKind::FailedToReadOutputFile }
        else if v == 12 { TbErrorKind::FailedToWriteOutputFile }
        else if v == 13 { TbErrorKind::RustfmtFailed }
        else { TbErrorKind::RustfmtNotFound }
    }

    /// Returns the error category.
    pub fn category(&self) -> (res: TbErrorCategory)
        ensures
            res.spec_value() == CAT_MAX,
    {
        TbErrorCategory::General
    }

    /// Returns the error kind name.
    pub fn name(&self) -> (res: &'static str)
        ensures
            res@ == spec_kind_names()[self.spec_value() as int],
    {
        match self {
            TbErrorKind::BadSpec => "BAD_SPEC",
            TbErrorKind::BadToml => "BAD_TOML",
            TbErrorKind::BadYaml => "BAD_YAML",
            TbErrorKind::BadSpecFileExtension => "BAD_SPEC_FILE_EXTENSION",
            TbErrorKind::FailedToOpenSpecFile => "FAILED_TO_OPEN_SPEC_FILE",
            TbErrorKind::SpecFileNotFound => "SPEC_FILE_NOT_FOUND",
            TbErrorKind::BadPath => "BAD_PATH",
            TbErrorKind::CategoryRequired => "CATEGORY_REQUIRED",
            TbErrorKind::ErrorRequired => "ERROR_REQUIRED",
            TbErrorKind::TooManyBits => "TOO_MANY_BITS",
            TbErrorKind::FailedToParseTokens => "FAILED_TO_PARSE_TOKENS",
            TbErrorKind::FailedToReadOutputFile => "FAILED_TO_READ_OUTPUT_FILE",
            TbErrorKind::FailedToWriteOutputFile => "FAILED_TO_WRITE_OUTPUT_FILE",
            TbErrorKind::RustfmtFailed => "RUSTFMT_FAILED",
            TbErrorKind::RustfmtNotFound => "RUSTFMT_NOT_FOUND",
        }
    }

    /// Returns the display string of the error kind.
    pub fn display(&self) -> (res: &'static str)
        ensures
            res@ == spec_kind_displays()[self.spec_value() as int],
    {
        match self {
            TbErrorKind::BadSpec => "Specification is invalid.",
            TbErrorKind::BadToml => "TOML deserialization has failed.",
            TbErrorKind::BadYaml => "YAML deserialization has failed.",
            TbErrorKind::BadSpecFileExtension => "Specification filename extension is not supported or is missing.",
            TbErrorKind::FailedToOpenSpecFile => "Specification file couldn't be opened.",
            TbErrorKind::SpecFileNotFound => "Specification file couldn't be found.",
            TbErrorKind::BadPath => "A path is invalid.",
            TbErrorKind::CategoryRequired => "At least one category must be defined.",
            TbErrorKind::ErrorRequired => "At least one error must be defined.",
            TbErrorKind::TooManyBits => "The number of required bits exceeds the largest supported type u64.",
            TbErrorKind::FailedToParseTokens => "Generated code tokens couldn't be parsed.",
            TbErrorKind::FailedToReadOutputFile => "Output file couldn't be read.",
            TbErrorKind::FailedToWriteOutputFile => "Output file couldn't be written.",
            TbErrorKind::RustfmtFailed => "Rustfmt tool exited with an error.",
            TbErrorKind::RustfmtNotFound => "Rustfmt tool wasn't found.",
        }
    }

    /// Returns the error kind value as the underlying Rust type.
    pub fn value(&self) -> (res: u8)
        ensures
            res == self.spec_value(),
            res <= VAR_MAX,
    {
        match self {
            TbErrorKind::BadSpec => 0,
            TbErrorKind::BadToml => 1,
            TbErrorKind::BadYaml => 2,
            TbErrorKind::BadSpecFileExtension => 3,
            TbErrorKind::FailedToOpenSpecFile => 4,
            TbErrorKind::SpecFileNotFound => 5,
            TbErrorKind::BadPath => 6,
            TbErrorKind::CategoryRequired => 7,
            TbErrorKind::ErrorRequired => 8,
            TbErrorKind::TooManyBits => 9,
            TbErrorKind::FailedToParseTokens => 10,
            TbErrorKind::FailedToReadOutputFile => 11,
            TbErrorKind::FailedToWriteOutputFile => 12,
            TbErrorKind::RustfmtFailed => 13,
            TbErrorKind::RustfmtNotFound => 14,
        }
    }

    /// Creates an error kind from a raw value of the underlying Rust type.
    ///
    /// Returns `None` when `value` does not denote a defined error kind.
    pub fn from_value(value: u8) -> (res: Option<TbErrorKind>)
        ensures
            res is Some <==> value <= VAR_MAX,
            res matches Some(k) ==> k == Self::spec_from_value(value) && k.spec_value() == value,
    {
        if value == 0 { Some(TbErrorKind::BadSpec) }
        else if value == 1 { Some(TbErrorKind::BadToml) }
        else if value == 2 { Some(TbErrorKind::BadYaml) }
        else if value == 3 { Some(TbErrorKind::BadSpecFileExtension) }
        else if value == 4 { Some(TbErrorKind::FailedToOpenSpecFile) }
        else if value == 5 { Some(TbErrorKind::SpecFileNotFound) }
        else if value == 6 { Some(TbErrorKind::BadPath) }
        else if value == 7 { Some(TbErrorKind::CategoryRequired) }
        else if value == 8 { Some(TbErrorKind::ErrorRequired) }
        else if value == 9 { Some(TbErrorKind::TooManyBits) }
        else if value == 10 { Some(TbErrorKind::FailedToParseTokens) }
        else if value == 11 { Some(TbErrorKind::FailedToReadOutputFile) }
        else if value == 12 { Some(TbErrorKind::FailedToWriteOutputFile) }
        else if value == 13 { Some(TbErrorKind::RustfmtFailed) }
        else if value == 14 { Some(TbErrorKind::RustfmtNotFound) }
        else { None }
    }
}

} // verus!

verus! {

/// Error type.
///
/// See the [kinds] module for error kind constants.
#[derive(Copy, Clone, Debug, PartialEq, Eq, Structural)]
pub struct TbError(pub TbErrorKind);

impl TbError {
    /// The kind carried by the error.
    pub open spec fn spec_kind(self) -> TbErrorKind {
        self.0
    }

    /// Returns the error kind.
    pub fn kind(&self) -> (res: TbErrorKind)
        ensures
            res == self.spec_kind(),
    {
        self.0
    }

    /// Returns the error origin location, which is always undefined.
    pub fn location(&self) -> (res: Location)
        ensures
            res.file@.len() == 0,
            res.line == 0,
    {
        Location::undefined()
    }

    /// Returns the display string of the error: that of its kind.
    pub fn display(&self) -> (res: &'static str)
        ensures
            res@ == spec_kind_displays()[self.spec_kind().spec_value() as int],
    {
        self.0.display()
    }

    /// Creates an error of the given kind.
    pub fn new(kind: TbErrorKind) -> (res: TbError)
        ensures
            res.spec_kind() == kind,
    {
        TbError(kind)
    }
}

impl From<TbErrorKind> for TbError {
    fn from(kind: TbErrorKind) -> (res: TbError) {
        TbError(kind)
    }
}

impl vstd::std_specs::convert::FromSpecImpl<TbErrorKind> for TbError {
    open spec fn obeys_from_spec() -> bool {
        true
    }

    open spec fn from_spec(kind: TbErrorKind) -> TbError {
        TbError(kind)
    }
}

impl<T> From<TbErrorKind> for Result<T, TbError> {
    fn from(kind: TbErrorKind) -> (res: Result<T, TbError>) {
        Err(TbError(kind))
    }
}

impl<T> vstd::std_specs::convert::FromSpecImpl<TbErrorKind> for Result<T, TbError> {
    open spec fn obeys_from_spec() -> bool {
        true
    }

    open spec fn from_spec(kind: TbErrorKind) -> Result<T, TbError> {
        Err(TbError(kind))
    }
}

impl<T> From<TbError> for Result<T, TbError> {
    fn from(err: TbError) -> (res: Result<T, TbError>) {
        Err(err)
    }
}

impl<T> vstd::std_specs::convert::FromSpecImpl<TbError> for Result<T, TbError> {
    open spec fn obeys_from_spec() -> bool {
        true
    }

    open spec fn from_spec(err: TbError) -> Result<T, TbError> {
        Err(err)
    }
}

/// `r` failed with an error of kind `kind`.
pub open spec fn fails_with<T>(r: Result<T, TbError>, kind: TbErrorKind) -> bool {
    r matches Err(e) && e.spec_kind() == kind
}

/// Every error kind is found again from its value, and its value fits the
/// variant bits: the value of a kind names exactly that kind.
pub proof fn lemma_kind_value_round_trip(k: TbErrorKind)
    ensures
        TbErrorKind::spec_from_value(k.spec_value()) == k,
        k.spec_value() <= VAR_MAX,
        k.spec_value() < 16,
{
}

/// Two error kinds with the same value are the same kind.
pub proof fn lemma_kind_values_distinct(a: TbErrorKind, b: TbErrorKind)
    ensures
        a.spec_value() == b.spec_value() ==> a == b,
{
    lemma_kind_value_round_trip(a);
    lemma_kind_value_round_trip(b);
}

/// Every error kind has a name of its own.
pub proof fn lemma_kind_names_distinct(a: TbErrorKind, b: TbErrorKind)
    ensures
        a != b ==> spec_kind_names()[a.spec_value() as int] != spec_kind_names()[
            b.spec_value() as int
        ],
{
    reveal_strlit("BAD_SPEC");
    reveal_strlit("BAD_TOML");
    reveal_strlit("BAD_YAML");
    reveal_strlit("BAD_SPEC_FILE_EXTENSION");
    reveal_strlit("FAILED_TO_OPEN_SPEC_FILE");
    reveal_strlit("SPEC_FILE_NOT_FOUND");
    reveal_strlit("BAD_PATH");
    reveal_strlit("CATEGORY_REQUIRED");
    reveal_strlit("ERROR_REQUIRED");
    reveal_strlit("TOO_MANY_BITS");
    reveal_strlit("FAILED_TO_PARSE_TOKENS");
    reveal_strlit("FAILED_TO_READ_OUTPUT_FILE");
    reveal_strlit("FAILED_TO_WRITE_OUTPUT_FILE");
    reveal_strlit("RUSTFMT_FAILED");
    reveal_strlit("RUSTFMT_NOT_FOUND");
    let names = spec_kind_names();
    if a != b {
        let i = a.spec_value() as int;
        let j = b.spec_value() as int;
        lemma_kind_values_distinct(a, b);
        assert(names[i].len() != names[j].len() || names[i][4] != names[j][4] || names[i][0]
            != names[j][0] || names[i][8] != names[j][8]);
    }
}

} // verus!
