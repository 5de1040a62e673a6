//! Parsing of specification files.

pub mod document;
pub mod helpers;
pub mod kws;
pub mod toml;
pub mod toml_value;
pub mod yaml;
pub mod yaml_value;

use crate::errors::kinds::general::{
    BAD_SPEC, BAD_SPEC_FILE_EXTENSION, BAD_TOML, BAD_YAML, SPEC_FILE_NOT_FOUND,
};
use crate::errors::{fails_with, TbError};
use crate::common::paths::{is_plain_path, spec_path_extension};
use crate::common::text::{opt_view, str_eq, to_string};
use crate::spec::definitions::{DEFAULT_SPEC_PATH_TOML, DEFAULT_SPEC_PATH_YAML};
use crate::spec::{Spec, SpecModel};
use self::toml::{spec_toml_value, TomlParser};
use self::toml_value::toml_document;
use self::yaml::{spec_yaml_value, YamlParser};
use self::yaml_value::yaml_document;
use vstd::prelude::*;

verus! {

/// How an object is parsed: as a root-level attribute of its own, or as an
/// item of a list.
#[derive(Copy, Clone, Debug, PartialEq, Eq, Structural)]
pub enum ParseMode {
    Single,
    List,
}

/// The markup languages of specification files.
#[derive(Copy, Clone, Debug, PartialEq, Eq, Structural)]
pub enum SpecFormat {
    Yaml,
    Toml,
}

/// The format that a file name extension denotes: `yaml` and `toml` only.
pub open spec fn spec_format_of(ext: Option<Seq<char>>) -> Option<SpecFormat> {
    match ext {
        Some(e) => if e == "yaml"@ {
            Some(SpecFormat::Yaml)
        } else if e == "toml"@ {
            Some(SpecFormat::Toml)
        } else {
            None
        },
        None => None,
    }
}

/// Returns the format that a file name extension denotes, and fails with
/// `BAD_SPEC_FILE_EXTENSION` for a missing or unsupported extension.
pub fn format_for_extension(ext: Option<&str>) -> (res: Result<SpecFormat, TbError>)
    ensures
        match spec_format_of(
            match ext {
                Some(e) => Some(e@),
                None => None,
            },
        ) {
            Some(f) => res == Ok::<SpecFormat, TbError>(f),
            None => fails_with(res, BAD_SPEC_FILE_EXTENSION),
        },
{
    proof {
        reveal_strlit("yaml");
        reveal_strlit("toml");
    }
    match ext {
        Some(e) => {
            if str_eq(e, "yaml") {
                Ok(SpecFormat::Yaml)
            } else if str_eq(e, "toml") {
                Ok(SpecFormat::Toml)
            } else {
                Err(TbError::new(BAD_SPEC_FILE_EXTENSION))
            }
        },
        None => Err(TbError::new(BAD_SPEC_FILE_EXTENSION)),
    }
}

/// Returns the extension of the file name of `path` with
/// `std::path::Path::extension`, as a string.
///
/// The contract claims what the documentation of `Path::extension` gives
/// for a plain path (see [is_plain_path]), whose file name (its final
/// component, unless that is `..`) is the same on every platform (see
/// [crate::common::paths::spec_file_name]): nothing when there is no file
/// name, when it has no `.` or when its only `.` starts it, else what
/// follows its last `.` (see [crate::common::paths::spec_path_extension]).
/// Of other paths nothing is claimed: how they split into components
/// depends on the platform.
#[verifier::external_body]
fn path_extension(path: &str) -> (res: Option<String>)
    ensures
        is_plain_path(path@) ==> opt_view(res) == spec_path_extension(path@),
{
    std::path::Path::new(path).extension().map(|e| e.to_string_lossy().into_owned())
}

/// Returns the format of the specification file at `path`, from its
/// extension (see [format_for_extension]).
pub fn spec_format(path: &str) -> (res: Result<SpecFormat, TbError>)
    ensures
        res is Err ==> fails_with(res, BAD_SPEC_FILE_EXTENSION),
        is_plain_path(path@) ==> match spec_format_of(spec_path_extension(path@)) {
            Some(f) => res == Ok::<SpecFormat, TbError>(f),
            None => fails_with(res, BAD_SPEC_FILE_EXTENSION),
        },
{
    let ext = path_extension(path);
    match &ext {
        Some(e) => format_for_extension(Some(e.as_str())),
        None => format_for_extension(None),
    }
}

/// The specification that a text in `format` describes, `None` when the
/// text is a document that is no valid specification; the inner `None`
/// stands for a text that is no document at all.
pub open spec fn spec_document(format: SpecFormat, text: Seq<char>) -> Option<Option<SpecModel>> {
    match format {
        SpecFormat::Yaml => match yaml_document(text) {
            Some(v) => Some(spec_yaml_value(v)),
            None => None,
        },
        SpecFormat::Toml => match toml_document(text) {
            Some(v) => Some(spec_toml_value(v)),
            None => None,
        },
    }
}

/// The error kind of a text in `format` that is no document.
pub open spec fn not_a_document(format: SpecFormat) -> crate::errors::TbErrorKind {
    match format {
        SpecFormat::Yaml => BAD_YAML,
        SpecFormat::Toml => BAD_TOML,
    }
}

/// Parses the text of a specification written in `format`.
///
/// A text that is no document fails with `BAD_YAML` or `BAD_TOML`, a
/// document that is no valid specification with `BAD_SPEC`.
pub fn parse_str(format: SpecFormat, text: &str) -> (res: Result<Spec, TbError>)
    ensures
        match spec_document(format, text@) {
            None => fails_with(res, not_a_document(format)),
            Some(None) => fails_with(res, BAD_SPEC),
            Some(Some(m)) => res matches Ok(s) && s@ == m,
        },
        res matches Ok(s) ==> s@.well_formed(),
{
    match format {
        SpecFormat::Yaml => YamlParser::parse_str(text),
        SpecFormat::Toml => TomlParser::parse_str(text),
    }
}

/// The result of parsing `text` as a specification in `format` at `path`:
/// the error of a text that is no document or of a document that is no
/// valid specification, else the specification, which records `path`.
pub open spec fn parsed_as(
    format: SpecFormat,
    path: Seq<char>,
    text: Seq<char>,
    res: Result<Spec, TbError>,
) -> bool {
    match spec_document(format, text) {
        None => fails_with(res, not_a_document(format)),
        Some(None) => fails_with(res, BAD_SPEC),
        Some(Some(m)) => res matches Ok(s) && s@ == (SpecModel { path, ..m }),
    }
}

/// Parses the text of the specification file at `path`, written in
/// `format`; the parsed specification records `path`.
pub fn parse_as(format: SpecFormat, path: &str, text: &str) -> (res: Result<Spec, TbError>)
    ensures
        parsed_as(format, path@, text@, res),
        res matches Ok(s) ==> s@.well_formed(),
{
    let mut spec = match parse_str(format, text) {
        Ok(s) => s,
        Err(e) => return Err(e),
    };
    spec.path = to_string(path);
    Ok(spec)
}

/// Parses the text of the specification file at `path`: the format comes
/// from the file name extension (see [spec_format]), and the parsed
/// specification records `path`.
pub fn parse(path: &str, text: &str) -> (res: Result<Spec, TbError>)
    ensures
        res matches Ok(s) ==> s.path@ == path@ && s@.well_formed(),
        res matches Ok(s) ==> exists|f: SpecFormat|
            #[trigger] spec_document(f, text@) == Some(Some(SpecModel { path: Seq::empty(), ..s@ })),
        is_plain_path(path@) ==> match spec_format_of(spec_path_extension(path@)) {
            Some(f) => parsed_as(f, path@, text@, res),
            None => fails_with(res, BAD_SPEC_FILE_EXTENSION),
        },
{
    let format = match spec_format(path) {
        Ok(f) => f,
        Err(e) => return Err(e),
    };
    let res = parse_as(format, path, text);
    proof {
        if res is Ok {
            let s = res->Ok_0;
            assert(spec_document(format, text@) == Some(Some(SpecModel { path: Seq::empty(), ..s@ })));
        }
    }
    res
}

/// Chooses the specification file: the given path, else the default YAML
/// file when it exists, else the default TOML file when it exists;
/// `SPEC_FILE_NOT_FOUND` when there is none.
pub fn spec_file_path(spec: Option<&str>, yaml_is_file: bool, toml_is_file: bool) -> (res: Result<
    String,
    TbError,
>)
    ensures
        spec matches Some(p) ==> res matches Ok(r) && r@ == p@,
        spec is None && yaml_is_file ==> (res matches Ok(r) && r@ == DEFAULT_SPEC_PATH_YAML@),
        spec is None && !yaml_is_file && toml_is_file ==> (res matches Ok(r) && r@
            == DEFAULT_SPEC_PATH_TOML@),
        spec is None && !yaml_is_file && !toml_is_file ==> fails_with(res, SPEC_FILE_NOT_FOUND),
{
    if let Some(p) = spec {
        return Ok(to_string(p));
    }
    if yaml_is_file {
        return Ok(to_string(DEFAULT_SPEC_PATH_YAML));
    }
    if toml_is_file {
        return Ok(to_string(DEFAULT_SPEC_PATH_TOML));
    }
    Err(TbError::new(SPEC_FILE_NOT_FOUND))
}

} // verus!
