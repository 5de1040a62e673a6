//! Checking of specification files.

use crate::errors::TbError;
use crate::parser::yaml::spec_yaml_value;
use crate::parser::yaml::YamlParser;
use crate::parser::yaml_value::yaml_document;
use crate::errors::fails_with;
use crate::errors::kinds::general::{BAD_SPEC, BAD_SPEC_FILE_EXTENSION, BAD_TOML, BAD_YAML};
use crate::common::paths::{is_plain_path, spec_path_extension};
use crate::parser::toml::{spec_toml_value, TomlParser};
use crate::parser::toml_value::toml_document;
use crate::parser::{
    not_a_document, parse_str, spec_document, spec_format, spec_format_of, SpecFormat,
};
use crate::spec::definitions::DEFAULT_SPEC_PATH_YAML;
use vstd::prelude::*;

verus! {

/// A lint level.
///
/// Denotes how harmful a lint message is.
#[derive(Copy, Clone, Debug, Eq, PartialEq, PartialOrd, Ord, Hash, Structural)]
pub enum LintLevel {
    /// definitive error
    Error,
    /// not an immediate error but may become one in a close release
    Warning,
    /// something to notice
    Notice,
}

/// A lint message.
#[derive(Debug)]
#[non_exhaustive]
pub struct LintMsg {
    /// The level of the message.
    pub level: LintLevel,
    /// The lint message itself.
    pub msg: String,
}

impl LintMsg {
    /// Creates an error message.
    pub fn error(msg: String) -> (res: LintMsg)
        ensures
            res.level == LintLevel::Error,
            res.msg == msg,
    {
        LintMsg { level: LintLevel::Error, msg }
    }
}

/// A lint report.
///
/// A lint report represents a list of lint messages generated during
/// parsing or linting of a specification file.
#[derive(Debug, Default)]
pub struct LintReport {
    msgs: Vec<LintMsg>,
}

impl LintReport {
    /// The messages of the report, in the order they were added.
    pub closed spec fn spec_messages(&self) -> Seq<LintMsg> {
        self.msgs@
    }

    /// Returns the list of lint messages.
    pub fn messages(&self) -> (res: &[LintMsg])
        ensures
            res@ == self.spec_messages(),
    {
        self.msgs.as_slice()
    }

    /// Creates an empty report.
    pub fn new() -> (res: Self)
        ensures
            res.spec_messages().len() == 0,
    {
        LintReport { msgs: Vec::new() }
    }

    /// Returns whether the report has no message.
    pub fn is_empty(&self) -> (res: bool)
        ensures
            res == (self.spec_messages().len() == 0),
    {
        self.msgs.len() == 0
    }

    /// Adds an error message.
    pub fn error(&mut self, msg: String)
        ensures
            final(self).spec_messages().len() == old(self).spec_messages().len() + 1,
            final(self).spec_messages().drop_last() == old(self).spec_messages(),
            final(self).spec_messages().last().level == LintLevel::Error,
            final(self).spec_messages().last().msg == msg,
    {
        self.msgs.push(LintMsg::error(msg));
    }

    /// Creates a report with a single error message.
    pub fn from_error(msg: String) -> (res: Self)
        ensures
            res.spec_messages().len() == 1,
            res.spec_messages()[0].level == LintLevel::Error,
            res.spec_messages()[0].msg == msg,
    {
        let mut r = Self::new();
        r.error(msg);
        r
    }
}

/// The linter of YAML specifications.
#[derive(Debug)]
pub struct YamlLinter;

impl YamlLinter {
    /// Lints the text of a YAML specification.
    ///
    /// The text is parsed; a specification that parses gets an empty
    /// report, and one that does not fails as [YamlParser::parse_str] does.
    pub fn from_str(text: &str) -> (res: Result<LintReport, TbError>)
        ensures
            match yaml_document(text@) {
                None => fails_with(res, BAD_YAML),
                Some(v) => match spec_yaml_value(v) {
                    Some(_) => res matches Ok(r) && r.spec_messages().len() == 0,
                    None => fails_with(res, crate::errors::kinds::general::BAD_SPEC),
                },
            },
    {
        match YamlParser::parse_str(text) {
            Ok(_) => Ok(LintReport::new()),
            Err(e) => Err(e),
        }
    }
}

/// The linter of TOML specifications.
#[derive(Debug)]
pub struct TomlLinter;

impl TomlLinter {
    /// Lints the text of a TOML specification.
    ///
    /// The text is parsed; a specification that parses gets an empty
    /// report, and one that does not fails as [TomlParser::parse_str] does.
    pub fn from_str(text: &str) -> (res: Result<LintReport, TbError>)
        ensures
            match toml_document(text@) {
                None => fails_with(res, BAD_TOML),
                Some(v) => match spec_toml_value(v) {
                    Some(_) => res matches Ok(r) && r.spec_messages().len() == 0,
                    None => fails_with(res, BAD_SPEC),
                },
            },
    {
        match TomlParser::parse_str(text) {
            Ok(_) => Ok(LintReport::new()),
            Err(e) => Err(e),
        }
    }
}

/// What linting a text in `format` gives: the error of a text that is no
/// document, `BAD_SPEC` for a document that is no valid specification, and
/// an empty report for a valid one.
pub open spec fn spec_lint(format: SpecFormat, text: Seq<char>, res: Result<LintReport, TbError>) -> bool {
    match spec_document(format, text) {
        None => fails_with(res, not_a_document(format)),
        Some(None) => fails_with(res, BAD_SPEC),
        Some(Some(_)) => res matches Ok(r) && r.spec_messages().len() == 0,
    }
}

/// The path of the specification file that [lint] checks: the given one,
/// else the default YAML file.
pub open spec fn lint_path(spec: Option<Seq<char>>) -> Seq<char> {
    match spec {
        Some(p) => p,
        None => DEFAULT_SPEC_PATH_YAML@,
    }
}

/// Checks the text of the specification file at `spec` (the default YAML
/// file when none is given) for errors.
///
/// The markup language comes from the file name extension (see
/// [spec_format]); an unsupported or missing extension fails with
/// `BAD_SPEC_FILE_EXTENSION`.
pub fn lint(spec: Option<&str>, text: &str) -> (res: Result<LintReport, TbError>)
    ensures
        is_plain_path(lint_path(spec_opt_view(spec))) ==> match spec_format_of(
            spec_path_extension(lint_path(spec_opt_view(spec))),
        ) {
            Some(f) => spec_lint(f, text@, res),
            None => fails_with(res, BAD_SPEC_FILE_EXTENSION),
        },
        res is Err ==> (fails_with(res, BAD_SPEC_FILE_EXTENSION) || exists|f: SpecFormat|
            #[trigger] spec_lint(f, text@, res)),
        res matches Ok(r) ==> r.spec_messages().len() == 0,
{
    let path = match spec {
        Some(p) => p,
        None => DEFAULT_SPEC_PATH_YAML,
    };
    let format = match spec_format(path) {
        Ok(f) => f,
        Err(e) => return Err(e),
    };
    let res = match parse_str(format, text) {
        Ok(_) => Ok(LintReport::new()),
        Err(e) => Err(e),
    };
    assert(spec_lint(format, text@, res));
    res
}

/// The view of an optional string slice.
pub open spec fn spec_opt_view(o: Option<&str>) -> Option<Seq<char>> {
    match o {
        Some(s) => Some(s@),
        None => None,
    }
}

} // verus!
