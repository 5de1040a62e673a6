//! Error objects.

use crate::common::casing::{self, case_converted, Case};
use crate::common::text::opt_view;
use vstd::prelude::*;

verus! {

/// Attributes that an error inherits from its category or module unless it
/// defines them itself.
#[derive(Clone, Debug, Default, PartialEq, Eq)]
pub struct OverridableErrorSpec {
    /// Use the display string as the doc comment.
    pub doc_from_display: Option<bool>,
}

/// An error object.
#[derive(Clone, Debug, Default, PartialEq, Eq)]
pub struct ErrorSpec {
    /// The error name.
    pub name: String,
    /// The display string.
    pub display: Option<String>,
    /// The doc comment of the error kind constant.
    pub doc: Option<String>,
    /// Attributes inherited from higher levels unless set here.
    pub oes: OverridableErrorSpec,
}

/// The mathematical value of an [ErrorSpec].
pub struct ErrorModel {
    pub name: Seq<char>,
    pub display: Option<Seq<char>>,
    pub doc: Option<Seq<char>>,
    pub doc_from_display: Option<bool>,
}

impl View for ErrorSpec {
    type V = ErrorModel;

    open spec fn view(&self) -> ErrorModel {
        ErrorModel {
            name: self.name@,
            display: opt_view(self.display),
            doc: opt_view(self.doc),
            doc_from_display: self.oes.doc_from_display,
        }
    }
}

/// The models of a list of errors.
pub open spec fn errors_view(v: Seq<ErrorSpec>) -> Seq<ErrorModel> {
    v.map_values(|e: ErrorSpec| e@)
}

/// The names of a list of errors.
pub open spec fn error_names(errs: Seq<ErrorModel>) -> Seq<Seq<char>> {
    errs.map_values(|e: ErrorModel| e.name)
}

impl ErrorSpec {
    /// Creates an error object with the given name and no other attribute.
    pub fn with_name(name: String) -> (res: ErrorSpec)
        ensures
            res@ == (ErrorModel { name: name@, display: None, doc: None, doc_from_display: None }),
    {
        ErrorSpec {
            name,
            display: None,
            doc: None,
            oes: OverridableErrorSpec { doc_from_display: None },
        }
    }

    /// Returns the name of the error's variant type: the error name
    /// converted from UPPER_SNAKE_CASE to UpperCamelCase.
    pub fn variant_type_name(&self) -> (res: String)
        ensures
            res@ == case_converted(self.name@, Case::UpperSnake, Case::UpperCamel),
    {
        casing::convert_case(self.name.as_str(), Case::UpperSnake, Case::UpperCamel)
    }
}

} // verus!
