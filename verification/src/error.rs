//! The typed failures of the decoder.
//!
//! Unrecognized keys inside a known section are not errors (they are
//! swallowed for forward compatibility); everything here aborts the parse
//! and is handed to the caller with the line it came from.
use vstd::prelude::*;
use crate::file_sections::FileSections;

verus! {

/// What went wrong on one content line.
#[derive(Debug, Clone, PartialEq)]
pub enum ErrorKind {
    /// A content line has no `:` separator.
    MissingColon,
    /// A value could not be read as the expected numeric type; carries the
    /// recognized key and the offending trimmed value.
    NumericConversionFailed { key: String, value: String },
    /// A value matched no code or name of its enumeration; carries the
    /// enumeration's name and the offending value.
    UnknownEnumerationValue { enumeration: String, value: String },
    /// The line was routed to a section whose parser is not implemented.
    UnsupportedSection { section: FileSections },
}

/// The mathematical image of an [`ErrorKind`].
pub ghost enum ErrorKindModel {
    MissingColon,
    NumericConversionFailed { key: Seq<char>, value: Seq<char> },
    UnknownEnumerationValue { enumeration: Seq<char>, value: Seq<char> },
    UnsupportedSection { section: FileSections },
}

impl View for ErrorKind {
    type V = ErrorKindModel;

    open spec fn view(&self) -> ErrorKindModel {
        match self {
            ErrorKind::MissingColon => ErrorKindModel::MissingColon,
            ErrorKind::NumericConversionFailed { key, value } =>
                ErrorKindModel::NumericConversionFailed { key: key@, value: value@ },
            ErrorKind::UnknownEnumerationValue { enumeration, value } =>
                ErrorKindModel::UnknownEnumerationValue {
                    enumeration: enumeration@,
                    value: value@,
                },
            ErrorKind::UnsupportedSection { section } => ErrorKindModel::UnsupportedSection {
                section: *section,
            },
        }
    }
}

/// A decoding failure with its source context: the 1-based number and the
/// raw text of the line on which decoding stopped.
#[derive(Debug, Clone, PartialEq)]
pub struct ParseError {
    pub line_number: usize,
    pub line: String,
    pub kind: ErrorKind,
}

/// The mathematical image of a [`ParseError`].
pub ghost struct ParseErrorModel {
    pub line_number: int,
    pub line: Seq<char>,
    pub kind: ErrorKindModel,
}

impl View for ParseError {
    type V = ParseErrorModel;

    open spec fn view(&self) -> ParseErrorModel {
        ParseErrorModel {
            line_number: self.line_number as int,
            line: self.line@,
            kind: self.kind@,
        }
    }
}

} // verus!
