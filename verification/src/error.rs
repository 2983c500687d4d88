//! The error type used throughout the library.
//!
//! Every failure maps to exactly one variant of [`Error`]. Contracts speak of
//! an error through its view, a [`Fault`], which keeps the structured context
//! (lengths, bounds, field names) and leaves out the values that come from
//! other crates.

use crate::json::JsonKind;
use vstd::prelude::*;

verus! {

/// `std::io::Error`, carried as it is: nothing is claimed of what it holds.
#[verifier::external_type_specification]
#[verifier::external_body]
pub struct ExIoError(std::io::Error);

/// `uriparse::URIReferenceError`, carried as it is: nothing is claimed of
/// what it holds.
#[verifier::external_type_specification]
#[verifier::external_body]
pub struct ExUriReferenceError(uriparse::URIReferenceError);

/// `chrono::ParseError`, carried as it is: nothing is claimed of what it
/// holds.
#[verifier::external_type_specification]
#[verifier::external_body]
pub struct ExTimestampError(chrono::ParseError);

/// Why a text is not a decimal integer.
#[derive(Clone, Copy, Debug, PartialEq, Eq, Structural)]
pub enum ParseDecimalError {
    /// A character that cannot stand where it was found.
    InvalidDigit,
    /// The text holds no digit at all.
    NoDigits,
}

/// Why a text is not a URI.
#[derive(Debug)]
pub enum InvalidUri {
    /// The text breaks the URI grammar.
    Malformed { source: uriparse::URIReferenceError },
    /// The text is a relative reference: it names no scheme.
    Relative,
}

/// What was wrong with a value that is neither a URI nor a decimal.
#[derive(Clone, Copy, Debug, PartialEq, Eq, Structural)]
pub enum ParseKind {
    /// The text is not a UUID.
    Uuid,
    /// The text is not a timestamp.
    Timestamp,
    /// The timestamp has no text form that reads back as the same instant.
    TimestampRange,
    /// The JSON value is of another kind than the one named here.
    Shape { expected: JsonKind },
    /// The number is not an integer of the expected range.
    Integer,
    /// The text is none of the names that may stand in its place.
    Tag,
    /// The payload of an event is not the one its type announces.
    Event,
}

/// The reason of a generic parse failure, with what the outside parser
/// reported where one was asked.
#[derive(Debug)]
pub enum ParseReason {
    Uuid { message: String },
    Timestamp { source: chrono::ParseError },
    TimestampRange,
    Shape { expected: JsonKind },
    Integer,
    Tag,
    Event,
}

impl View for ParseReason {
    type V = ParseKind;

    open spec fn view(&self) -> ParseKind {
        match self {
            ParseReason::Uuid { .. } => ParseKind::Uuid,
            ParseReason::Timestamp { .. } => ParseKind::Timestamp,
            ParseReason::TimestampRange => ParseKind::TimestampRange,
            ParseReason::Shape { expected } => ParseKind::Shape { expected: *expected },
            ParseReason::Integer => ParseKind::Integer,
            ParseReason::Tag => ParseKind::Tag,
            ParseReason::Event => ParseKind::Event,
        }
    }
}

/// The error type of the library.
#[allow(inconsistent_fields)]
#[derive(Debug)]
pub enum Error {
    /// Reading or writing failed.
    IO { source: std::io::Error },
    /// The text is not JSON, or the value has no JSON text; `message` says
    /// what the JSON reader or writer reported.
    JSON { message: String },
    /// The text is not a URI.
    InvalidURI { source: InvalidUri },
    /// The text is not a decimal integer.
    InvalidDecimal { source: ParseDecimalError },
    /// Another value could not be read.
    ParseError { reason: ParseReason },
    /// A text of fixed length has another length.
    InvalidLength { length: usize, expected: usize },
    /// A number lies outside its bounds.
    OutOfRange { value: i64, min: Option<i64>, max: Option<i64> },
    /// A required key is absent.
    MissingField { field: String },
    /// A key is not one of the record's keys.
    UnknownField { field: String },
}

/// What an [`Error`] says, as contracts see it.
pub ghost enum Fault {
    IO,
    JSON,
    InvalidURI,
    InvalidDecimal { source: ParseDecimalError },
    ParseError { kind: ParseKind },
    InvalidLength { length: usize, expected: usize },
    OutOfRange { value: i64, min: Option<i64>, max: Option<i64> },
    MissingField { field: Seq<char> },
    UnknownField { field: Seq<char> },
}

impl View for Error {
    type V = Fault;

    open spec fn view(&self) -> Fault {
        match self {
            Error::IO { .. } => Fault::IO,
            Error::JSON { .. } => Fault::JSON,
            Error::InvalidURI { .. } => Fault::InvalidURI,
            Error::InvalidDecimal { source } => Fault::InvalidDecimal { source: *source },
            Error::ParseError { reason } => Fault::ParseError { kind: reason@ },
            Error::InvalidLength { length, expected } => Fault::InvalidLength {
                length: *length,
                expected: *expected,
            },
            Error::OutOfRange { value, min, max } => Fault::OutOfRange {
                value: *value,
                min: *min,
                max: *max,
            },
            Error::MissingField { field } => Fault::MissingField { field: field@ },
            Error::UnknownField { field } => Fault::UnknownField { field: field@ },
        }
    }
}

/// The fault of a JSON value of another kind than `expected`.
pub open spec fn shape_fault(expected: JsonKind) -> Fault {
    Fault::ParseError { kind: ParseKind::Shape { expected } }
}

/// The fault of a value that could not be read for the reason `kind`.
pub open spec fn parse_fault(kind: ParseKind) -> Fault {
    Fault::ParseError { kind }
}

impl Error {
    /// The error for a JSON value of another kind than `expected`.
    pub fn shape(expected: JsonKind) -> (e: Error)
        ensures
            e@ == shape_fault(expected),
    {
        Error::ParseError { reason: ParseReason::Shape { expected } }
    }

    /// The error for a required key that is absent.
    pub fn missing(field: &str) -> (e: Error)
        ensures
            e@ == (Fault::MissingField { field: field@ }),
    {
        Error::MissingField { field: field.to_owned() }
    }
}

} // verus!
