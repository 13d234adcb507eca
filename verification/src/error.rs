//! What can go wrong when a document is decoded into an object.

use crate::schema::SchemaError;
use serde_json::Value;
use vstd::prelude::*;
use vstd::std_specs::convert::FromSpecImpl;

verus! {

/// Why a document could not be decoded into an object.
#[derive(Debug, PartialEq)]
pub enum Error {
    /// The document has no `type` member.
    MissingType,
    /// The `type` member is not a string. Holds the value that was found.
    InvalidTypeField(Value),
    /// The `type` member is a string that names no variant. Holds the string.
    InvalidTypeValue(String),
    /// The document does not fit the schema of the variant that its `type`
    /// member names. Holds the error of that variant's decoder.
    Schema(SchemaError),
}

/// The mathematical value of an [`Error`].
pub enum ErrorView {
    MissingType,
    InvalidTypeField(Value),
    InvalidTypeValue(Seq<char>),
    Schema(SchemaError),
}

impl View for Error {
    type V = ErrorView;

    open spec fn view(&self) -> ErrorView {
        match self {
            Error::MissingType => ErrorView::MissingType,
            Error::InvalidTypeField(found) => ErrorView::InvalidTypeField(*found),
            Error::InvalidTypeValue(name) => ErrorView::InvalidTypeValue(name@),
            Error::Schema(e) => ErrorView::Schema(*e),
        }
    }
}

impl From<SchemaError> for Error {
    /// Wraps the error of a variant's decoder without changing it.
    fn from(e: SchemaError) -> (wrapped: Error) {
        Error::Schema(e)
    }
}

impl FromSpecImpl<SchemaError> for Error {
    open spec fn obeys_from_spec() -> bool {
        true
    }

    open spec fn from_spec(e: SchemaError) -> Error {
        Error::Schema(e)
    }
}

} // verus!
