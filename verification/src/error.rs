//! The errors of the write path.

use crate::row::datum::ValueKind;
use vstd::prelude::*;
use vstd::string::*;

verus! {

/// What can go wrong while rows are read, converted and encoded.
#[derive(Debug, Clone, Copy, PartialEq, Eq, Structural)]
pub enum Error {
    /// A value of kind `value` was offered to a column builder that does not
    /// take it: it is not the builder that this kind of value goes into.
    RowConvertError { value: ValueKind },
    /// The field at position `pos` of a row was asked for as a value of kind
    /// `expected`, but holds one of kind `found`.
    TypeMismatch { pos: usize, expected: ValueKind, found: ValueKind },
    /// An encoder was asked for with a type that is not a row type.
    NotARow,
    /// An encoder was asked for with a row type that has no field.
    EmptyRow,
    /// An encoder was asked for with a row type whose field at position `pos`
    /// is of a type that cannot be written.
    UnsupportedColumn { pos: usize },
    /// A row of `row_fields` fields was offered where the schema has
    /// `schema_fields`.
    FieldCountMismatch { schema_fields: usize, row_fields: usize },
    /// A row was offered that would take the data of the batch past what its
    /// columns can address.
    RecordTooLarge,
    /// A row was offered to an encoder that is closed.
    EncoderClosed,
    /// A row was offered to an encoder that holds as many rows as it takes.
    EncoderFull,
    /// The payload of a batch was asked for before the batch was closed.
    NotClosed,
    /// The columns could not be written as a payload.
    EncodeFailed,
}

impl Error {
    /// What this error says, in words.
    ///
    /// For a value that a builder does not take, the text names the type of
    /// the value and the kind of builder that it goes into.
    pub open spec fn spec_message(self) -> Seq<char> {
        match self {
            Error::RowConvertError { value } => "Cannot cast "@ + value.spec_value_name() + " to "@
                + value.spec_builder_name() + " builder"@,
            Error::TypeMismatch { pos, expected, found } => "Cannot read "@
                + found.spec_value_name() + " as "@ + expected.spec_value_name(),
            Error::NotARow => "The type of the rows is not a row type"@,
            Error::EmptyRow => "The row type has no field"@,
            Error::UnsupportedColumn { pos } => "A field of the row type cannot be written"@,
            Error::FieldCountMismatch { schema_fields, row_fields } =>
                "The row does not have one field per column"@,
            Error::RecordTooLarge => "The row is too large for the batch"@,
            Error::EncoderClosed => "The encoder is closed"@,
            Error::EncoderFull => "The encoder is full"@,
            Error::NotClosed => "The batch is not closed"@,
            Error::EncodeFailed => "The columns could not be written"@,
        }
    }

    /// What this error says, in words.
    pub fn message(&self) -> (text: String)
        ensures
            text@ == self.spec_message(),
    {
        match self {
            Error::RowConvertError { value } => String::from_str("Cannot cast ").concat(
                value.value_name(),
            ).concat(" to ").concat(value.builder_name()).concat(" builder"),
            Error::TypeMismatch { pos, expected, found } => String::from_str(
                "Cannot read ",
            ).concat(found.value_name()).concat(" as ").concat(expected.value_name()),
            Error::NotARow => String::from_str("The type of the rows is not a row type"),
            Error::EmptyRow => String::from_str("The row type has no field"),
            Error::UnsupportedColumn { pos } => String::from_str(
                "A field of the row type cannot be written",
            ),
            Error::FieldCountMismatch { schema_fields, row_fields } => String::from_str(
                "The row does not have one field per column",
            ),
            Error::RecordTooLarge => String::from_str("The row is too large for the batch"),
            Error::EncoderClosed => String::from_str("The encoder is closed"),
            Error::EncoderFull => String::from_str("The encoder is full"),
            Error::NotClosed => String::from_str("The batch is not closed"),
            Error::EncodeFailed => String::from_str("The columns could not be written"),
        }
    }
}

/// The result of an operation of the write path.
pub type Result<T> = std::result::Result<T, Error>;

} // verus!
