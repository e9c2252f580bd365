//! The one terminal error of a decode, and the value that contracts speak of.

use crate::tokens::TokenSet;
use vstd::prelude::*;

verus! {

/// `serde_json::Error`, the JSON reader's own error. It is carried in a syntax
/// error as it came, and nothing is said of what it holds.
#[verifier::external_type_specification]
#[verifier::external_body]
pub struct ExJsonError(serde_json::Error);

/// Why a scalar that was present could not become its field's value.
#[derive(Debug, Clone, Copy, PartialEq, Eq, Structural)]
pub enum FormatError {
    /// Not a date-time with offset in the internet date-time format.
    DateTime,
    /// A hardware address that is not an unsigned 64-bit decimal integer.
    AddressDigits,
    /// A hardware address whose value exceeds 48 bits.
    AddressRange,
    /// An integer outside the range of its field.
    IntegerRange,
}

/// What a decode error says. Of the cause that the JSON reader attached it
/// keeps only whether there is one.
pub enum Failure {
    /// `reader` says whether the JSON reader's own error comes with it.
    Syntax { offset: int, reader: bool },
    DuplicateField { name: Seq<char> },
    MissingField { name: Seq<char> },
    UnknownField { key: Seq<char> },
    UnknownVariant { set: TokenSet, token: Seq<char> },
    Format { field: Seq<char>, reason: FormatError },
}

/// The first error met in a document; it ends the decode.
#[derive(Debug)]
pub enum DecodeError {
    /// The input is not well-formed at `offset`. `cause` is the JSON reader's
    /// own error where it read the value there, and absent where the document
    /// structure itself was at fault.
    Syntax { offset: usize, cause: Option<serde_json::Error> },
    DuplicateField { name: &'static str },
    MissingField { name: &'static str },
    UnknownField { key: String },
    UnknownVariant { set: TokenSet, token: String },
    Format { field: &'static str, reason: FormatError },
}

impl View for DecodeError {
    type V = Failure;

    open spec fn view(&self) -> Failure {
        match self {
            DecodeError::Syntax { offset, cause } => Failure::Syntax {
                offset: *offset as int,
                reader: cause is Some,
            },
            DecodeError::DuplicateField { name } => Failure::DuplicateField { name: name@ },
            DecodeError::MissingField { name } => Failure::MissingField { name: name@ },
            DecodeError::UnknownField { key } => Failure::UnknownField { key: key@ },
            DecodeError::UnknownVariant { set, token } => Failure::UnknownVariant {
                set: *set,
                token: token@,
            },
            DecodeError::Format { field, reason } => Failure::Format {
                field: field@,
                reason: *reason,
            },
        }
    }
}

} // verus!
