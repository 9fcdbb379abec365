//! The error taxonomy of the conversion pipeline.

use vstd::prelude::*;

verus! {

/// Everything that can go wrong while handling one input record.
///
/// Every failure is fatal to the record that produced it; there is no
/// partial result beside an error.
#[derive(Clone, Debug)]
pub enum ConvertError {
    /// The record has fewer than two whitespace-separated tokens.
    MalformedRecord,
    /// The record's first token is not one of the four encoding names.
    UnknownEncoding,
    /// A character outside '0'..='9' stood where a decimal digit was
    /// expected, at character position `pos` of the value.
    InvalidDigit { ch: char, pos: usize },
    /// A token of a binary-coded value is not in the relevant code table.
    InvalidCodeword { token: String },
}

/// The mathematical model of a [`ConvertError`].
#[verifier::ext_equal]
pub ghost enum ErrorModel {
    MalformedRecord,
    UnknownEncoding,
    InvalidDigit { ch: char, pos: int },
    InvalidCodeword { token: Seq<char> },
}

impl View for ConvertError {
    type V = ErrorModel;

    open spec fn view(&self) -> ErrorModel {
        match self {
            ConvertError::MalformedRecord => ErrorModel::MalformedRecord,
            ConvertError::UnknownEncoding => ErrorModel::UnknownEncoding,
            ConvertError::InvalidDigit { ch, pos } => ErrorModel::InvalidDigit {
                ch: *ch,
                pos: *pos as int,
            },
            ConvertError::InvalidCodeword { token } => ErrorModel::InvalidCodeword {
                token: token@,
            },
        }
    }
}

} // verus!
