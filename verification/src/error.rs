//! The one error type of the decoders.

use vstd::prelude::*;

verus! {

/// Why a text was not accepted as a key or as an address.
#[derive(Debug, PartialEq, Eq)]
pub enum DecodeError {
    /// The text is not base64: it holds a character outside the alphabet, or
    /// its padding is misplaced.
    InvalidEncoding,
    /// The text is base64, but of another number of bytes than the key has.
    InvalidLength { expected: usize, actual: usize },
    /// The address grammar refused the text; the reason is the grammar's own.
    InvalidAddress(String),
}

impl Clone for DecodeError {
    fn clone(&self) -> (e: Self)
        ensures
            e == *self,
    {
        match self {
            DecodeError::InvalidEncoding => DecodeError::InvalidEncoding,
            DecodeError::InvalidLength { expected, actual } => DecodeError::InvalidLength {
                expected: *expected,
                actual: *actual,
            },
            DecodeError::InvalidAddress(reason) => DecodeError::InvalidAddress(reason.clone()),
        }
    }
}

} // verus!
