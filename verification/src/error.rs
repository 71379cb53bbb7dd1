//! The closed set of reasons for which a request is turned down.

use vstd::prelude::*;

verus! {

/// Why a request was turned down. Nothing has been written when one of these
/// is returned.
#[derive(Debug, Clone, Copy, PartialEq, Eq, Structural)]
pub enum ReviewError {
    /// An update was asked of a slot whose record was never created.
    UninitializedAccount,
    /// The slot that was handed in does not sit at the derived address.
    InvalidAddress,
    /// The encoded record would not fit into a slot.
    InvalidDataLength,
    /// The rating lies outside `1..=5`.
    InvalidRating,
    /// The instruction is empty or names no known operation.
    InvalidInstructionData,
    /// Bytes that should hold a record or a payload do not have its shape.
    MalformedRecord,
    /// The caller did not sign the request.
    MissingSignature,
    /// The slot belongs to another program.
    WrongOwner,
}

impl ReviewError {
    /// The number under which the host reports this error.
    pub open spec fn spec_code(self) -> u32 {
        match self {
            ReviewError::UninitializedAccount => 0,
            ReviewError::InvalidAddress => 1,
            ReviewError::InvalidDataLength => 2,
            ReviewError::InvalidRating => 3,
            ReviewError::InvalidInstructionData => 4,
            ReviewError::MalformedRecord => 5,
            ReviewError::MissingSignature => 6,
            ReviewError::WrongOwner => 7,
        }
    }

    /// The number under which the host reports this error.
    #[verifier::when_used_as_spec(spec_code)]
    pub fn code(self) -> (code: u32)
        ensures
            code == self.spec_code(),
    {
        match self {
            ReviewError::UninitializedAccount => 0,
            ReviewError::InvalidAddress => 1,
            ReviewError::InvalidDataLength => 2,
            ReviewError::InvalidRating => 3,
            ReviewError::InvalidInstructionData => 4,
            ReviewError::MalformedRecord => 5,
            ReviewError::MissingSignature => 6,
            ReviewError::WrongOwner => 7,
        }
    }
}

/// Two different errors are never reported under the same number.
pub proof fn codes_are_distinct(first: ReviewError, second: ReviewError)
    requires
        first != second,
    ensures
        first.spec_code() != second.spec_code(),
{
}

} // verus!
