//! The failures a vault operation can end in.
//!
//! Every failure is terminal for the operation that met it: nothing is
//! retried, and no stored record changes on a failed call.

use crate::oracle::OracleError;
use vstd::prelude::*;

verus! {

/// Why a vault operation was refused.
#[derive(Clone, Copy, Debug, PartialEq, Eq, Structural)]
pub enum MyProgramError {
    /// An amount or a timestamp would leave the range of its 64-bit field.
    WriteOverflow,
    /// The payload does not have the fixed layout the operation expects.
    InvalidInstructionData,
    /// Storage could not be created at the record's derived address.
    AllocationError,
    /// A stored owner differs from the identity it has to match.
    OwnerMismatch,
    /// The reference asset's symbol does not decode to a 32-byte feed identifier.
    InvalidFeedIdentifier,
    /// The oracle's price is negative.
    InvalidPriceConversion,
    /// The requested lock is shorter than the floor.
    LockTooShort,
    /// The requested deposit is smaller than the floor.
    DepositTooSmall,
    /// The caller did not authorize the operation.
    MissingRequiredSignature,
    /// A record already exists at the address to initialize.
    AlreadyInitialized,
    /// No initialized record exists at the address to deposit into.
    NotInitialized,
    /// The oracle's quote is older than the allowed window.
    StalePrice,
    /// The oracle holds no accepted quote for the requested feed.
    FeedNotFound,
    /// The value-transfer service refused the movement.
    TransferFailed,
    /// Stored bytes have the wrong length or an unknown layout tag.
    CorruptRecord,
}

impl MyProgramError {
    /// The number that reports this failure to the host: the variant's
    /// position in the declaration, counted from zero.
    pub open spec fn spec_code(self) -> u32 {
        match self {
            MyProgramError::WriteOverflow => 0,
            MyProgramError::InvalidInstructionData => 1,
            MyProgramError::AllocationError => 2,
            MyProgramError::OwnerMismatch => 3,
            MyProgramError::InvalidFeedIdentifier => 4,
            MyProgramError::InvalidPriceConversion => 5,
            MyProgramError::LockTooShort => 6,
            MyProgramError::DepositTooSmall => 7,
            MyProgramError::MissingRequiredSignature => 8,
            MyProgramError::AlreadyInitialized => 9,
            MyProgramError::NotInitialized => 10,
            MyProgramError::StalePrice => 11,
            MyProgramError::FeedNotFound => 12,
            MyProgramError::TransferFailed => 13,
            MyProgramError::CorruptRecord => 14,
        }
    }

    #[verifier::when_used_as_spec(spec_code)]
    pub fn code(self) -> (code: u32)
        ensures
            code == self.spec_code(),
    {
        match self {
            MyProgramError::WriteOverflow => 0,
            MyProgramError::InvalidInstructionData => 1,
            MyProgramError::AllocationError => 2,
            MyProgramError::OwnerMismatch => 3,
            MyProgramError::InvalidFeedIdentifier => 4,
            MyProgramError::InvalidPriceConversion => 5,
            MyProgramError::LockTooShort => 6,
            MyProgramError::DepositTooSmall => 7,
            MyProgramError::MissingRequiredSignature => 8,
            MyProgramError::AlreadyInitialized => 9,
            MyProgramError::NotInitialized => 10,
            MyProgramError::StalePrice => 11,
            MyProgramError::FeedNotFound => 12,
            MyProgramError::TransferFailed => 13,
            MyProgramError::CorruptRecord => 14,
        }
    }

    /// The failure of an operation whose oracle read failed with `error`. An
    /// update that is not fully verified counts as no quote for the feed.
    pub open spec fn spec_from_oracle(error: OracleError) -> MyProgramError {
        match error {
            OracleError::StaleQuote => MyProgramError::StalePrice,
            OracleError::FeedNotFound => MyProgramError::FeedNotFound,
            OracleError::InsufficientVerification => MyProgramError::FeedNotFound,
            OracleError::InvalidFeedIdentifier => MyProgramError::InvalidFeedIdentifier,
        }
    }

    #[verifier::when_used_as_spec(spec_from_oracle)]
    pub fn from_oracle(error: OracleError) -> (failure: MyProgramError)
        ensures
            failure == Self::spec_from_oracle(error),
    {
        match error {
            OracleError::StaleQuote => MyProgramError::StalePrice,
            OracleError::FeedNotFound => MyProgramError::FeedNotFound,
            OracleError::InsufficientVerification => MyProgramError::FeedNotFound,
            OracleError::InvalidFeedIdentifier => MyProgramError::InvalidFeedIdentifier,
        }
    }

    /// Distinct failures report distinct codes.
    pub proof fn lemma_code_is_injective(a: MyProgramError, b: MyProgramError)
        requires
            a.spec_code() == b.spec_code(),
        ensures
            a == b,
    {
    }
}

} // verus!
