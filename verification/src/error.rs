//! The flat error taxonomy of the instruction core. Every validator or
//! engine failure aborts the whole instruction with one of these; nothing
//! is retried inside the core.

use vstd::prelude::*;

verus! {

/// Why an operation was rejected.
#[derive(Clone, Copy, Debug, PartialEq, Eq, Structural)]
pub enum StakeError {
    /// The operation requires an initialized record that is not initialized.
    UninitializedAccount,
    /// The provided record address does not match the deterministic derivation.
    InvalidPda,
    /// The record's stored holding differs from the holding supplied.
    InvalidTokenAccount,
    /// The record's stored owner differs from the acting user.
    InvalidStakeAccount,
    /// Unrecognized opcode or malformed instruction payload.
    InvalidInstruction,
    /// The acting user has not authorized the transaction.
    MissingSignature,
    /// The record's storage is not owned by this program.
    IllegalOwner,
    /// Initialize was called on an already-initialized record.
    AccountAlreadyInitialized,
    /// Stake was called while the record is already active.
    AlreadyActive,
    /// Redeem or unstake was called while the record is not active.
    NotActive,
}

impl StakeError {
    /// The numeric code a host-facing caller reports for this error.
    pub open spec fn spec_code(self) -> u32 {
        match self {
            StakeError::UninitializedAccount => 0,
            StakeError::InvalidPda => 1,
            StakeError::InvalidTokenAccount => 2,
            StakeError::InvalidStakeAccount => 3,
            StakeError::InvalidInstruction => 4,
            StakeError::MissingSignature => 5,
            StakeError::IllegalOwner => 6,
            StakeError::AccountAlreadyInitialized => 7,
            StakeError::AlreadyActive => 8,
            StakeError::NotActive => 9,
        }
    }

    /// Numeric error code, distinct per variant.
    pub fn code(&self) -> (r: u32)
        ensures
            r == self.spec_code(),
    {
        match self {
            StakeError::UninitializedAccount => 0,
            StakeError::InvalidPda => 1,
            StakeError::InvalidTokenAccount => 2,
            StakeError::InvalidStakeAccount => 3,
            StakeError::InvalidInstruction => 4,
            StakeError::MissingSignature => 5,
            StakeError::IllegalOwner => 6,
            StakeError::AccountAlreadyInitialized => 7,
            StakeError::AlreadyActive => 8,
            StakeError::NotActive => 9,
        }
    }
}

} // verus!
