//! The instruction decoder: a single-byte opcode selects one of the four
//! operations; anything else is rejected.

use vstd::prelude::*;
use crate::error::StakeError;

verus! {

/// One of the four operations of the staking core.
#[derive(Clone, Copy, Debug, PartialEq, Eq, Structural)]
pub enum StakeInstruction {
    /// Create the (user, holding) record at its derived address.
    InitializeStakeAccount,
    /// Lock the holding and start accruing reward.
    Stake,
    /// Account the reward accrued so far, staying active.
    Redeem,
    /// Account the reward and release the lock.
    Unstake,
}

/// What decoding an instruction payload yields: the operation named by the
/// leading opcode byte, or `InvalidInstruction` for an empty payload or an
/// unrecognized tag.
pub open spec fn spec_unpack(input: Seq<u8>) -> Result<StakeInstruction, StakeError> {
    if input.len() == 0 {
        Err(StakeError::InvalidInstruction)
    } else if input[0] == 0 {
        Ok(StakeInstruction::InitializeStakeAccount)
    } else if input[0] == 1 {
        Ok(StakeInstruction::Stake)
    } else if input[0] == 2 {
        Ok(StakeInstruction::Redeem)
    } else if input[0] == 3 {
        Ok(StakeInstruction::Unstake)
    } else {
        Err(StakeError::InvalidInstruction)
    }
}

impl StakeInstruction {
    /// Decodes an instruction payload.
    pub fn unpack(input: &[u8]) -> (r: Result<StakeInstruction, StakeError>)
        ensures
            r == spec_unpack(input@),
    {
        if input.len() == 0 {
            return Err(StakeError::InvalidInstruction);
        }
        match input[0] {
            0 => Ok(StakeInstruction::InitializeStakeAccount),
            1 => Ok(StakeInstruction::Stake),
            2 => Ok(StakeInstruction::Redeem),
            3 => Ok(StakeInstruction::Unstake),
            _ => Err(StakeError::InvalidInstruction),
        }
    }
}

} // verus!
