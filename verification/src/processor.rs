//! The instruction processor: each operation validates the supplied
//! accounts against the record, applies its state transition to a local
//! working copy, and commits that copy to storage in one write at the very
//! end. A failure at any check aborts the operation with a specific error
//! and leaves the stored bytes untouched.
//!
//! Host-verified facts (the signer flag, the storage owner, the clock
//! reading `now`) enter as plain values; the host performs account
//! creation and funding before `process_initialize_stake_account` runs.

use vstd::prelude::*;
use vstd::pervasive::unreached;
use crate::codec::{decode_record, encode_record, spec_decode, spec_encode};
use crate::error::StakeError;
use crate::identity::{identity_eq, Identity};
use crate::instruction::{spec_unpack, StakeInstruction};
use crate::pda::{check_record_address, pda_matches};
use crate::state::{
    initialized_record, redeemed_record, staked_record, unstaked_record, UserStakeInfo,
};

verus! {

/// The checks shared by stake, redeem and unstake, in order: the acting
/// user must have signed, the record storage must be owned by this
/// program, and the record address must match the derivation. The first
/// failing check names the error; `None` means all three pass.
pub open spec fn common_checks(
    user_signer: bool,
    rec_owner: Seq<u8>,
    program: Seq<u8>,
    user: Seq<u8>,
    holding: Seq<u8>,
    rec_key: Seq<u8>,
) -> Option<StakeError> {
    if !user_signer {
        Some(StakeError::MissingSignature)
    } else if rec_owner != program {
        Some(StakeError::IllegalOwner)
    } else if !pda_matches(user, holding, program, rec_key) {
        Some(StakeError::InvalidPda)
    } else {
        None
    }
}

/// What initialize yields: the address check, then the record must not yet
/// be initialized; on success, the encoded bytes of the freshly owned,
/// inactive record.
pub open spec fn init_outcome(
    program: Seq<u8>,
    user: Seq<u8>,
    holding: Seq<u8>,
    rec_key: Seq<u8>,
    data: Seq<u8>,
) -> Result<Seq<u8>, StakeError> {
    if !pda_matches(user, holding, program, rec_key) {
        Err(StakeError::InvalidPda)
    } else {
        let rec = spec_decode(data)->Some_0;
        if rec.is_initialized {
            Err(StakeError::AccountAlreadyInitialized)
        } else {
            Ok(spec_encode(initialized_record(rec, user, holding)))
        }
    }
}

/// What stake yields: the common checks, then the record must be
/// initialized and inactive; on success, the encoded bytes of the active
/// record with both timestamps set to `now`.
pub open spec fn stake_outcome(
    program: Seq<u8>,
    user: Seq<u8>,
    user_signer: bool,
    holding: Seq<u8>,
    rec_key: Seq<u8>,
    rec_owner: Seq<u8>,
    data: Seq<u8>,
    now: i64,
) -> Result<Seq<u8>, StakeError> {
    match common_checks(user_signer, rec_owner, program, user, holding, rec_key) {
        Some(e) => Err(e),
        None => {
            let rec = spec_decode(data)->Some_0;
            if !rec.is_initialized {
                Err(StakeError::UninitializedAccount)
            } else if rec.is_stake_active {
                Err(StakeError::AlreadyActive)
            } else {
                Ok(spec_encode(staked_record(rec, user, holding, now)))
            }
        },
    }
}

/// The identity checks of redeem and unstake: the record's stored owner
/// must be the acting user and its stored holding the supplied one.
pub open spec fn identity_checks(
    rec: crate::state::RecordView,
    user: Seq<u8>,
    holding: Seq<u8>,
) -> Option<StakeError> {
    if rec.user != user {
        Some(StakeError::InvalidStakeAccount)
    } else if rec.token_account != holding {
        Some(StakeError::InvalidTokenAccount)
    } else {
        None
    }
}

/// What redeem yields: the common checks, then the record must be
/// initialized, active, and consistent with the supplied identities; on
/// success, the record with its redemption point moved to `now`, and the
/// reward `now - lastRedeemTime(before)`.
pub open spec fn redeem_outcome(
    program: Seq<u8>,
    user: Seq<u8>,
    user_signer: bool,
    holding: Seq<u8>,
    rec_key: Seq<u8>,
    rec_owner: Seq<u8>,
    data: Seq<u8>,
    now: i64,
) -> Result<(Seq<u8>, i64), StakeError> {
    match common_checks(user_signer, rec_owner, program, user, holding, rec_key) {
        Some(e) => Err(e),
        None => {
            let rec = spec_decode(data)->Some_0;
            if !rec.is_initialized {
                Err(StakeError::UninitializedAccount)
            } else if !rec.is_stake_active {
                Err(StakeError::NotActive)
            } else {
                match identity_checks(rec, user, holding) {
                    Some(e) => Err(e),
                    None => Ok(
                        (
                            spec_encode(redeemed_record(rec, now)),
                            (now - rec.last_redeem_time) as i64,
                        ),
                    ),
                }
            }
        },
    }
}

/// What unstake yields: the same checks as redeem; on success, the record
/// leaves the active state with its redemption point moved to `now`, and
/// the reward `now - lastRedeemTime(before)`.
pub open spec fn unstake_outcome(
    program: Seq<u8>,
    user: Seq<u8>,
    user_signer: bool,
    holding: Seq<u8>,
    rec_key: Seq<u8>,
    rec_owner: Seq<u8>,
    data: Seq<u8>,
    now: i64,
) -> Result<(Seq<u8>, i64), StakeError> {
    match common_checks(user_signer, rec_owner, program, user, holding, rec_key) {
        Some(e) => Err(e),
        None => {
            let rec = spec_decode(data)->Some_0;
            if !rec.is_initialized {
                Err(StakeError::UninitializedAccount)
            } else if !rec.is_stake_active {
                Err(StakeError::NotActive)
            } else {
                match identity_checks(rec, user, holding) {
                    Some(e) => Err(e),
                    None => Ok(
                        (
                            spec_encode(unstaked_record(rec, now)),
                            (now - rec.last_redeem_time) as i64,
                        ),
                    ),
                }
            }
        },
    }
}

/// What one whole instruction yields: the operation named by the payload's
/// opcode applied to the supplied accounts, with the reported reward beside
/// the new stored bytes for redeem and unstake and `None` for the others.
pub open spec fn instruction_outcome(
    input: Seq<u8>,
    program: Seq<u8>,
    user: Seq<u8>,
    user_signer: bool,
    holding: Seq<u8>,
    rec_key: Seq<u8>,
    rec_owner: Seq<u8>,
    data: Seq<u8>,
    now: i64,
) -> Result<(Seq<u8>, Option<i64>), StakeError> {
    match spec_unpack(input) {
        Err(e) => Err(e),
        Ok(StakeInstruction::InitializeStakeAccount) => match init_outcome(
            program,
            user,
            holding,
            rec_key,
            data,
        ) {
            Ok(d) => Ok((d, None)),
            Err(e) => Err(e),
        },
        Ok(StakeInstruction::Stake) => match stake_outcome(
            program,
            user,
            user_signer,
            holding,
            rec_key,
            rec_owner,
            data,
            now,
        ) {
            Ok(d) => Ok((d, None)),
            Err(e) => Err(e),
        },
        Ok(StakeInstruction::Redeem) => match redeem_outcome(
            program,
            user,
            user_signer,
            holding,
            rec_key,
            rec_owner,
            data,
            now,
        ) {
            Ok(p) => Ok((p.0, Some(p.1))),
            Err(e) => Err(e),
        },
        Ok(StakeInstruction::Unstake) => match unstake_outcome(
            program,
            user,
            user_signer,
            holding,
            rec_key,
            rec_owner,
            data,
            now,
        ) {
            Ok(p) => Ok((p.0, Some(p.1))),
            Err(e) => Err(e),
        },
    }
}

/// Decodes the instruction payload and runs the named operation on the
/// supplied accounts. The reward reported by redeem or unstake comes back
/// as `Some`; initialize and stake report none.
pub fn process_instruction(
    program_id: &Identity,
    user_key: &Identity,
    user_is_signer: bool,
    token_account_key: &Identity,
    record_key: &Identity,
    record_owner: &Identity,
    record_data: &mut Vec<u8>,
    now: i64,
    instruction_data: &[u8],
) -> (r: Result<Option<i64>, StakeError>)
    requires
        pda_matches(user_key@, token_account_key@, program_id@, record_key@) ==> spec_decode(
            old(record_data)@,
        ) is Some,
        0 <= now,
        spec_decode(old(record_data)@) matches Some(rec) ==> rec.last_redeem_time <= now,
    ensures
        ({
            let out = instruction_outcome(
                instruction_data@,
                program_id@,
                user_key@,
                user_is_signer,
                token_account_key@,
                record_key@,
                record_owner@,
                old(record_data)@,
                now,
            );
            match r {
                Ok(reward) => out matches Ok(p) && final(record_data)@ == p.0 && reward == p.1,
                Err(e) => out == Err::<(Seq<u8>, Option<i64>), StakeError>(e)
                    && final(record_data)@ == old(record_data)@,
            }
        }),
{
    let instruction = match StakeInstruction::unpack(instruction_data) {
        Ok(instruction) => instruction,
        Err(e) => {
            return Err(e);
        },
    };
    match instruction {
        StakeInstruction::InitializeStakeAccount => {
            match process_initialize_stake_account(
                program_id,
                user_key,
                token_account_key,
                record_key,
                record_data,
            ) {
                Ok(()) => Ok(None),
                Err(e) => Err(e),
            }
        },
        StakeInstruction::Stake => {
            match process_stake(
                program_id,
                user_key,
                user_is_signer,
                token_account_key,
                record_key,
                record_owner,
                record_data,
                now,
            ) {
                Ok(()) => Ok(None),
                Err(e) => Err(e),
            }
        },
        StakeInstruction::Redeem => {
            match process_redeem(
                program_id,
                user_key,
                user_is_signer,
                token_account_key,
                record_key,
                record_owner,
                record_data,
                now,
            ) {
                Ok(reward) => Ok(Some(reward)),
                Err(e) => Err(e),
            }
        },
        StakeInstruction::Unstake => {
            match process_unstake(
                program_id,
                user_key,
                user_is_signer,
                token_account_key,
                record_key,
                record_owner,
                record_data,
                now,
            ) {
                Ok(reward) => Ok(Some(reward)),
                Err(e) => Err(e),
            }
        },
    }
}

/// Creates the (user, holding) record in its freshly allocated storage:
/// checks the record address against the derivation, requires the record
/// not yet initialized, then commits the owned, inactive record.
pub fn process_initialize_stake_account(
    program_id: &Identity,
    user_key: &Identity,
    token_account_key: &Identity,
    record_key: &Identity,
    record_data: &mut Vec<u8>,
) -> (r: Result<(), StakeError>)
    requires
        pda_matches(user_key@, token_account_key@, program_id@, record_key@) ==> spec_decode(
            old(record_data)@,
        ) is Some,
    ensures
        ({
            let out = init_outcome(
                program_id@,
                user_key@,
                token_account_key@,
                record_key@,
                old(record_data)@,
            );
            match r {
                Ok(()) => out matches Ok(d) && final(record_data)@ == d,
                Err(e) => out == Err::<Seq<u8>, StakeError>(e) && final(record_data)@ == old(
                    record_data,
                )@,
            }
        }),
{
    if !check_record_address(user_key, token_account_key, program_id, record_key) {
        return Err(StakeError::InvalidPda);
    }
    let rec = match decode_record(record_data.as_slice()) {
        Some(rec) => rec,
        None => unreached(),
    };
    if rec.is_initialized {
        return Err(StakeError::AccountAlreadyInitialized);
    }
    let new_rec = UserStakeInfo {
        is_initialized: true,
        user: *user_key,
        token_account: *token_account_key,
        stake_start_time: rec.stake_start_time,
        last_redeem_time: rec.last_redeem_time,
        is_stake_active: false,
    };
    proof {
        assert(new_rec@ =~= initialized_record(rec@, user_key@, token_account_key@));
    }
    let encoded = encode_record(&new_rec);
    *record_data = encoded;
    Ok(())
}

/// Locks the holding: after the common checks, the record must be
/// initialized and inactive; commits the active record with both
/// timestamps set to `now`.
pub fn process_stake(
    program_id: &Identity,
    user_key: &Identity,
    user_is_signer: bool,
    token_account_key: &Identity,
    record_key: &Identity,
    record_owner: &Identity,
    record_data: &mut Vec<u8>,
    now: i64,
) -> (r: Result<(), StakeError>)
    requires
        common_checks(
            user_is_signer,
            record_owner@,
            program_id@,
            user_key@,
            token_account_key@,
            record_key@,
        ) is None ==> spec_decode(old(record_data)@) is Some,
        0 <= now,
    ensures
        ({
            let out = stake_outcome(
                program_id@,
                user_key@,
                user_is_signer,
                token_account_key@,
                record_key@,
                record_owner@,
                old(record_data)@,
                now,
            );
            match r {
                Ok(()) => out matches Ok(d) && final(record_data)@ == d,
                Err(e) => out == Err::<Seq<u8>, StakeError>(e) && final(record_data)@ == old(
                    record_data,
                )@,
            }
        }),
{
    if !user_is_signer {
        return Err(StakeError::MissingSignature);
    }
    if !identity_eq(record_owner, program_id) {
        return Err(StakeError::IllegalOwner);
    }
    if !check_record_address(user_key, token_account_key, program_id, record_key) {
        return Err(StakeError::InvalidPda);
    }
    let rec = match decode_record(record_data.as_slice()) {
        Some(rec) => rec,
        None => unreached(),
    };
    if !rec.is_initialized {
        return Err(StakeError::UninitializedAccount);
    }
    if rec.is_stake_active {
        return Err(StakeError::AlreadyActive);
    }
    let new_rec = UserStakeInfo {
        is_initialized: rec.is_initialized,
        user: *user_key,
        token_account: *token_account_key,
        stake_start_time: now,
        last_redeem_time: now,
        is_stake_active: true,
    };
    proof {
        assert(new_rec@ =~= staked_record(rec@, user_key@, token_account_key@, now));
    }
    let encoded = encode_record(&new_rec);
    *record_data = encoded;
    Ok(())
}

/// Accounts the reward accrued since the last redemption point, staying
/// active: after the common, state and identity checks, commits the record
/// with its redemption point moved to `now` and reports the reward.
pub fn process_redeem(
    program_id: &Identity,
    user_key: &Identity,
    user_is_signer: bool,
    token_account_key: &Identity,
    record_key: &Identity,
    record_owner: &Identity,
    record_data: &mut Vec<u8>,
    now: i64,
) -> (r: Result<i64, StakeError>)
    requires
        common_checks(
            user_is_signer,
            record_owner@,
            program_id@,
            user_key@,
            token_account_key@,
            record_key@,
        ) is None ==> (spec_decode(old(record_data)@) matches Some(rec) && rec.last_redeem_time
            <= now),
    ensures
        ({
            let out = redeem_outcome(
                program_id@,
                user_key@,
                user_is_signer,
                token_account_key@,
                record_key@,
                record_owner@,
                old(record_data)@,
                now,
            );
            match r {
                Ok(reward) => out matches Ok(p) && final(record_data)@ == p.0 && reward == p.1,
                Err(e) => out == Err::<(Seq<u8>, i64), StakeError>(e) && final(record_data)@ == old(
                    record_data,
                )@,
            }
        }),
{
    if !user_is_signer {
        return Err(StakeError::MissingSignature);
    }
    if !identity_eq(record_owner, program_id) {
        return Err(StakeError::IllegalOwner);
    }
    if !check_record_address(user_key, token_account_key, program_id, record_key) {
        return Err(StakeError::InvalidPda);
    }
    let rec = match decode_record(record_data.as_slice()) {
        Some(rec) => rec,
        None => unreached(),
    };
    if !rec.is_initialized {
        return Err(StakeError::UninitializedAccount);
    }
    if !rec.is_stake_active {
        return Err(StakeError::NotActive);
    }
    if !identity_eq(&rec.user, user_key) {
        return Err(StakeError::InvalidStakeAccount);
    }
    if !identity_eq(&rec.token_account, token_account_key) {
        return Err(StakeError::InvalidTokenAccount);
    }
    let reward = now - rec.last_redeem_time;
    let new_rec = UserStakeInfo {
        is_initialized: rec.is_initialized,
        user: rec.user,
        token_account: rec.token_account,
        stake_start_time: rec.stake_start_time,
        last_redeem_time: now,
        is_stake_active: rec.is_stake_active,
    };
    proof {
        assert(new_rec@ =~= redeemed_record(rec@, now));
    }
    let encoded = encode_record(&new_rec);
    *record_data = encoded;
    Ok(reward)
}

/// Accounts the reward and releases the lock: the same checks as redeem,
/// then commits the inactive record with its redemption point moved to
/// `now` and reports the reward.
pub fn process_unstake(
    program_id: &Identity,
    user_key: &Identity,
    user_is_signer: bool,
    token_account_key: &Identity,
    record_key: &Identity,
    record_owner: &Identity,
    record_data: &mut Vec<u8>,
    now: i64,
) -> (r: Result<i64, StakeError>)
    requires
        common_checks(
            user_is_signer,
            record_owner@,
            program_id@,
            user_key@,
            token_account_key@,
            record_key@,
        ) is None ==> (spec_decode(old(record_data)@) matches Some(rec) && rec.last_redeem_time
            <= now),
    ensures
        ({
            let out = unstake_outcome(
                program_id@,
                user_key@,
                user_is_signer,
                token_account_key@,
                record_key@,
                record_owner@,
                old(record_data)@,
                now,
            );
            match r {
                Ok(reward) => out matches Ok(p) && final(record_data)@ == p.0 && reward == p.1,
                Err(e) => out == Err::<(Seq<u8>, i64), StakeError>(e) && final(record_data)@ == old(
                    record_data,
                )@,
            }
        }),
{
    if !user_is_signer {
        return Err(StakeError::MissingSignature);
    }
    if !identity_eq(record_owner, program_id) {
        return Err(StakeError::IllegalOwner);
    }
    if !check_record_address(user_key, token_account_key, program_id, record_key) {
        return Err(StakeError::InvalidPda);
    }
    let rec = match decode_record(record_data.as_slice()) {
        Some(rec) => rec,
        None => unreached(),
    };
    if !rec.is_initialized {
        return Err(StakeError::UninitializedAccount);
    }
    if !rec.is_stake_active {
        return Err(StakeError::NotActive);
    }
    if !identity_eq(&rec.user, user_key) {
        return Err(StakeError::InvalidStakeAccount);
    }
    if !identity_eq(&rec.token_account, token_account_key) {
        return Err(StakeError::InvalidTokenAccount);
    }
    let reward = now - rec.last_redeem_time;
    let new_rec = UserStakeInfo {
        is_initialized: rec.is_initialized,
        user: rec.user,
        token_account: rec.token_account,
        stake_start_time: rec.stake_start_time,
        last_redeem_time: now,
        is_stake_active: false,
    };
    proof {
        assert(new_rec@ =~= unstaked_record(rec@, now));
    }
    let encoded = encode_record(&new_rec);
    *record_data = encoded;
    Ok(reward)
}

} // verus!
