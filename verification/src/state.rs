//! The per-(user, holding) staking record and its state transitions.
//!
//! A record moves `Uninitialized -> Initialized-Inactive -> Active ->
//! Initialized-Inactive -> ...`; it is created once, staked, redeemed while
//! active, and unstaked, and is never deleted.

use vstd::prelude::*;
use crate::identity::Identity;

verus! {

/// The persisted staking record, one per (user, holding) pair.
#[derive(Clone, Copy, Debug)]
pub struct UserStakeInfo {
    /// The record has been created.
    pub is_initialized: bool,
    /// The staking user.
    pub user: Identity,
    /// The token holding staked.
    pub token_account: Identity,
    /// Time of the last transition into the active state.
    pub stake_start_time: i64,
    /// Time the reward was last accounted.
    pub last_redeem_time: i64,
    /// Currently staked.
    pub is_stake_active: bool,
}

/// The mathematical model of a record: identities as byte sequences.
#[verifier::ext_equal]
pub struct RecordView {
    pub is_initialized: bool,
    pub user: Seq<u8>,
    pub token_account: Seq<u8>,
    pub stake_start_time: i64,
    pub last_redeem_time: i64,
    pub is_stake_active: bool,
}

impl View for UserStakeInfo {
    type V = RecordView;

    open spec fn view(&self) -> RecordView {
        RecordView {
            is_initialized: self.is_initialized,
            user: self.user@,
            token_account: self.token_account@,
            stake_start_time: self.stake_start_time,
            last_redeem_time: self.last_redeem_time,
            is_stake_active: self.is_stake_active,
        }
    }
}

impl RecordView {
    /// Well-formedness: identities are 32 bytes and timestamps are
    /// non-negative clock readings, so the record has a storage encoding.
    pub open spec fn wf(self) -> bool {
        &&& self.user.len() == 32
        &&& self.token_account.len() == 32
        &&& 0 <= self.stake_start_time
        &&& 0 <= self.last_redeem_time
    }

    /// The state invariant of every reachable record: a record can only be
    /// active once it has been initialized.
    pub open spec fn state_inv(self) -> bool {
        self.is_stake_active ==> self.is_initialized
    }
}

/// The record written by a successful initialize: ownership fixed,
/// inactive, timestamps left as allocated.
pub open spec fn initialized_record(rec: RecordView, user: Seq<u8>, holding: Seq<u8>) -> RecordView {
    RecordView {
        is_initialized: true,
        user: user,
        token_account: holding,
        stake_start_time: rec.stake_start_time,
        last_redeem_time: rec.last_redeem_time,
        is_stake_active: false,
    }
}

/// The record written by a successful stake at time `now`: active, with
/// both timestamps set to `now`.
pub open spec fn staked_record(
    rec: RecordView,
    user: Seq<u8>,
    holding: Seq<u8>,
    now: i64,
) -> RecordView {
    RecordView {
        is_initialized: rec.is_initialized,
        user: user,
        token_account: holding,
        stake_start_time: now,
        last_redeem_time: now,
        is_stake_active: true,
    }
}

/// The record written by a successful redeem at time `now`: unchanged but
/// for the redemption point moving to `now`.
pub open spec fn redeemed_record(rec: RecordView, now: i64) -> RecordView {
    RecordView {
        is_initialized: rec.is_initialized,
        user: rec.user,
        token_account: rec.token_account,
        stake_start_time: rec.stake_start_time,
        last_redeem_time: now,
        is_stake_active: rec.is_stake_active,
    }
}

/// The record written by a successful unstake at time `now`: the reward is
/// accounted up to `now` and the record leaves the active state.
pub open spec fn unstaked_record(rec: RecordView, now: i64) -> RecordView {
    RecordView {
        is_initialized: rec.is_initialized,
        user: rec.user,
        token_account: rec.token_account,
        stake_start_time: rec.stake_start_time,
        last_redeem_time: now,
        is_stake_active: false,
    }
}

/// The reward an operation at time `now` reports: the elapsed clock units
/// since the record's last redemption point.
pub open spec fn spec_reward(rec: RecordView, now: i64) -> int {
    now - rec.last_redeem_time
}

impl UserStakeInfo {
    /// The exact size in bytes of an encoded record: one byte per flag,
    /// 32 per identity, 8 per timestamp.
    pub const SIZE: usize = 1 + 32 + 32 + 8 + 8 + 1;

    /// Whether the record has been created.
    pub fn is_initialized(&self) -> (r: bool)
        ensures
            r == self@.is_initialized,
    {
        self.is_initialized
    }
}

} // verus!
