//! System-level guarantees of the instruction core, proved once over the
//! operation outcomes: the record address is reproducible, a record is
//! only ever active once initialized, the redemption point never moves
//! backwards, and the reported reward is exactly the elapsed time.

use vstd::prelude::*;
use crate::codec::{lemma_decode_wf, lemma_encode_decode, spec_decode};
use crate::pda::pda_matches;
use crate::processor::{init_outcome, instruction_outcome};

verus! {

/// The record address is deterministic: once initialize has validated a
/// record address for a (user, holding) pair under a program, re-deriving
/// from the same inputs reproduces exactly that address, so the derivation
/// check of every later operation accepts it.
pub proof fn lemma_derivation_reproducible(
    program: Seq<u8>,
    user: Seq<u8>,
    holding: Seq<u8>,
    rec_key: Seq<u8>,
    data: Seq<u8>,
)
    requires
        init_outcome(program, user, holding, rec_key, data) is Ok,
    ensures
        pda_matches(user, holding, program, rec_key),
{
}

/// Every record a successful instruction stores is active only if it is
/// initialized, whatever the operation and whatever the prior record held.
pub proof fn lemma_active_implies_initialized(
    input: Seq<u8>,
    program: Seq<u8>,
    user: Seq<u8>,
    user_signer: bool,
    holding: Seq<u8>,
    rec_key: Seq<u8>,
    rec_owner: Seq<u8>,
    data: Seq<u8>,
    now: i64,
)
    requires
        user.len() == 32,
        holding.len() == 32,
        spec_decode(data) is Some,
        0 <= now,
    ensures
        instruction_outcome(
            input,
            program,
            user,
            user_signer,
            holding,
            rec_key,
            rec_owner,
            data,
            now,
        ) matches Ok(p) ==> (spec_decode(p.0) matches Some(nr) && nr.state_inv()),
{
    let out = instruction_outcome(
        input,
        program,
        user,
        user_signer,
        holding,
        rec_key,
        rec_owner,
        data,
        now,
    );
    lemma_decode_wf(data);
    if out matches Ok(p) {
        let rec = spec_decode(data)->Some_0;
        lemma_encode_decode(crate::state::initialized_record(rec, user, holding));
        lemma_encode_decode(crate::state::staked_record(rec, user, holding, now));
        lemma_encode_decode(crate::state::redeemed_record(rec, now));
        lemma_encode_decode(crate::state::unstaked_record(rec, now));
    }
}

/// The redemption point never moves backwards: across any successful
/// operation under a clock that has not gone backwards, the stored
/// `last_redeem_time` is at least what it was before. Chaining this step
/// over a run of successful operations makes it non-decreasing over the
/// whole run.
pub proof fn lemma_redeem_time_monotonic(
    input: Seq<u8>,
    program: Seq<u8>,
    user: Seq<u8>,
    user_signer: bool,
    holding: Seq<u8>,
    rec_key: Seq<u8>,
    rec_owner: Seq<u8>,
    data: Seq<u8>,
    now: i64,
)
    requires
        user.len() == 32,
        holding.len() == 32,
        spec_decode(data) matches Some(rec) && rec.last_redeem_time <= now,
        0 <= now,
    ensures
        instruction_outcome(
            input,
            program,
            user,
            user_signer,
            holding,
            rec_key,
            rec_owner,
            data,
            now,
        ) matches Ok(p) ==> (spec_decode(p.0) matches Some(nr)
            && spec_decode(data)->Some_0.last_redeem_time <= nr.last_redeem_time),
{
    let out = instruction_outcome(
        input,
        program,
        user,
        user_signer,
        holding,
        rec_key,
        rec_owner,
        data,
        now,
    );
    lemma_decode_wf(data);
    if out matches Ok(p) {
        let rec = spec_decode(data)->Some_0;
        lemma_encode_decode(crate::state::initialized_record(rec, user, holding));
        lemma_encode_decode(crate::state::staked_record(rec, user, holding, now));
        lemma_encode_decode(crate::state::redeemed_record(rec, now));
        lemma_encode_decode(crate::state::unstaked_record(rec, now));
    }
}

/// The reward an instruction reports is exactly the clock time elapsed
/// since the record's last redemption point, and is never negative under a
/// clock that has not gone backwards. Only redeem and unstake report one.
pub proof fn lemma_reward_is_elapsed_time(
    input: Seq<u8>,
    program: Seq<u8>,
    user: Seq<u8>,
    user_signer: bool,
    holding: Seq<u8>,
    rec_key: Seq<u8>,
    rec_owner: Seq<u8>,
    data: Seq<u8>,
    now: i64,
)
    requires
        spec_decode(data) matches Some(rec) && rec.last_redeem_time <= now,
    ensures
        instruction_outcome(
            input,
            program,
            user,
            user_signer,
            holding,
            rec_key,
            rec_owner,
            data,
            now,
        ) matches Ok(p) ==> (p.1 matches Some(reward) ==> (reward == now - spec_decode(
            data,
        )->Some_0.last_redeem_time && 0 <= reward)),
{
    lemma_decode_wf(data);
    let rec = spec_decode(data)->Some_0;
    assert(0 <= now - rec.last_redeem_time <= i64::MAX as int);
    assert((now - rec.last_redeem_time) as i64 == now - rec.last_redeem_time);
}

} // verus!
