//! The address deriver: the deterministic, program-owned record address for
//! a (user, holding) pair, computed by the ledger's program-derived-address
//! search (seed order: user then holding), together with its bump seed.

use vstd::prelude::*;
use crate::identity::{identity_eq, Identity};

verus! {

/// What the ledger's program-derived-address search yields for the seeds
/// (user, holding) under a program: the address and its bump seed, or
/// `None` in the statistically improbable event that no bump seed works.
/// The result depends on the three inputs alone.
pub uninterp spec fn pda_of(user: Seq<u8>, holding: Seq<u8>, program: Seq<u8>) -> Option<
    (Seq<u8>, u8),
>;

/// Relies on solana_program::pubkey::Pubkey::try_find_program_address: a
/// deterministic search over bump seeds, hashing the seeds and program id;
/// it returns the first candidate address off the ed25519 curve with its
/// bump, or `None` when no bump seed yields one.
#[verifier::external_body]
fn find_record_address(user: &Identity, holding: &Identity, program: &Identity) -> (r: Option<
    (Identity, u8),
>)
    ensures
        match r {
            Some(p) => pda_of(user@, holding@, program@) matches Some(q) && p.0@ == q.0 && p.1
                == q.1,
            None => pda_of(user@, holding@, program@) is None,
        },
{
    let u = solana_program::pubkey::Pubkey::new_from_array(user.bytes);
    let h = solana_program::pubkey::Pubkey::new_from_array(holding.bytes);
    let p = solana_program::pubkey::Pubkey::new_from_array(program.bytes);
    solana_program::pubkey::Pubkey::try_find_program_address(&[u.as_ref(), h.as_ref()], &p)
        .map(|(a, b)| (Identity { bytes: a.to_bytes() }, b))
}

/// The derivation check every operation enforces: the provided record
/// address equals the derived one. A pair whose derivation fails has no
/// valid record address at all.
pub open spec fn pda_matches(
    user: Seq<u8>,
    holding: Seq<u8>,
    program: Seq<u8>,
    record_key: Seq<u8>,
) -> bool {
    match pda_of(user, holding, program) {
        Some(q) => q.0 == record_key,
        None => false,
    }
}

/// Derives the record address and bump seed for a (user, holding) pair
/// under a program.
pub fn derive_record_address(user: &Identity, holding: &Identity, program: &Identity) -> (r:
    Option<(Identity, u8)>)
    ensures
        match r {
            Some(p) => pda_of(user@, holding@, program@) matches Some(q) && p.0@ == q.0 && p.1
                == q.1,
            None => pda_of(user@, holding@, program@) is None,
        },
{
    find_record_address(user, holding, program)
}

/// Checks the provided record address against the derivation.
pub fn check_record_address(
    user: &Identity,
    holding: &Identity,
    program: &Identity,
    record_key: &Identity,
) -> (r: bool)
    ensures
        r == pda_matches(user@, holding@, program@, record_key@),
{
    match find_record_address(user, holding, program) {
        Some(derived) => identity_eq(&derived.0, record_key),
        None => false,
    }
}

} // verus!
