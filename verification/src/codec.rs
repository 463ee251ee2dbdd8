//! The storage encoding of a record: a fixed-size byte layout in field
//! order, with one byte per flag, 32 bytes per identity, and each timestamp
//! as eight little-endian bytes. Storage is sized to exactly this encoding,
//! and an operation's single write at commit time is one whole encoded
//! record.

use vstd::prelude::*;
use vstd::bytes::{
    spec_u64_from_le_bytes, spec_u64_to_le_bytes, lemma_auto_spec_u64_to_from_le_bytes,
    u64_from_le_bytes, u64_to_le_bytes,
};
use vstd::slice::slice_subrange;
use vstd::array::ArrayAdditionalExecFns;
use crate::identity::Identity;
use crate::state::{RecordView, UserStakeInfo};

verus! {

/// The byte that encodes a flag: one for true, zero for false.
pub open spec fn flag_byte(b: bool) -> u8 {
    if b {
        1
    } else {
        0
    }
}

/// A byte is a well-formed flag encoding.
pub open spec fn valid_flag(b: u8) -> bool {
    b == 0 || b == 1
}

/// The eight-byte little-endian encoding of a non-negative timestamp.
pub open spec fn spec_time_bytes(t: i64) -> Seq<u8>
    recommends
        0 <= t,
{
    spec_u64_to_le_bytes(t as u64)
}

/// Eight bytes are a well-formed timestamp encoding: their little-endian
/// value is a non-negative signed timestamp.
pub open spec fn valid_time_bytes(s: Seq<u8>) -> bool {
    spec_u64_from_le_bytes(s) <= i64::MAX as u64
}

/// The encoded form of a well-formed record.
pub open spec fn spec_encode(r: RecordView) -> Seq<u8>
    recommends
        r.wf(),
{
    seq![flag_byte(r.is_initialized)] + r.user + r.token_account
        + spec_time_bytes(r.stake_start_time) + spec_time_bytes(r.last_redeem_time)
        + seq![flag_byte(r.is_stake_active)]
}

/// The record stored in a byte sequence, or `None` where the bytes are not
/// a well-formed record encoding.
pub open spec fn spec_decode(data: Seq<u8>) -> Option<RecordView> {
    if data.len() == UserStakeInfo::SIZE && valid_flag(data[0]) && valid_flag(data[81])
        && valid_time_bytes(data.subrange(65, 73)) && valid_time_bytes(data.subrange(73, 81)) {
        Some(
            RecordView {
                is_initialized: data[0] == 1,
                user: data.subrange(1, 33),
                token_account: data.subrange(33, 65),
                stake_start_time: spec_u64_from_le_bytes(data.subrange(65, 73)) as i64,
                last_redeem_time: spec_u64_from_le_bytes(data.subrange(73, 81)) as i64,
                is_stake_active: data[81] == 1,
            },
        )
    } else {
        None
    }
}

/// Every record that decodes from storage is well-formed.
pub proof fn lemma_decode_wf(data: Seq<u8>)
    ensures
        spec_decode(data) matches Some(r) ==> r.wf(),
{
}

/// Encoding a well-formed record and decoding the bytes gives the record
/// back: the storage layout loses nothing.
pub proof fn lemma_encode_decode(r: RecordView)
    requires
        r.wf(),
    ensures
        spec_encode(r).len() == UserStakeInfo::SIZE,
        spec_decode(spec_encode(r)) == Some(r),
{
    lemma_auto_spec_u64_to_from_le_bytes();
    let e = spec_encode(r);
    assert(spec_time_bytes(r.stake_start_time).len() == 8);
    assert(spec_time_bytes(r.last_redeem_time).len() == 8);
    assert(e.len() == UserStakeInfo::SIZE);
    assert(e.subrange(1, 33) =~= r.user);
    assert(e.subrange(33, 65) =~= r.token_account);
    assert(e.subrange(65, 73) =~= spec_time_bytes(r.stake_start_time));
    assert(e.subrange(73, 81) =~= spec_time_bytes(r.last_redeem_time));
    assert(e[0] == flag_byte(r.is_initialized));
    assert(e[81] == flag_byte(r.is_stake_active));
    assert(spec_u64_from_le_bytes(e.subrange(65, 73)) == r.stake_start_time as u64);
    assert(spec_u64_from_le_bytes(e.subrange(73, 81)) == r.last_redeem_time as u64);
    assert(spec_decode(e) matches Some(d) && d =~= r);
}

/// Freshly allocated storage, all zero bytes of the record size, decodes
/// to the blank record: not initialized, not active, both timestamps zero.
pub proof fn lemma_fresh_storage_decodes(data: Seq<u8>)
    requires
        data.len() == UserStakeInfo::SIZE,
        forall|i: int| 0 <= i < data.len() ==> data[i] == 0u8,
    ensures
        spec_decode(data) matches Some(r) && !r.is_initialized && !r.is_stake_active
            && r.stake_start_time == 0 && r.last_redeem_time == 0,
{
    lemma_auto_spec_u64_to_from_le_bytes();
    vstd::bytes::spec_u64_to_le_bytes_to_open(0u64);
    assert((0u64 & 0xff) == 0 && ((0u64 >> 8) & 0xff) == 0 && ((0u64 >> 16) & 0xff) == 0
        && ((0u64 >> 24) & 0xff) == 0 && ((0u64 >> 32) & 0xff) == 0 && ((0u64 >> 40) & 0xff) == 0
        && ((0u64 >> 48) & 0xff) == 0 && ((0u64 >> 56) & 0xff) == 0) by (bit_vector);
    assert(spec_u64_to_le_bytes(0u64) =~= data.subrange(65, 73));
    assert(spec_u64_to_le_bytes(0u64) =~= data.subrange(73, 81));
    assert(spec_u64_from_le_bytes(data.subrange(65, 73)) == 0u64);
    assert(spec_u64_from_le_bytes(data.subrange(73, 81)) == 0u64);
}

/// Reads a record out of its stored bytes; `None` where the bytes are not
/// a well-formed record encoding.
pub fn decode_record(data: &[u8]) -> (r: Option<UserStakeInfo>)
    ensures
        match r {
            Some(rec) => spec_decode(data@) == Some(rec@),
            None => spec_decode(data@) is None,
        },
{
    if data.len() != UserStakeInfo::SIZE {
        return None;
    }
    let init_flag = data[0];
    let active_flag = data[81];
    if init_flag > 1 || active_flag > 1 {
        return None;
    }
    let start_raw = u64_from_le_bytes(slice_subrange(data, 65, 73));
    let last_raw = u64_from_le_bytes(slice_subrange(data, 73, 81));
    if start_raw > i64::MAX as u64 || last_raw > i64::MAX as u64 {
        return None;
    }
    let mut user_bytes: [u8; 32] = [0; 32];
    let mut i: usize = 0;
    while i < 32
        invariant
            i <= 32,
            data@.len() == UserStakeInfo::SIZE,
            forall|j: int| 0 <= j < i ==> user_bytes@[j] == data@[1 + j],
        decreases 32 - i,
    {
        user_bytes[i] = data[1 + i];
        i = i + 1;
    }
    let mut holding_bytes: [u8; 32] = [0; 32];
    let mut k: usize = 0;
    while k < 32
        invariant
            k <= 32,
            data@.len() == UserStakeInfo::SIZE,
            forall|j: int| 0 <= j < k ==> holding_bytes@[j] == data@[33 + j],
        decreases 32 - k,
    {
        holding_bytes[k] = data[33 + k];
        k = k + 1;
    }
    let rec = UserStakeInfo {
        is_initialized: init_flag == 1,
        user: Identity { bytes: user_bytes },
        token_account: Identity { bytes: holding_bytes },
        stake_start_time: start_raw as i64,
        last_redeem_time: last_raw as i64,
        is_stake_active: active_flag == 1,
    };
    proof {
        assert(user_bytes@ =~= data@.subrange(1, 33));
        assert(holding_bytes@ =~= data@.subrange(33, 65));
        assert(spec_decode(data@) matches Some(d) && d =~= rec@);
    }
    Some(rec)
}

/// Writes a well-formed record into its stored byte form.
pub fn encode_record(rec: &UserStakeInfo) -> (out: Vec<u8>)
    requires
        rec@.wf(),
    ensures
        out@ == spec_encode(rec@),
        out@.len() == UserStakeInfo::SIZE,
{
    let mut out: Vec<u8> = Vec::new();
    out.push(if rec.is_initialized {
        1
    } else {
        0
    });
    let mut i: usize = 0;
    while i < 32
        invariant
            i <= 32,
            out@.len() == 1 + i,
            out@[0] == flag_byte(rec@.is_initialized),
            forall|j: int| 0 <= j < i ==> out@[1 + j] == rec@.user[j],
        decreases 32 - i,
    {
        out.push(rec.user.bytes[i]);
        i = i + 1;
    }
    let mut k: usize = 0;
    while k < 32
        invariant
            k <= 32,
            out@.len() == 33 + k,
            out@[0] == flag_byte(rec@.is_initialized),
            forall|j: int| 0 <= j < 32 ==> out@[1 + j] == rec@.user[j],
            forall|j: int| 0 <= j < k ==> out@[33 + j] == rec@.token_account[j],
        decreases 32 - k,
    {
        out.push(rec.token_account.bytes[k]);
        k = k + 1;
    }
    let mut start_bytes = u64_to_le_bytes(rec.stake_start_time as u64);
    out.append(&mut start_bytes);
    let mut last_bytes = u64_to_le_bytes(rec.last_redeem_time as u64);
    out.append(&mut last_bytes);
    out.push(if rec.is_stake_active {
        1
    } else {
        0
    });
    proof {
        lemma_auto_spec_u64_to_from_le_bytes();
        assert(out@ =~= spec_encode(rec@));
    }
    out
}

} // verus!
