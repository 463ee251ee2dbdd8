use staking::codec::{decode_record, encode_record};
use staking::error::StakeError;
use staking::identity::Identity;
use staking::instruction::StakeInstruction;
use staking::pda::derive_record_address;
use staking::processor::{
    process_initialize_stake_account, process_instruction, process_redeem, process_stake,
    process_unstake,
};
use staking::state::UserStakeInfo;

fn ident(tag: u8) -> Identity {
    Identity { bytes: [tag; 32] }
}

fn program() -> Identity {
    ident(7)
}

fn user1() -> Identity {
    ident(1)
}

fn holding1() -> Identity {
    ident(2)
}

fn derived_key() -> Identity {
    derive_record_address(&user1(), &holding1(), &program())
        .expect("derivation should find a bump seed")
        .0
}

fn fresh_storage() -> Vec<u8> {
    vec![0u8; UserStakeInfo::SIZE]
}

/// Storage after a successful initialize for (user1, holding1).
fn initialized_storage() -> Vec<u8> {
    let mut data = fresh_storage();
    let r = process_initialize_stake_account(
        &program(),
        &user1(),
        &holding1(),
        &derived_key(),
        &mut data,
    );
    assert_eq!(r, Ok(()));
    data
}

/// Storage after initialize and a stake at t=1000.
fn staked_storage() -> Vec<u8> {
    let mut data = initialized_storage();
    let r = process_stake(
        &program(),
        &user1(),
        true,
        &holding1(),
        &derived_key(),
        &program(),
        &mut data,
        1000,
    );
    assert_eq!(r, Ok(()));
    data
}

#[test]
fn derivation_is_deterministic() {
    let a = derive_record_address(&user1(), &holding1(), &program()).unwrap();
    let b = derive_record_address(&user1(), &holding1(), &program()).unwrap();
    assert_eq!(a.0.bytes, b.0.bytes);
    assert_eq!(a.1, b.1);
    // the derived address is a genuinely new identity, not an input echoed back
    assert_ne!(a.0.bytes, user1().bytes);
    assert_ne!(a.0.bytes, holding1().bytes);
    assert_ne!(a.0.bytes, program().bytes);
}

#[test]
fn distinct_pairs_derive_distinct_addresses() {
    let a = derive_record_address(&user1(), &holding1(), &program()).unwrap();
    let b = derive_record_address(&ident(3), &holding1(), &program()).unwrap();
    let c = derive_record_address(&user1(), &ident(4), &program()).unwrap();
    assert_ne!(a.0.bytes, b.0.bytes);
    assert_ne!(a.0.bytes, c.0.bytes);
}

#[test]
fn initialize_creates_owned_inactive_record() {
    let data = initialized_storage();
    let rec = decode_record(&data).expect("stored bytes decode");
    assert!(rec.is_initialized);
    assert_eq!(rec.user.bytes, user1().bytes);
    assert_eq!(rec.token_account.bytes, holding1().bytes);
    assert!(!rec.is_stake_active);
}

#[test]
fn initialize_rejects_wrong_address() {
    let mut data = fresh_storage();
    let before = data.clone();
    let r =
        process_initialize_stake_account(&program(), &user1(), &holding1(), &user1(), &mut data);
    assert_eq!(r, Err(StakeError::InvalidPda));
    assert_eq!(data, before);
}

#[test]
fn initialize_rejects_second_initialize() {
    let mut data = initialized_storage();
    let before = data.clone();
    let r = process_initialize_stake_account(
        &program(),
        &user1(),
        &holding1(),
        &derived_key(),
        &mut data,
    );
    assert_eq!(r, Err(StakeError::AccountAlreadyInitialized));
    assert_eq!(data, before);
}

#[test]
fn stake_activates_and_stamps_times() {
    let data = staked_storage();
    let rec = decode_record(&data).unwrap();
    assert_eq!(rec.stake_start_time, 1000);
    assert_eq!(rec.last_redeem_time, 1000);
    assert!(rec.is_stake_active);
    assert!(rec.is_initialized);
}

#[test]
fn redeem_reports_elapsed_reward_and_stays_active() {
    let mut data = staked_storage();
    let r = process_redeem(
        &program(),
        &user1(),
        true,
        &holding1(),
        &derived_key(),
        &program(),
        &mut data,
        1100,
    );
    assert_eq!(r, Ok(100));
    let rec = decode_record(&data).unwrap();
    assert_eq!(rec.last_redeem_time, 1100);
    assert_eq!(rec.stake_start_time, 1000);
    assert!(rec.is_stake_active);
}

#[test]
fn unstake_reports_reward_and_deactivates() {
    let mut data = staked_storage();
    let r = process_redeem(
        &program(),
        &user1(),
        true,
        &holding1(),
        &derived_key(),
        &program(),
        &mut data,
        1100,
    );
    assert_eq!(r, Ok(100));
    let r = process_unstake(
        &program(),
        &user1(),
        true,
        &holding1(),
        &derived_key(),
        &program(),
        &mut data,
        1500,
    );
    assert_eq!(r, Ok(400));
    let rec = decode_record(&data).unwrap();
    assert_eq!(rec.last_redeem_time, 1500);
    assert!(!rec.is_stake_active);
    assert!(rec.is_initialized);
}

#[test]
fn stake_while_active_fails_and_leaves_storage_unchanged() {
    let mut data = staked_storage();
    let before = data.clone();
    let r = process_stake(
        &program(),
        &user1(),
        true,
        &holding1(),
        &derived_key(),
        &program(),
        &mut data,
        1001,
    );
    assert_eq!(r, Err(StakeError::AlreadyActive));
    assert_eq!(data, before);
}

#[test]
fn operations_with_wrong_address_fail_with_invalid_pda() {
    let mut data = staked_storage();
    let before = data.clone();
    let wrong = ident(9);
    let r = process_stake(
        &program(),
        &user1(),
        true,
        &holding1(),
        &wrong,
        &program(),
        &mut data,
        1001,
    );
    assert_eq!(r, Err(StakeError::InvalidPda));
    let r = process_redeem(
        &program(),
        &user1(),
        true,
        &holding1(),
        &wrong,
        &program(),
        &mut data,
        1100,
    );
    assert_eq!(r, Err(StakeError::InvalidPda));
    let r = process_unstake(
        &program(),
        &user1(),
        true,
        &holding1(),
        &wrong,
        &program(),
        &mut data,
        1100,
    );
    assert_eq!(r, Err(StakeError::InvalidPda));
    assert_eq!(data, before);
}

#[test]
fn missing_signature_is_rejected() {
    let mut data = staked_storage();
    let before = data.clone();
    let r = process_redeem(
        &program(),
        &user1(),
        false,
        &holding1(),
        &derived_key(),
        &program(),
        &mut data,
        1100,
    );
    assert_eq!(r, Err(StakeError::MissingSignature));
    assert_eq!(data, before);
}

#[test]
fn foreign_storage_owner_is_rejected() {
    let mut data = staked_storage();
    let before = data.clone();
    let r = process_stake(
        &program(),
        &user1(),
        true,
        &holding1(),
        &derived_key(),
        &ident(8),
        &mut data,
        1001,
    );
    assert_eq!(r, Err(StakeError::IllegalOwner));
    assert_eq!(data, before);
}

#[test]
fn stake_of_uninitialized_record_is_rejected() {
    let mut data = fresh_storage();
    let before = data.clone();
    let r = process_stake(
        &program(),
        &user1(),
        true,
        &holding1(),
        &derived_key(),
        &program(),
        &mut data,
        1000,
    );
    assert_eq!(r, Err(StakeError::UninitializedAccount));
    assert_eq!(data, before);
}

#[test]
fn redeem_of_inactive_record_is_rejected() {
    let mut data = initialized_storage();
    let before = data.clone();
    let r = process_redeem(
        &program(),
        &user1(),
        true,
        &holding1(),
        &derived_key(),
        &program(),
        &mut data,
        1100,
    );
    assert_eq!(r, Err(StakeError::NotActive));
    assert_eq!(data, before);
}

#[test]
fn foreign_stored_user_is_rejected() {
    // a record at (user1, holding1)'s address whose stored user is someone else
    let rec = UserStakeInfo {
        is_initialized: true,
        user: ident(3),
        token_account: holding1(),
        stake_start_time: 1000,
        last_redeem_time: 1000,
        is_stake_active: true,
    };
    let mut data = encode_record(&rec);
    let before = data.clone();
    let r = process_redeem(
        &program(),
        &user1(),
        true,
        &holding1(),
        &derived_key(),
        &program(),
        &mut data,
        1100,
    );
    assert_eq!(r, Err(StakeError::InvalidStakeAccount));
    assert_eq!(data, before);
}

#[test]
fn foreign_stored_holding_is_rejected() {
    let rec = UserStakeInfo {
        is_initialized: true,
        user: user1(),
        token_account: ident(4),
        stake_start_time: 1000,
        last_redeem_time: 1000,
        is_stake_active: true,
    };
    let mut data = encode_record(&rec);
    let before = data.clone();
    let r = process_unstake(
        &program(),
        &user1(),
        true,
        &holding1(),
        &derived_key(),
        &program(),
        &mut data,
        1100,
    );
    assert_eq!(r, Err(StakeError::InvalidTokenAccount));
    assert_eq!(data, before);
}

#[test]
fn unpack_decodes_each_opcode() {
    assert_eq!(
        StakeInstruction::unpack(&[0]),
        Ok(StakeInstruction::InitializeStakeAccount)
    );
    assert_eq!(StakeInstruction::unpack(&[1]), Ok(StakeInstruction::Stake));
    assert_eq!(StakeInstruction::unpack(&[2]), Ok(StakeInstruction::Redeem));
    assert_eq!(StakeInstruction::unpack(&[3]), Ok(StakeInstruction::Unstake));
}

#[test]
fn unpack_rejects_empty_and_unknown() {
    assert_eq!(
        StakeInstruction::unpack(&[]),
        Err(StakeError::InvalidInstruction)
    );
    assert_eq!(
        StakeInstruction::unpack(&[4]),
        Err(StakeError::InvalidInstruction)
    );
    assert_eq!(
        StakeInstruction::unpack(&[255]),
        Err(StakeError::InvalidInstruction)
    );
}

#[test]
fn full_instruction_flow() {
    let mut data = fresh_storage();
    let r = process_instruction(
        &program(),
        &user1(),
        true,
        &holding1(),
        &derived_key(),
        &program(),
        &mut data,
        0,
        &[0],
    );
    assert_eq!(r, Ok(None));
    let r = process_instruction(
        &program(),
        &user1(),
        true,
        &holding1(),
        &derived_key(),
        &program(),
        &mut data,
        1000,
        &[1],
    );
    assert_eq!(r, Ok(None));
    let r = process_instruction(
        &program(),
        &user1(),
        true,
        &holding1(),
        &derived_key(),
        &program(),
        &mut data,
        1100,
        &[2],
    );
    assert_eq!(r, Ok(Some(100)));
    let r = process_instruction(
        &program(),
        &user1(),
        true,
        &holding1(),
        &derived_key(),
        &program(),
        &mut data,
        1500,
        &[3],
    );
    assert_eq!(r, Ok(Some(400)));
    let rec = decode_record(&data).unwrap();
    assert!(!rec.is_stake_active);
    let before = data.clone();
    let r = process_instruction(
        &program(),
        &user1(),
        true,
        &holding1(),
        &derived_key(),
        &program(),
        &mut data,
        1600,
        &[42],
    );
    assert_eq!(r, Err(StakeError::InvalidInstruction));
    assert_eq!(data, before);
}

#[test]
fn record_roundtrips_through_storage() {
    let rec = UserStakeInfo {
        is_initialized: true,
        user: ident(11),
        token_account: ident(12),
        stake_start_time: 123456789,
        last_redeem_time: i64::MAX,
        is_stake_active: true,
    };
    let data = encode_record(&rec);
    assert_eq!(data.len(), UserStakeInfo::SIZE);
    let back = decode_record(&data).unwrap();
    assert_eq!(back.is_initialized, rec.is_initialized);
    assert_eq!(back.user.bytes, rec.user.bytes);
    assert_eq!(back.token_account.bytes, rec.token_account.bytes);
    assert_eq!(back.stake_start_time, rec.stake_start_time);
    assert_eq!(back.last_redeem_time, rec.last_redeem_time);
    assert_eq!(back.is_stake_active, rec.is_stake_active);
}

#[test]
fn fresh_storage_decodes_to_blank_record() {
    let rec = decode_record(&fresh_storage()).unwrap();
    assert!(!rec.is_initialized);
    assert!(!rec.is_stake_active);
    assert_eq!(rec.stake_start_time, 0);
    assert_eq!(rec.last_redeem_time, 0);
}

#[test]
fn malformed_storage_does_not_decode() {
    // wrong size
    assert!(decode_record(&vec![0u8; 81]).is_none());
    assert!(decode_record(&vec![0u8; 83]).is_none());
    // an invalid flag byte
    let mut data = fresh_storage();
    data[0] = 2;
    assert!(decode_record(&data).is_none());
    let mut data = fresh_storage();
    data[81] = 7;
    assert!(decode_record(&data).is_none());
    // a timestamp outside the signed range
    let mut data = fresh_storage();
    data[72] = 0x80;
    assert!(decode_record(&data).is_none());
    let mut data = fresh_storage();
    data[80] = 0x80;
    assert!(decode_record(&data).is_none());
}

#[test]
fn error_codes_are_stable_and_distinct() {
    let all = [
        StakeError::UninitializedAccount,
        StakeError::InvalidPda,
        StakeError::InvalidTokenAccount,
        StakeError::InvalidStakeAccount,
        StakeError::InvalidInstruction,
        StakeError::MissingSignature,
        StakeError::IllegalOwner,
        StakeError::AccountAlreadyInitialized,
        StakeError::AlreadyActive,
        StakeError::NotActive,
    ];
    for (i, e) in all.iter().enumerate() {
        assert_eq!(e.code(), i as u32);
    }
    assert_eq!(StakeError::UninitializedAccount.code(), 0);
    assert_eq!(StakeError::InvalidPda.code(), 1);
    assert_eq!(StakeError::InvalidTokenAccount.code(), 2);
    assert_eq!(StakeError::InvalidStakeAccount.code(), 3);
}

#[test]
fn is_initialized_reads_the_flag() {
    let rec = decode_record(&initialized_storage()).unwrap();
    assert!(rec.is_initialized());
    let blank = decode_record(&fresh_storage()).unwrap();
    assert!(!blank.is_initialized());
}
