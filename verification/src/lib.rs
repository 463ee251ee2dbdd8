//! A staking state machine: a user locks a token holding against a
//! per-(user, holding) record stored at a deterministically derived,
//! program-owned address, accrues a time-based reward, and later releases
//! the lock.
//!
//! The library is the instruction core: decoding an operation, deriving and
//! validating the record address, enforcing per-operation preconditions, and
//! applying the state transition exactly once, atomically. The host runtime
//! (account creation, clock reads, signature verification) stays outside;
//! its facts enter as plain values.

pub mod error;
pub mod identity;
pub mod state;
pub mod codec;
pub mod pda;
pub mod instruction;
pub mod processor;
pub mod guarantees;
