//! Builders for cross-program invocations of the token program's optional
//! extension instructions.
//!
//! The library lays out each instruction's payload by byte offset, expands a
//! possibly multisig authority into a bounded account list, and packages both
//! into one instruction value together with the account handles that the
//! runtime needs for the call. Performing the call itself is left to the
//! caller.
use vstd::prelude::*;

pub mod layout;
pub mod encode;
pub mod accounts;
pub mod cpi;
pub mod cpi_guard;
pub mod group_member_pointer;
pub mod group_pointer;
pub mod metadata_pointer;
pub mod permanent_delegate;
pub mod token_group;
pub mod transfer_hook;

verus! {

/// A 32-byte account address: the runtime's `Pubkey`.
pub type Address = pinocchio::pubkey::Pubkey;

/// The most co-signers that a multisig authority may bring.
pub const MAX_MULTISIG_SIGNERS: usize = 11;

} // verus!
