//! Helpers for driving token-program extension operations on a blockchain
//! runtime.
//!
//! Each entry point stands for one operation — minting, transferring,
//! updating a token's metadata, withdrawing withheld transfer fees — and is
//! a placeholder: it accepts the account handles and parameters that the
//! eventual signed invocation will take, performs no work, touches no
//! account, and reports success. The contracts state exactly that, so every
//! caller can rely on each call succeeding and leaving all state unchanged.

use vstd::prelude::*;

pub mod metadata;
pub mod transfer_fee;
pub mod token_core;

verus! {

/// Declares the runtime's account handle, `solana_program::account_info::AccountInfo`,
/// so that signatures can carry slices of it. The library never reads or
/// writes a value of this type.
#[verifier::external_type_specification]
#[verifier::external_body]
pub struct ExAccountInfo<'a>(solana_program::account_info::AccountInfo<'a>);

/// Declares the runtime's address type, `solana_program::pubkey::Pubkey`.
/// The library carries such addresses through without inspecting them.
#[verifier::external_type_specification]
#[verifier::external_body]
pub struct ExPubkey(solana_program::pubkey::Pubkey);

/// Declares `solana_program::program_error::ProgramError`, the failure side
/// of the runtime's program-result convention. No function of this library
/// ever constructs or returns one.
#[verifier::external_type_specification]
#[verifier::external_body]
pub struct ExProgramError(solana_program::program_error::ProgramError);

} // verus!
