//! Core token operations: minting and transferring.

use vstd::prelude::*;

use solana_program::account_info::AccountInfo;
use solana_program::entrypoint::ProgramResult;
use solana_program::pubkey::Pubkey;

verus! {

/// Mint new tokens to a destination account.
///
/// Placeholder for the signed invocation of the token program's mint
/// instruction: it accepts the accounts, the amount, the mint address and
/// the authority seeds that the invocation will take, performs no work,
/// and reports success for every input.
#[allow(unused_variables)]
pub fn mint_to(
    accounts: &[AccountInfo],
    amount: u64,
    mint_pubkey: &Pubkey,
    authority_seeds: &[&[u8]],
) -> (r: ProgramResult)
    ensures
        r is Ok,
{
    Ok(())
}

/// Transfer tokens from a source account to a destination account.
///
/// Placeholder for the signed invocation of the token program's transfer
/// instruction: it accepts the accounts, the amount and the authority seeds
/// that the invocation will take, performs no work, and reports success for
/// every input.
#[allow(unused_variables)]
pub fn transfer(
    accounts: &[AccountInfo],
    amount: u64,
    authority_seeds: &[&[u8]],
) -> (r: ProgramResult)
    ensures
        r is Ok,
{
    Ok(())
}

} // verus!
