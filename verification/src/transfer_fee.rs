//! Transfer-fee extension helpers.

use vstd::prelude::*;

use solana_program::account_info::AccountInfo;
use solana_program::entrypoint::ProgramResult;

verus! {

/// Withdraw previously withheld transfer-fee tokens from a set of accounts
/// into a destination account.
///
/// Placeholder for the signed invocation of the transfer-fee extension's
/// withdraw instruction: it accepts the accounts and the amount that the
/// invocation will take, performs no work, and reports success for every
/// input.
#[allow(unused_variables)]
pub fn withdraw_withheld_tokens_from_accounts(
    accounts: &[AccountInfo],
    amount: u64,
) -> (r: ProgramResult)
    ensures
        r is Ok,
{
    Ok(())
}

} // verus!
