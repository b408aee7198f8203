//! Token metadata extension helpers.

use vstd::prelude::*;

use solana_program::account_info::AccountInfo;
use solana_program::entrypoint::ProgramResult;

verus! {

/// Update a token's on-chain metadata fields.
///
/// Placeholder for the signed invocation of the metadata extension's update
/// instruction: it accepts the accounts and the name, symbol and URI strings
/// that the invocation will take, validates nothing, performs no work, and
/// reports success for every input.
#[allow(unused_variables)]
pub fn update_token_metadata(
    accounts: &[AccountInfo],
    name: &str,
    symbol: &str,
    uri: &str,
) -> (r: ProgramResult)
    ensures
        r is Ok,
{
    Ok(())
}

} // verus!
