use vstd::prelude::*;
use crate::identity::Identity;
use crate::state::{Mint, TokenAccount};

verus! {

/// Creates a mint with the given precision. The caller, `authority`, becomes
/// its issuing authority: a mint cannot be created on behalf of another
/// identity.
pub fn init_mint(decimals: u8, authority: Identity) -> (mint: Mint)
    ensures
        mint.decimals == decimals,
        mint.mint_authority == authority,
{
    Mint { decimals, mint_authority: authority }
}

/// Creates an account owned by the caller, `owner`.
///
/// `starting_balance` is the ledger's policy for new accounts. A ledger whose
/// units come into being only through `mint_to` passes 0; any other value is
/// a grant that no authority signed for.
pub fn init_token_account(owner: Identity, starting_balance: u64) -> (account: TokenAccount)
    ensures
        account.owner == owner,
        account.balance == starting_balance,
{
    TokenAccount { owner, balance: starting_balance }
}

} // verus!
