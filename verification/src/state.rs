use vstd::prelude::*;
use crate::identity::Identity;

verus! {

/// One fungible unit type: its decimal precision and the identity that may
/// issue it. Both are fixed when the mint is created; no operation of the
/// ledger takes a mint mutably.
#[derive(Clone, Copy, Debug, PartialEq, Eq)]
pub struct Mint {
    /// Number of fractional digits of one unit.
    pub decimals: u8,
    /// The only identity allowed to issue units of this mint.
    pub mint_authority: Identity,
}

/// One owner's balance of one mint's units, counted in the mint's smallest
/// unit. The balance is unsigned, so it is never negative.
#[derive(Clone, Copy, Debug, PartialEq, Eq)]
pub struct TokenAccount {
    /// The identity that authorizes transfers out of this account.
    pub owner: Identity,
    pub balance: u64,
}

} // verus!
