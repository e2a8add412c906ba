use vstd::prelude::*;
use crate::identity::Identity;
use crate::issuance::{mint_to_after, mint_to_check};
use crate::state::{Mint, TokenAccount};
use crate::transfers::transfer_after;

verus! {

/// The supply of a mint: the sum of the balances of its accounts, each
/// listed once.
pub open spec fn total_supply(accounts: Seq<TokenAccount>) -> int
    decreases accounts.len(),
{
    if accounts.len() == 0 {
        0
    } else {
        total_supply(accounts.drop_last()) + accounts.last().balance
    }
}

/// Replacing one account changes the supply by the difference of the two
/// balances.
pub proof fn lemma_supply_after_update(accounts: Seq<TokenAccount>, at: int, account: TokenAccount)
    requires
        0 <= at < accounts.len(),
    ensures
        total_supply(accounts.update(at, account)) == total_supply(accounts)
            - accounts[at].balance + account.balance,
    decreases accounts.len(),
{
    let updated = accounts.update(at, account);
    if at == accounts.len() - 1 {
        assert(updated.drop_last() =~= accounts.drop_last());
    } else {
        assert(updated.drop_last() =~= accounts.drop_last().update(at, account));
        lemma_supply_after_update(accounts.drop_last(), at, account);
    }
}

/// A new account adds its starting balance to the supply. With a starting
/// balance of 0 the supply is what the authority has issued.
pub proof fn lemma_new_account_adds_balance(accounts: Seq<TokenAccount>, account: TokenAccount)
    ensures
        total_supply(accounts.push(account)) == total_supply(accounts) + account.balance,
{
    assert(accounts.push(account).drop_last() =~= accounts);
}

/// A transfer between two accounts of a mint, whether it goes through or is
/// refused, leaves the mint's supply as it was.
pub proof fn lemma_transfer_keeps_supply(
    accounts: Seq<TokenAccount>,
    source: int,
    destination: int,
    caller: Identity,
    amount: u64,
)
    requires
        0 <= source < accounts.len(),
        0 <= destination < accounts.len(),
        source != destination,
    ensures
        ({
            let (from, to) = transfer_after(accounts[source], accounts[destination], caller, amount);
            total_supply(accounts.update(source, from).update(destination, to))
                == total_supply(accounts)
        }),
{
    let (from, to) = transfer_after(accounts[source], accounts[destination], caller, amount);
    lemma_supply_after_update(accounts, source, from);
    lemma_supply_after_update(accounts.update(source, from), destination, to);
}

/// An issue that goes through raises the supply by the amount issued; one
/// that is refused leaves it as it was. So the supply never falls.
pub proof fn lemma_mint_to_raises_supply(
    accounts: Seq<TokenAccount>,
    target: int,
    mint: Mint,
    caller: Identity,
    amount: u64,
)
    requires
        0 <= target < accounts.len(),
    ensures
        ({
            let to = mint_to_after(mint, accounts[target], caller, amount);
            let issued: int = if mint_to_check(mint, accounts[target], caller, amount) is Ok {
                amount as int
            } else {
                0
            };
            total_supply(accounts.update(target, to)) == total_supply(accounts) + issued
        }),
{
    let to = mint_to_after(mint, accounts[target], caller, amount);
    lemma_supply_after_update(accounts, target, to);
}

} // verus!
