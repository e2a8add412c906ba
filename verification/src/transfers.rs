use vstd::prelude::*;
use crate::error::ErrorCode;
use crate::identity::Identity;
use crate::state::TokenAccount;

verus! {

/// `account` with `amount` taken from its balance.
pub open spec fn debited(account: TokenAccount, amount: u64) -> TokenAccount
    recommends
        amount <= account.balance,
{
    TokenAccount { owner: account.owner, balance: (account.balance - amount) as u64 }
}

/// `account` with `amount` added to its balance.
pub open spec fn credited(account: TokenAccount, amount: u64) -> TokenAccount
    recommends
        account.balance + amount <= u64::MAX,
{
    TokenAccount { owner: account.owner, balance: (account.balance + amount) as u64 }
}

/// Whether a transfer of `amount` from `from` to `to`, authorized by
/// `caller`, goes through, and if not, why. The three conditions are tried
/// in this order and the first that fails decides.
pub open spec fn transfer_check(
    from: TokenAccount,
    to: TokenAccount,
    caller: Identity,
    amount: u64,
) -> Result<(), ErrorCode> {
    if caller != from.owner {
        Err(ErrorCode::Unauthorized)
    } else if amount > from.balance {
        Err(ErrorCode::InsufficientFunds)
    } else if to.balance + amount > u64::MAX {
        Err(ErrorCode::ArithmeticOverflow)
    } else {
        Ok(())
    }
}

/// The source and the destination as a transfer leaves them: debited and
/// credited where it goes through, untouched where it is refused.
pub open spec fn transfer_after(
    from: TokenAccount,
    to: TokenAccount,
    caller: Identity,
    amount: u64,
) -> (TokenAccount, TokenAccount) {
    if transfer_check(from, to, caller, amount) is Ok {
        (debited(from, amount), credited(to, amount))
    } else {
        (from, to)
    }
}

/// Moves `amount` units from `from` to `to` on the authority of `caller`.
///
/// Fails with `Unauthorized` unless `caller` owns `from`, with
/// `InsufficientFunds` if `from` holds less than `amount`, and with
/// `ArithmeticOverflow` if `to` cannot hold `amount` more. The destination
/// is tested before the source is debited, so a refused transfer leaves both
/// accounts as they were. A transfer of 0 by the owner succeeds and changes
/// nothing.
///
/// The two exclusive borrows make `from` and `to` distinct records. For a
/// transfer from an account to itself see [`self_transfer`].
pub fn transfer(
    from: &mut TokenAccount,
    to: &mut TokenAccount,
    caller: Identity,
    amount: u64,
) -> (res: Result<(), ErrorCode>)
    ensures
        res == transfer_check(*old(from), *old(to), caller, amount),
        (*final(from), *final(to)) == transfer_after(*old(from), *old(to), caller, amount),
        res is Ok ==> final(from).balance + final(to).balance
            == old(from).balance + old(to).balance,
        res is Err ==> *final(from) == *old(from) && *final(to) == *old(to),
{
    if caller != from.owner {
        return Err(ErrorCode::Unauthorized);
    }
    if amount > from.balance {
        return Err(ErrorCode::InsufficientFunds);
    }
    let raised: u64 = match to.balance.checked_add(amount) {
        Some(sum) => sum,
        None => {
            return Err(ErrorCode::ArithmeticOverflow);
        },
    };
    from.balance = from.balance - amount;
    to.balance = raised;
    Ok(())
}

/// A transfer never wraps a balance. It goes through exactly when the caller
/// owns the source and both new balances, computed over the integers, are
/// balances again; it then leaves exactly those two integers behind.
pub proof fn lemma_transfer_is_exact(
    from: TokenAccount,
    to: TokenAccount,
    caller: Identity,
    amount: u64,
)
    ensures
        transfer_check(from, to, caller, amount) is Ok <==> {
            &&& caller == from.owner
            &&& 0 <= from.balance - amount
            &&& to.balance + amount <= u64::MAX
        },
        transfer_check(from, to, caller, amount) is Ok ==> {
            let (source, destination) = transfer_after(from, to, caller, amount);
            &&& source.owner == from.owner
            &&& source.balance == from.balance - amount
            &&& destination.owner == to.owner
            &&& destination.balance == to.balance + amount
        },
{
}

/// Conservation: a transfer that goes through makes no units and loses
/// none. The two balances add up to what they added up to before.
pub proof fn lemma_transfer_conserves(
    from: TokenAccount,
    to: TokenAccount,
    caller: Identity,
    amount: u64,
)
    requires
        transfer_check(from, to, caller, amount) is Ok,
    ensures
        ({
            let (source, destination) = transfer_after(from, to, caller, amount);
            source.balance + destination.balance == from.balance + to.balance
        }),
{
}

/// Authorization: whoever is not the owner of the source is refused with
/// `Unauthorized`, whatever the amount and the balances, and both accounts
/// stay as they were.
pub proof fn lemma_transfer_needs_owner(
    from: TokenAccount,
    to: TokenAccount,
    caller: Identity,
    amount: u64,
)
    requires
        caller != from.owner,
    ensures
        transfer_check(from, to, caller, amount)
            == Err::<(), ErrorCode>(ErrorCode::Unauthorized),
        transfer_after(from, to, caller, amount) == (from, to),
{
}

/// Insufficient funds: the owner cannot transfer more than the source
/// holds. The transfer is refused with `InsufficientFunds` and both accounts
/// stay as they were.
pub proof fn lemma_transfer_needs_funds(
    from: TokenAccount,
    to: TokenAccount,
    caller: Identity,
    amount: u64,
)
    requires
        caller == from.owner,
        amount > from.balance,
    ensures
        transfer_check(from, to, caller, amount)
            == Err::<(), ErrorCode>(ErrorCode::InsufficientFunds),
        transfer_after(from, to, caller, amount) == (from, to),
{
}

/// Overflow guard: a transfer that the owner could otherwise make, but that
/// would raise the destination past `u64::MAX`, is refused with
/// `ArithmeticOverflow`. Neither the destination nor the source changes.
pub proof fn lemma_transfer_guards_overflow(
    from: TokenAccount,
    to: TokenAccount,
    caller: Identity,
    amount: u64,
)
    requires
        caller == from.owner,
        amount <= from.balance,
        to.balance + amount > u64::MAX,
    ensures
        transfer_check(from, to, caller, amount)
            == Err::<(), ErrorCode>(ErrorCode::ArithmeticOverflow),
        transfer_after(from, to, caller, amount) == (from, to),
{
}

/// Whether a transfer of `amount` from `account` to itself, authorized by
/// `caller`, goes through. What is debited is credited again, so no overflow
/// can occur.
pub open spec fn self_transfer_check(
    account: TokenAccount,
    caller: Identity,
    amount: u64,
) -> Result<(), ErrorCode> {
    if caller != account.owner {
        Err(ErrorCode::Unauthorized)
    } else if amount > account.balance {
        Err(ErrorCode::InsufficientFunds)
    } else {
        Ok(())
    }
}

/// A transfer whose source and destination are one and the same record.
///
/// It is held to the rules of any transfer: the caller must own the account
/// and the account must hold `amount`. Where it goes through it changes
/// nothing, which is why the account is borrowed shared.
pub fn self_transfer(
    account: &TokenAccount,
    caller: Identity,
    amount: u64,
) -> (res: Result<(), ErrorCode>)
    ensures
        res == self_transfer_check(*account, caller, amount),
{
    if caller != account.owner {
        Err(ErrorCode::Unauthorized)
    } else if amount > account.balance {
        Err(ErrorCode::InsufficientFunds)
    } else {
        Ok(())
    }
}

} // verus!
