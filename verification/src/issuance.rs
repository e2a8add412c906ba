use vstd::prelude::*;
use crate::error::ErrorCode;
use crate::identity::Identity;
use crate::state::{Mint, TokenAccount};
use crate::transfers::credited;

verus! {

/// Whether issuing `amount` units of `mint` to `to`, on the authority of
/// `caller`, goes through, and if not, why. The authority is tried first.
pub open spec fn mint_to_check(
    mint: Mint,
    to: TokenAccount,
    caller: Identity,
    amount: u64,
) -> Result<(), ErrorCode> {
    if caller != mint.mint_authority {
        Err(ErrorCode::Unauthorized)
    } else if to.balance + amount > u64::MAX {
        Err(ErrorCode::ArithmeticOverflow)
    } else {
        Ok(())
    }
}

/// The target account as an issue leaves it: credited where the issue goes
/// through, untouched where it is refused.
pub open spec fn mint_to_after(
    mint: Mint,
    to: TokenAccount,
    caller: Identity,
    amount: u64,
) -> TokenAccount {
    if mint_to_check(mint, to, caller, amount) is Ok {
        credited(to, amount)
    } else {
        to
    }
}

/// Issues `amount` new units of `mint` and credits them to `to`.
///
/// `to` must be an account of `mint`; the ledger keeps no registry, so the
/// caller pairs the two. Fails with `Unauthorized` unless `caller` is the
/// mint's authority and with `ArithmeticOverflow` if `to` cannot hold
/// `amount` more; a refused issue leaves `to` as it was. Nothing is debited
/// anywhere: this is the one operation that raises the supply.
pub fn mint_to(
    mint: &Mint,
    to: &mut TokenAccount,
    caller: Identity,
    amount: u64,
) -> (res: Result<(), ErrorCode>)
    ensures
        res == mint_to_check(*mint, *old(to), caller, amount),
        *final(to) == mint_to_after(*mint, *old(to), caller, amount),
        res is Ok ==> final(to).balance == old(to).balance + amount,
        res is Err ==> *final(to) == *old(to),
{
    if caller != mint.mint_authority {
        return Err(ErrorCode::Unauthorized);
    }
    match to.balance.checked_add(amount) {
        Some(sum) => {
            to.balance = sum;
            Ok(())
        },
        None => Err(ErrorCode::ArithmeticOverflow),
    }
}

/// An issue never wraps a balance. It goes through exactly when the caller
/// is the mint's authority and the new balance, computed over the integers,
/// is a balance again; it then leaves exactly that integer behind.
pub proof fn lemma_mint_to_is_exact(mint: Mint, to: TokenAccount, caller: Identity, amount: u64)
    ensures
        mint_to_check(mint, to, caller, amount) is Ok <==> {
            &&& caller == mint.mint_authority
            &&& to.balance + amount <= u64::MAX
        },
        mint_to_check(mint, to, caller, amount) is Ok ==> {
            let target = mint_to_after(mint, to, caller, amount);
            &&& target.owner == to.owner
            &&& target.balance == to.balance + amount
        },
{
}

/// Authorization: whoever is not the mint's authority is refused with
/// `Unauthorized`, and the target stays as it was.
pub proof fn lemma_mint_to_needs_authority(
    mint: Mint,
    to: TokenAccount,
    caller: Identity,
    amount: u64,
)
    requires
        caller != mint.mint_authority,
    ensures
        mint_to_check(mint, to, caller, amount)
            == Err::<(), ErrorCode>(ErrorCode::Unauthorized),
        mint_to_after(mint, to, caller, amount) == to,
{
}

/// Overflow guard: an issue by the authority that would raise the target
/// past `u64::MAX` is refused with `ArithmeticOverflow`, and the target
/// stays as it was.
pub proof fn lemma_mint_to_guards_overflow(
    mint: Mint,
    to: TokenAccount,
    caller: Identity,
    amount: u64,
)
    requires
        caller == mint.mint_authority,
        to.balance + amount > u64::MAX,
    ensures
        mint_to_check(mint, to, caller, amount)
            == Err::<(), ErrorCode>(ErrorCode::ArithmeticOverflow),
        mint_to_after(mint, to, caller, amount) == to,
{
}

} // verus!
