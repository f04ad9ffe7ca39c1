//! Movement of funds between token accounts.

use vstd::prelude::*;
use crate::types::{CustomError, Pubkey, TokenAccount};

verus! {

/// Why moving `amount` from `from` to `to` on the authority of `authority`
/// fails, if it does: the authority must own the source, both accounts must
/// hold the same mint, the source must hold the amount, and the destination's
/// balance must stay within `u64`.
pub open spec fn transfer_error(
    from: TokenAccount,
    to: TokenAccount,
    authority: Pubkey,
    amount: u64,
) -> Option<CustomError> {
    if authority != from.owner {
        Some(CustomError::Unauthorized)
    } else if from.mint != to.mint {
        Some(CustomError::InvalidAccountBinding)
    } else if from.amount < amount {
        Some(CustomError::InsufficientFunds)
    } else if to.amount + amount > u64::MAX {
        Some(CustomError::ArithmeticOverflow)
    } else {
        None
    }
}

/// The result that carries `e`, if there is one.
pub open spec fn result_of(e: Option<CustomError>) -> Result<(), CustomError> {
    match e {
        Some(e) => Err(e),
        None => Ok(()),
    }
}

/// Moves `amount` from `from` to `to` on the authority of `authority`; on
/// failure neither account changes.
pub fn transfer(from: &mut TokenAccount, to: &mut TokenAccount, authority: &Pubkey, amount: u64) -> (r:
    Result<(), CustomError>)
    ensures
        r == result_of(transfer_error(*old(from), *old(to), *authority, amount)),
        r.is_err() ==> *final(from) == *old(from) && *final(to) == *old(to),
        r.is_ok() ==> final(from).amount == old(from).amount - amount && final(to).amount == old(
            to,
        ).amount + amount,
        final(from).mint == old(from).mint,
        final(from).owner == old(from).owner,
        final(to).mint == old(to).mint,
        final(to).owner == old(to).owner,
{
    if !authority.same_as(&from.owner) {
        return Err(CustomError::Unauthorized);
    }
    if !from.mint.same_as(&to.mint) {
        return Err(CustomError::InvalidAccountBinding);
    }
    if from.amount < amount {
        return Err(CustomError::InsufficientFunds);
    }
    match to.amount.checked_add(amount) {
        None => Err(CustomError::ArithmeticOverflow),
        Some(credited) => {
            from.amount = from.amount - amount;
            to.amount = credited;
            Ok(())
        },
    }
}

} // verus!
