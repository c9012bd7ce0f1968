//! The host's value-transfer primitive, modeled on explicit ledger accounts.

use vstd::prelude::*;

use crate::errors::ErrorCode;
use crate::state::Account;

verus! {

/// Moves exactly `amount` units of value from `from` to `to`, failing with
/// `InsufficientBalance` and no effect at all when the source balance is
/// short. Neither account's identity changes. Models the host runtime's
/// atomic transfer primitive.
///
/// The recipient's balance must have room for the amount: the host keeps the
/// total value in circulation below the balance type's maximum, so a
/// recipient can never be pushed past it.
pub fn transfer(from: &mut Account, to: &mut Account, amount: u64) -> (r: Result<(), ErrorCode>)
    requires
        old(to).lamports + amount <= u64::MAX,
    ensures
        old(from).lamports < amount ==> r == Err::<(), ErrorCode>(
            ErrorCode::InsufficientBalance,
        ) && *final(from) == *old(from) && *final(to) == *old(to),
        old(from).lamports >= amount ==> r == Ok::<(), ErrorCode>(()) && *final(from) == (Account {
            key: old(from).key,
            lamports: (old(from).lamports - amount) as u64,
        }) && *final(to) == (Account {
            key: old(to).key,
            lamports: (old(to).lamports + amount) as u64,
        }),
{
    if from.lamports < amount {
        return Err(ErrorCode::InsufficientBalance);
    }
    from.lamports = from.lamports - amount;
    to.lamports = to.lamports + amount;
    Ok(())
}

} // verus!
