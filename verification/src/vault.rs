//! Balance arithmetic for the custody module.
//!
//! The external token ledger executes transfers; this module states and
//! proves the arithmetic such a transfer performs on a pair of balances,
//! so the world state in `crate::state` can model custody exactly.

use vstd::prelude::*;

use crate::GameErrorCode;

verus! {

/// Whether moving `amount` from a balance of `from` onto a balance of
/// `to` is possible: the payer covers it and the receiver can hold it.
pub open spec fn transfer_fits(from: u64, to: u64, amount: u64) -> bool {
    amount <= from && to + amount <= u64::MAX
}

/// Moves `amount` from the first balance onto the second, exactly as the
/// token ledger would: it succeeds iff the payer covers the amount and
/// the receiver's balance does not overflow, and then moves exactly
/// `amount`; otherwise it reports which side failed and moves nothing.
pub fn token_transfer(from: u64, to: u64, amount: u64) -> (r: Result<(u64, u64), GameErrorCode>)
    ensures
        r is Ok <==> transfer_fits(from, to, amount),
        transfer_fits(from, to, amount) ==> r == Ok::<(u64, u64), GameErrorCode>(
            ((from - amount) as u64, (to + amount) as u64),
        ),
        amount > from ==> r == Err::<(u64, u64), GameErrorCode>(GameErrorCode::InsufficientBalance),
        amount <= from && to + amount > u64::MAX ==> r == Err::<(u64, u64), GameErrorCode>(
            GameErrorCode::BalanceOverflow,
        ),
{
    if amount > from {
        return Err(GameErrorCode::InsufficientBalance);
    }
    match to.checked_add(amount) {
        Some(new_to) => Ok((from - amount, new_to)),
        None => Err(GameErrorCode::BalanceOverflow),
    }
}

/// Moving an amount one way and then moving the same amount back restores
/// both balances: a deposit followed by a withdrawal of the same amount
/// is the exact inverse, and so is the converse order.
pub proof fn lemma_transfer_roundtrip(from: u64, to: u64, amount: u64)
    requires
        transfer_fits(from, to, amount),
    ensures
        transfer_fits((to + amount) as u64, (from - amount) as u64, amount),
        (to + amount) as u64 - amount == to,
        (from - amount) as u64 + amount == from,
{
}

} // verus!
