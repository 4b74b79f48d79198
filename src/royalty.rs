//! The royalty policy: a fixed percentage of every transfer goes to the
//! royalty recipient, truncated toward zero; the rest goes to the destination.

use vstd::prelude::*;

verus! {

/// The share of every transfer, in percent, that goes to the royalty recipient.
pub const ROYALTY_PERCENTAGE: u64 = 5;

/// The largest amount whose product with the percentage fits in a `u64`.
pub const MAX_SPLIT_AMOUNT: u64 = 3689348814741910323;

/// The royalty owed on `amount`: `floor(amount * 5 / 100)`.
pub open spec fn royalty_of(amount: int) -> int {
    amount * ROYALTY_PERCENTAGE / 100
}

/// What reaches the destination once the royalty is taken from `amount`.
pub open spec fn net_of(amount: int) -> int {
    amount - royalty_of(amount)
}

/// Whether `amount * 5` can be computed without leaving the range of `u64`.
pub open spec fn split_fits(amount: u64) -> bool {
    amount as int * ROYALTY_PERCENTAGE <= u64::MAX
}

/// Splits `amount` into `(royalty_amount, transfer_amount)`.
pub fn split_royalty(amount: u64) -> (r: (u64, u64))
    requires
        split_fits(amount),
    ensures
        r.0 == royalty_of(amount as int),
        r.1 == net_of(amount as int),
        r.0 + r.1 == amount,
        r.0 <= r.1,
{
    proof {
        lemma_split_bounds(amount as int);
    }
    let royalty_amount = amount * ROYALTY_PERCENTAGE / 100;
    let transfer_amount = amount - royalty_amount;
    (royalty_amount, transfer_amount)
}

/// Splits `amount` as `split_royalty` does, or returns `None` where `amount * 5`
/// would overflow a `u64`.
pub fn checked_split_royalty(amount: u64) -> (r: Option<(u64, u64)>)
    ensures
        r is Some <==> split_fits(amount),
        r matches Some(p) ==> p.0 == royalty_of(amount as int) && p.1 == net_of(amount as int),
{
    if amount <= MAX_SPLIT_AMOUNT {
        Some(split_royalty(amount))
    } else {
        None
    }
}

proof fn lemma_split_bounds(amount: int)
    requires
        0 <= amount,
    ensures
        0 <= royalty_of(amount) <= net_of(amount) <= amount,
{
    assert(0 <= amount * 5 / 100 <= amount - amount * 5 / 100) by (nonlinear_arith)
        requires
            0 <= amount,
    ;
}

/// The royalty and the remainder always add up to the amount transferred, and
/// the royalty is the amount times the percentage, divided by one hundred and
/// truncated.
pub proof fn split_conserves_amount(amount: u64)
    requires
        split_fits(amount),
    ensures
        royalty_of(amount as int) + net_of(amount as int) == amount,
        royalty_of(amount as int) == (amount as int * 5) / 100,
        0 <= royalty_of(amount as int) <= amount,
{
    lemma_split_bounds(amount as int);
}

} // verus!
