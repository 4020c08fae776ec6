//! Counters that refuse to wrap.
//!
//! Every change to a tally or to the balance goes through one of these two
//! functions, so that a value at the top of its range stays there and the
//! caller is told.

use vstd::prelude::*;
use crate::errors::Errors;

verus! {

/// One more than `current`, or `Overflow` where that is no `u64`.
pub fn checked_increment(current: u64) -> (next: Result<u64, Errors>)
    ensures
        current < u64::MAX ==> next == Ok::<u64, Errors>((current + 1) as u64),
        current == u64::MAX ==> next == Err::<u64, Errors>(Errors::Overflow),
{
    if current == u64::MAX {
        Err(Errors::Overflow)
    } else {
        Ok(current + 1)
    }
}

/// `balance` with `amount` added, or `Overflow` where the sum is no `u64`.
pub fn checked_credit(balance: u64, amount: u64) -> (sum: Result<u64, Errors>)
    ensures
        balance + amount <= u64::MAX ==> sum == Ok::<u64, Errors>((balance + amount) as u64),
        balance + amount > u64::MAX ==> sum == Err::<u64, Errors>(Errors::Overflow),
{
    if amount > u64::MAX - balance {
        Err(Errors::Overflow)
    } else {
        Ok(balance + amount)
    }
}

} // verus!
