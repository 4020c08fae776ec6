//! The ways in which an operation on the ballot box is refused.

use vstd::prelude::*;

verus! {

/// Why an operation was refused. Whatever the reason, the record is left as
/// it was before the call.
#[derive(Clone, Copy, Debug, PartialEq, Eq, Structural)]
pub enum Errors {
    /// Creation was asked for where a record already exists.
    AlreadyInitialized,
    /// A vote was cast before the record was created.
    NotInitialized,
    /// The voter holds less than the fee.
    InsufficientFunds,
    /// The host declined to move the fee, for a reason of its own.
    TransferRejected,
    /// A count or the balance would leave the range of 64 bits.
    Overflow,
}

} // verus!
