//! The ballot box: two tallies and the fees collected.

use vstd::prelude::*;
use crate::counter::{checked_credit, checked_increment};
use crate::errors::Errors;

verus! {

/// Bytes that one stored 64-bit field takes.
pub const UNSIGNED64_LENGTH: usize = 8;

/// Bytes of the header that the host puts in front of a stored record.
pub const DISCRIMINATOR_LENGTH: usize = 8;

/// Bytes that a stored ballot box takes: the header, then `left_votes`,
/// `right_votes` and `balance`, in that order.
pub const BALLOT_BOX_LENGTH: usize = DISCRIMINATOR_LENGTH + UNSIGNED64_LENGTH + UNSIGNED64_LENGTH
    + UNSIGNED64_LENGTH;

/// The two options of the ballot.
#[derive(Clone, Copy, Debug, PartialEq, Eq, Structural)]
pub enum VoteOption {
    LeftVote,
    RightVote,
}

/// The tallies and the balance as numbers without a bound. This is what a
/// `BallotBox` stands for, and what the contracts speak of.
pub struct Tally {
    pub left_votes: nat,
    pub right_votes: nat,
    pub balance: nat,
}

impl Tally {
    /// The tally of a ballot box on which nobody has voted.
    pub open spec fn empty() -> Tally {
        Tally { left_votes: 0, right_votes: 0, balance: 0 }
    }

    /// The tally after one more vote for `option` that paid `fee`.
    pub open spec fn record(self, option: VoteOption, fee: nat) -> Tally {
        match option {
            VoteOption::LeftVote => Tally {
                left_votes: self.left_votes + 1,
                right_votes: self.right_votes,
                balance: self.balance + fee,
            },
            VoteOption::RightVote => Tally {
                left_votes: self.left_votes,
                right_votes: self.right_votes + 1,
                balance: self.balance + fee,
            },
        }
    }

    /// Each of the three numbers fits in 64 bits.
    pub open spec fn representable(self) -> bool {
        &&& self.left_votes <= u64::MAX
        &&& self.right_votes <= u64::MAX
        &&& self.balance <= u64::MAX
    }
}

/// The stored record.
#[derive(Clone, Copy, Debug, PartialEq, Eq, Structural)]
pub struct BallotBox {
    pub left_votes: u64,
    pub right_votes: u64,
    pub balance: u64,
}

impl View for BallotBox {
    type V = Tally;

    open spec fn view(&self) -> Tally {
        Tally {
            left_votes: self.left_votes as nat,
            right_votes: self.right_votes as nat,
            balance: self.balance as nat,
        }
    }
}

impl Default for BallotBox {
    /// The record as creation leaves it: nothing counted, nothing collected.
    fn default() -> (fresh: BallotBox)
        ensures
            fresh@ == Tally::empty(),
    {
        BallotBox { left_votes: 0, right_votes: 0, balance: 0 }
    }
}

impl BallotBox {
    /// Counts one vote for `option` and books `fee_paid`, the fee that was
    /// moved for it. Where a tally or the balance would leave the range of 64
    /// bits, nothing is changed and `Overflow` is returned.
    pub fn record_vote(&mut self, option: VoteOption, fee_paid: u64) -> (done: Result<(), Errors>)
        ensures
            old(self)@.record(option, fee_paid as nat).representable() ==> {
                &&& done.is_ok()
                &&& final(self)@ == old(self)@.record(option, fee_paid as nat)
            },
            !old(self)@.record(option, fee_paid as nat).representable() ==> {
                &&& done == Err::<(), Errors>(Errors::Overflow)
                &&& *final(self) == *old(self)
            },
    {
        let balance = match checked_credit(self.balance, fee_paid) {
            Ok(sum) => sum,
            Err(e) => {
                return Err(e);
            },
        };
        match option {
            VoteOption::LeftVote => {
                let left_votes = match checked_increment(self.left_votes) {
                    Ok(next) => next,
                    Err(e) => {
                        return Err(e);
                    },
                };
                self.left_votes = left_votes;
            },
            VoteOption::RightVote => {
                let right_votes = match checked_increment(self.right_votes) {
                    Ok(next) => next,
                    Err(e) => {
                        return Err(e);
                    },
                };
                self.right_votes = right_votes;
            },
        }
        self.balance = balance;
        Ok(())
    }
}

} // verus!
