//! A two-option vote tally with a fixed fee per vote.
//!
//! One record, the ballot box, holds a running count for each of the two
//! options and the sum of the fees collected. It is created once, and after
//! that only a vote changes it: a vote moves the fee from the voter to the
//! ballot box, counts one for the chosen option and books the fee, all of it
//! or none of it.

pub mod ballot;
pub mod counter;
pub mod dispatch;
pub mod errors;
pub mod fee;
pub mod laws;
pub mod machine;

pub use ballot::{
    BallotBox, Tally, VoteOption, BALLOT_BOX_LENGTH, DISCRIMINATOR_LENGTH, UNSIGNED64_LENGTH,
};
pub use counter::{checked_credit, checked_increment};
pub use dispatch::{
    create_ballot, prepare_vote, vote, Authority, BallotStore, CreateBallot, Vote,
};
pub use errors::Errors;
pub use fee::{
    fee_transfer, settle_fee, AccountRole, TransferInstruction, TransferOutcome, VOTING_FEE,
};
pub use machine::Request;
