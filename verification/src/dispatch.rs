//! The two operations: creating the ballot box and voting.

use vstd::prelude::*;
use crate::ballot::{BallotBox, Tally, VoteOption};
use crate::errors::Errors;
use crate::fee::{fee_transfer, settle_fee, TransferInstruction, TransferOutcome, VOTING_FEE};
use crate::machine::{outcome, step, Request};

verus! {

/// The account of whoever makes a request, as the host shows it: its
/// address and the lamports it holds.
#[derive(Clone, Copy, Debug, PartialEq, Eq)]
pub struct Authority {
    pub key: [u8; 32],
    pub lamports: u64,
}

/// The storage slot of the ballot box: its address, which is the same for
/// every caller, and the record in it, if one was created.
#[derive(Clone, Copy, Debug, PartialEq, Eq)]
pub struct BallotStore {
    pub key: [u8; 32],
    pub record: Option<BallotBox>,
}

impl BallotStore {
    /// What the slot holds, as a state of the machine.
    pub open spec fn state(self) -> Option<Tally> {
        match self.record {
            Some(ballot_box) => Some(ballot_box@),
            None => None,
        }
    }

    /// An empty slot at the address `key`.
    pub fn new(key: [u8; 32]) -> (store: BallotStore)
        ensures
            store.key == key,
            store.record.is_none(),
    {
        BallotStore { key, record: None }
    }

    /// Puts a record with nothing counted into the slot and returns it.
    /// Where the slot holds a record already, that record stays and
    /// `AlreadyInitialized` is returned.
    pub fn create(&mut self) -> (created: Result<BallotBox, Errors>)
        ensures
            final(self).key == old(self).key,
            old(self).record.is_none() ==> {
                &&& created.is_ok()
                &&& created.unwrap()@ == Tally::empty()
                &&& final(self).record == Some(created.unwrap())
            },
            old(self).record.is_some() ==> {
                &&& created == Err::<BallotBox, Errors>(Errors::AlreadyInitialized)
                &&& *final(self) == *old(self)
            },
    {
        match self.record {
            Some(_) => Err(Errors::AlreadyInitialized),
            None => {
                let fresh = BallotBox::default();
                self.record = Some(fresh);
                Ok(fresh)
            },
        }
    }
}

/// The accounts of a creation: who asks for it, and the slot.
#[derive(Clone, Copy, Debug, PartialEq, Eq)]
pub struct CreateBallot {
    pub authority: Authority,
    pub ballot_box: BallotStore,
}

/// The accounts of a vote: the slot, and the voter who pays the fee.
#[derive(Clone, Copy, Debug, PartialEq, Eq)]
pub struct Vote {
    pub ballot_box: BallotStore,
    pub authority: Authority,
}

impl Vote {
    /// The vote for `option` that these accounts make, as a request to the
    /// machine, given how the fee transfer ended.
    pub open spec fn request(self, option: VoteOption, transfer: TransferOutcome) -> Request {
        Request::Vote { option, funds: self.authority.lamports, transfer }
    }
}

/// Creates the ballot box. A second creation is refused with
/// `AlreadyInitialized` and leaves the record as it is.
pub fn create_ballot(ctx: &mut CreateBallot) -> (done: Result<(), Errors>)
    ensures
        done == outcome(old(ctx).ballot_box.state(), Request::Create),
        final(ctx).ballot_box.state() == step(old(ctx).ballot_box.state(), Request::Create),
        final(ctx).ballot_box.key == old(ctx).ballot_box.key,
        final(ctx).authority == old(ctx).authority,
        done.is_err() ==> *final(ctx) == *old(ctx),
{
    match ctx.ballot_box.create() {
        Ok(_) => Ok(()),
        Err(e) => Err(e),
    }
}

/// The first half of a vote: decides whether the fee may be asked for, and
/// builds the instruction that asks the host to move it from the voter to the
/// ballot box.
///
/// The instruction is given exactly where `vote` would grant the vote once
/// the transfer completes. Otherwise the error is the one that `vote` would
/// return, so that no fee is moved for a vote that cannot be counted.
pub fn prepare_vote(ctx: &Vote, vote_option: VoteOption) -> (request: Result<
    TransferInstruction,
    Errors,
>)
    ensures
        match outcome(
            ctx.ballot_box.state(),
            ctx.request(vote_option, TransferOutcome::Completed),
        ) {
            Ok(_) => request.is_ok() && request.unwrap().moves(
                ctx.authority.key@,
                ctx.ballot_box.key@,
                VOTING_FEE,
            ),
            Err(e) => request == Err::<TransferInstruction, Errors>(e),
        },
{
    let mut ballot_box = match ctx.ballot_box.record {
        Some(ballot_box) => ballot_box,
        None => {
            return Err(Errors::NotInitialized);
        },
    };
    let instruction = match fee_transfer(
        &ctx.authority.key,
        ctx.authority.lamports,
        &ctx.ballot_box.key,
    ) {
        Ok(instruction) => instruction,
        Err(e) => {
            return Err(e);
        },
    };
    match ballot_box.record_vote(vote_option, VOTING_FEE) {
        Ok(_) => Ok(instruction),
        Err(e) => Err(e),
    }
}

/// The second half of a vote: given how the fee transfer ended, counts the
/// vote and books the fee, or refuses and changes nothing.
///
/// Refused with `NotInitialized` where no record exists; else with
/// `InsufficientFunds` where the voter holds less than the fee; else with
/// `TransferRejected` where the host declined the transfer; else with
/// `Overflow` where the tally or the balance would leave the range of 64
/// bits.
pub fn vote(ctx: &mut Vote, vote_option: VoteOption, transfer: TransferOutcome) -> (done: Result<
    (),
    Errors,
>)
    ensures
        done == outcome(old(ctx).ballot_box.state(), old(ctx).request(vote_option, transfer)),
        final(ctx).ballot_box.state() == step(
            old(ctx).ballot_box.state(),
            old(ctx).request(vote_option, transfer),
        ),
        final(ctx).ballot_box.key == old(ctx).ballot_box.key,
        final(ctx).authority == old(ctx).authority,
        done.is_err() ==> *final(ctx) == *old(ctx),
{
    let mut ballot_box = match ctx.ballot_box.record {
        Some(ballot_box) => ballot_box,
        None => {
            return Err(Errors::NotInitialized);
        },
    };
    let fee_paid = match settle_fee(ctx.authority.lamports, transfer) {
        Ok(fee_paid) => fee_paid,
        Err(e) => {
            return Err(e);
        },
    };
    match ballot_box.record_vote(vote_option, fee_paid) {
        Ok(_) => {
            ctx.ballot_box.record = Some(ballot_box);
            Ok(())
        },
        Err(e) => Err(e),
    }
}

} // verus!
