//! The ballot box as a state machine.
//!
//! A state is what the storage slot holds: nothing, or the tally of an
//! active ballot box. A request is a creation or a vote, the vote together
//! with what the host contributes to it: the funds the voter holds and the
//! fate of the transfer. `outcome` says whether a request is granted and
//! `step` what the slot holds afterwards; the executable operations are
//! specified by these two, and the laws of the library are stated over runs
//! of them.

use vstd::prelude::*;
use crate::ballot::{Tally, VoteOption};
use crate::errors::Errors;
use crate::fee::{fee_outcome, TransferOutcome};

verus! {

/// One request to the ballot box.
pub enum Request {
    /// Create the record.
    Create,
    /// Count a vote for `option`, cast by a voter who holds `funds` and whose
    /// fee transfer ended as `transfer` says.
    Vote { option: VoteOption, funds: u64, transfer: TransferOutcome },
}

/// Whether `request` is granted in `state`, and if not, why not.
///
/// A creation is granted only where no record exists. A vote needs a record;
/// then the fee must have been paid; then the new tally must fit in 64 bits.
/// The first of these that fails names the error.
pub open spec fn outcome(state: Option<Tally>, request: Request) -> Result<(), Errors> {
    match request {
        Request::Create => match state {
            Some(_) => Err(Errors::AlreadyInitialized),
            None => Ok(()),
        },
        Request::Vote { option, funds, transfer } => match state {
            None => Err(Errors::NotInitialized),
            Some(tally) => match fee_outcome(funds, transfer) {
                Err(e) => Err(e),
                Ok(fee) => if tally.record(option, fee as nat).representable() {
                    Ok(())
                } else {
                    Err(Errors::Overflow)
                },
            },
        },
    }
}

/// What the slot holds after `request` was made in `state`: a refused
/// request leaves it as it was.
pub open spec fn step(state: Option<Tally>, request: Request) -> Option<Tally> {
    match outcome(state, request) {
        Err(_) => state,
        Ok(_) => match request {
            Request::Create => Some(Tally::empty()),
            Request::Vote { option, funds, transfer } => Some(
                state.unwrap().record(option, fee_outcome(funds, transfer).unwrap() as nat),
            ),
        },
    }
}

/// What the slot holds after all of `requests` were made in turn, the first
/// of them in `start`.
pub open spec fn run(start: Option<Tally>, requests: Seq<Request>) -> Option<Tally>
    decreases requests.len(),
{
    if requests.len() == 0 {
        start
    } else {
        step(run(start, requests.drop_last()), requests.last())
    }
}

/// Whether the request at position `at` of `requests` was granted, in a run
/// that began in `start`.
pub open spec fn granted(start: Option<Tally>, requests: Seq<Request>, at: int) -> bool {
    outcome(run(start, requests.take(at)), requests[at]).is_ok()
}

/// Whether `request` is a vote for `option`.
pub open spec fn votes_for(request: Request, option: VoteOption) -> bool {
    match request {
        Request::Create => false,
        Request::Vote { option: chosen, .. } => chosen == option,
    }
}

/// How many votes for `option` were granted in a run of `requests` that began
/// in `start`.
pub open spec fn votes_granted(
    start: Option<Tally>,
    requests: Seq<Request>,
    option: VoteOption,
) -> nat
    decreases requests.len(),
{
    if requests.len() == 0 {
        0
    } else {
        let before = votes_granted(start, requests.drop_last(), option);
        if votes_for(requests.last(), option) && granted(
            start,
            requests,
            requests.len() - 1,
        ) {
            before + 1
        } else {
            before
        }
    }
}

/// The tally that a run counts up from: the one in the slot at the start, or
/// the empty one that creation will put there.
pub open spec fn opening(start: Option<Tally>) -> Tally {
    match start {
        Some(tally) => tally,
        None => Tally::empty(),
    }
}

} // verus!
