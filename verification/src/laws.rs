//! What holds of every run of the ballot box.

use vstd::prelude::*;
use crate::ballot::{Tally, VoteOption};
use crate::errors::Errors;
use crate::fee::{TransferOutcome, VOTING_FEE};
use crate::machine::{granted, opening, outcome, run, step, votes_granted, Request};

verus! {

/// A refused request changes nothing.
///
/// In particular a vote whose fee transfer failed is not counted, and a vote
/// that would overflow a tally or the balance books no fee.
pub proof fn law_refusal_changes_nothing(state: Option<Tally>, request: Request)
    requires
        outcome(state, request).is_err(),
    ensures
        step(state, request) == state,
{
}

/// A vote whose fee was not moved is refused, whatever else holds of it, and
/// the tallies stay as they were.
pub proof fn law_no_vote_without_fee(tally: Tally, option: VoteOption, funds: u64)
    ensures
        outcome(
            Some(tally),
            Request::Vote { option, funds, transfer: TransferOutcome::Declined },
        ).is_err(),
        step(Some(tally), Request::Vote { option, funds, transfer: TransferOutcome::Declined })
            == Some(tally),
{
}

/// A vote that was paid for but would take a tally or the balance out of the
/// range of 64 bits is refused with `Overflow`, and the balance stays as it
/// was.
pub proof fn law_no_fee_without_vote(tally: Tally, option: VoteOption, funds: u64)
    requires
        funds >= VOTING_FEE,
        !tally.record(option, VOTING_FEE as nat).representable(),
    ensures
        outcome(
            Some(tally),
            Request::Vote { option, funds, transfer: TransferOutcome::Completed },
        ) == Err::<(), Errors>(Errors::Overflow),
        step(Some(tally), Request::Vote { option, funds, transfer: TransferOutcome::Completed })
            == Some(tally),
{
}

/// A tally at the top of its range takes no further vote: a vote for that
/// option, paid for, is refused with `Overflow` and the tally stays at the
/// top.
pub proof fn law_overflow_boundary(tally: Tally, option: VoteOption, funds: u64)
    requires
        funds >= VOTING_FEE,
        match option {
            VoteOption::LeftVote => tally.left_votes == u64::MAX,
            VoteOption::RightVote => tally.right_votes == u64::MAX,
        },
    ensures
        outcome(
            Some(tally),
            Request::Vote { option, funds, transfer: TransferOutcome::Completed },
        ) == Err::<(), Errors>(Errors::Overflow),
        step(Some(tally), Request::Vote { option, funds, transfer: TransferOutcome::Completed })
            == Some(tally),
{
}

/// A granted request never lowers a tally or the balance, and what fitted in
/// 64 bits before it still does.
pub proof fn law_step_grows(state: Option<Tally>, request: Request)
    ensures
        state.is_some() ==> {
            &&& step(state, request).is_some()
            &&& step(state, request).unwrap().left_votes >= state.unwrap().left_votes
            &&& step(state, request).unwrap().right_votes >= state.unwrap().right_votes
            &&& step(state, request).unwrap().balance >= state.unwrap().balance
        },
        opening(state).representable() ==> opening(step(state, request)).representable(),
{
}

/// Once the record exists it exists for good, its tallies and its balance
/// never go down, and they stay within 64 bits if they began there.
pub proof fn law_active_stays_active(start: Option<Tally>, requests: Seq<Request>)
    requires
        start.is_some(),
    ensures
        run(start, requests).is_some(),
        run(start, requests).unwrap().left_votes >= start.unwrap().left_votes,
        run(start, requests).unwrap().right_votes >= start.unwrap().right_votes,
        run(start, requests).unwrap().balance >= start.unwrap().balance,
        start.unwrap().representable() ==> run(start, requests).unwrap().representable(),
    decreases requests.len(),
{
    if requests.len() > 0 {
        law_active_stays_active(start, requests.drop_last());
        law_step_grows(run(start, requests.drop_last()), requests.last());
    }
}

/// Only a creation brings the record into being: a request that finds no
/// record and leaves one is a creation, and the record it leaves is empty.
pub proof fn law_only_creation_activates(request: Request)
    requires
        step(None, request).is_some(),
    ensures
        request == Request::Create,
        step(None, request) == Some(Tally::empty()),
{
}

/// A creation that finds a record is refused with `AlreadyInitialized`, and
/// the record stays as it was.
pub proof fn law_creation_needs_an_empty_slot(tally: Tally)
    ensures
        outcome(Some(tally), Request::Create) == Err::<(), Errors>(Errors::AlreadyInitialized),
        step(Some(tally), Request::Create) == Some(tally),
{
}

/// A run is the run of its first `at` requests, continued with the rest.
pub proof fn law_run_splits(start: Option<Tally>, requests: Seq<Request>, at: int)
    requires
        0 <= at <= requests.len(),
    ensures
        run(start, requests) == run(run(start, requests.take(at)), requests.skip(at)),
    decreases requests.len(),
{
    if at == requests.len() {
        assert(requests.take(at) =~= requests);
        assert(requests.skip(at) =~= Seq::<Request>::empty());
    } else {
        let shorter = requests.drop_last();
        law_run_splits(start, shorter, at);
        assert(shorter.take(at) =~= requests.take(at));
        assert(shorter.skip(at) =~= requests.skip(at).drop_last());
    }
}

/// The ballot box is created once: in any run, whatever came before, a
/// creation that follows a granted creation is refused with
/// `AlreadyInitialized` and leaves the record as it was.
pub proof fn law_singleton_creation(
    start: Option<Tally>,
    requests: Seq<Request>,
    first: int,
    second: int,
)
    requires
        0 <= first < second < requests.len(),
        requests[first] == Request::Create,
        requests[second] == Request::Create,
        granted(start, requests, first),
    ensures
        outcome(run(start, requests.take(second)), requests[second]) == Err::<(), Errors>(
            Errors::AlreadyInitialized,
        ),
        run(start, requests.take(second + 1)) == run(start, requests.take(second)),
{
    let upto = requests.take(second);
    let created = run(start, upto.take(first + 1));
    assert(upto.take(first + 1).drop_last() =~= requests.take(first));
    law_run_splits(start, upto, first + 1);
    law_active_stays_active(created, upto.skip(first + 1));
    assert(requests.take(second + 1).drop_last() =~= upto);
}

/// The tallies count the granted votes, and nothing else: after any run, in
/// whatever order the votes came and whatever was refused among them, each
/// tally is what it was at the start plus the number of votes granted for
/// its option. Where the run began with no record, that is the number of
/// votes granted for the option.
pub proof fn law_tally_correctness(start: Option<Tally>, requests: Seq<Request>)
    ensures
        opening(run(start, requests)).left_votes == opening(start).left_votes + votes_granted(
            start,
            requests,
            VoteOption::LeftVote,
        ),
        opening(run(start, requests)).right_votes == opening(start).right_votes + votes_granted(
            start,
            requests,
            VoteOption::RightVote,
        ),
    decreases requests.len(),
{
    if requests.len() > 0 {
        law_tally_correctness(start, requests.drop_last());
    }
}

/// The balance is the fees of the granted votes, and nothing else: after any
/// run it is what it was at the start plus the fee times the number of votes
/// granted. Where the run began with no record, that is 1,000,000 for each
/// vote granted.
pub proof fn law_balance_accounting(start: Option<Tally>, requests: Seq<Request>)
    ensures
        opening(run(start, requests)).balance == opening(start).balance + VOTING_FEE * (
            votes_granted(start, requests, VoteOption::LeftVote)
                + votes_granted(start, requests, VoteOption::RightVote)
        ),
    decreases requests.len(),
{
    if requests.len() > 0 {
        law_balance_accounting(start, requests.drop_last());
    }
}

} // verus!
