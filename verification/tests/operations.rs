use votesol::{
    create_ballot, vote, Authority, BallotBox, BallotStore, CreateBallot, Errors,
    TransferOutcome, Vote, VoteOption,
};

const SLOT: [u8; 32] = [9u8; 32];
const VOTER: [u8; 32] = [4u8; 32];

fn record(left_votes: u64, right_votes: u64, balance: u64) -> BallotBox {
    BallotBox { left_votes, right_votes, balance }
}

fn voter(lamports: u64) -> Authority {
    Authority { key: VOTER, lamports }
}

fn creation(record: Option<BallotBox>) -> CreateBallot {
    CreateBallot { authority: voter(10_000_000), ballot_box: BallotStore { key: SLOT, record } }
}

fn voting(record: Option<BallotBox>, lamports: u64) -> Vote {
    Vote { ballot_box: BallotStore { key: SLOT, record }, authority: voter(lamports) }
}

#[test]
fn new_store_is_empty() {
    let store = BallotStore::new(SLOT);
    assert_eq!(store.key, SLOT);
    assert_eq!(store.record, None);
}

#[test]
fn store_create_returns_the_zeroed_record() {
    let mut store = BallotStore::new(SLOT);
    assert_eq!(store.create(), Ok(record(0, 0, 0)));
    assert_eq!(store, BallotStore { key: SLOT, record: Some(record(0, 0, 0)) });
}

#[test]
fn store_create_refuses_an_occupied_slot() {
    let mut store = BallotStore { key: SLOT, record: Some(record(2, 3, 5_000_000)) };
    assert_eq!(store.create(), Err(Errors::AlreadyInitialized));
    assert_eq!(store, BallotStore { key: SLOT, record: Some(record(2, 3, 5_000_000)) });
}

#[test]
fn create_ballot_zeroes_the_record() {
    let mut ctx = creation(None);
    assert_eq!(create_ballot(&mut ctx), Ok(()));
    assert_eq!(ctx, creation(Some(record(0, 0, 0))));
}

#[test]
fn second_creation_is_refused() {
    let mut ctx = creation(None);
    assert_eq!(create_ballot(&mut ctx), Ok(()));
    assert_eq!(create_ballot(&mut ctx), Err(Errors::AlreadyInitialized));
    assert_eq!(ctx, creation(Some(record(0, 0, 0))));
}

#[test]
fn creation_over_a_used_record_changes_nothing() {
    let mut ctx = creation(Some(record(7, 2, 9_000_000)));
    assert_eq!(create_ballot(&mut ctx), Err(Errors::AlreadyInitialized));
    assert_eq!(ctx, creation(Some(record(7, 2, 9_000_000))));
    assert_eq!(create_ballot(&mut ctx), Err(Errors::AlreadyInitialized));
    assert_eq!(ctx, creation(Some(record(7, 2, 9_000_000))));
}

#[test]
fn creation_after_votes_is_refused() {
    let mut create = creation(None);
    assert_eq!(create_ballot(&mut create), Ok(()));
    let mut ctx = Vote { ballot_box: create.ballot_box, authority: voter(3_000_000) };
    assert_eq!(vote(&mut ctx, VoteOption::RightVote, TransferOutcome::Completed), Ok(()));
    let mut again = CreateBallot { authority: voter(3_000_000), ballot_box: ctx.ballot_box };
    assert_eq!(create_ballot(&mut again), Err(Errors::AlreadyInitialized));
    assert_eq!(again.ballot_box.record, Some(record(0, 1, 1_000_000)));
}

#[test]
fn concrete_scenario() {
    let mut create = creation(None);
    assert_eq!(create_ballot(&mut create), Ok(()));
    assert_eq!(create.ballot_box.record, Some(record(0, 0, 0)));

    let mut ctx = Vote { ballot_box: create.ballot_box, authority: voter(5_000_000) };
    assert_eq!(vote(&mut ctx, VoteOption::LeftVote, TransferOutcome::Completed), Ok(()));
    assert_eq!(ctx.ballot_box.record, Some(record(1, 0, 1_000_000)));

    assert_eq!(vote(&mut ctx, VoteOption::RightVote, TransferOutcome::Completed), Ok(()));
    assert_eq!(ctx.ballot_box.record, Some(record(1, 1, 2_000_000)));

    let mut poor = Vote { ballot_box: ctx.ballot_box, authority: voter(999_999) };
    assert_eq!(
        vote(&mut poor, VoteOption::LeftVote, TransferOutcome::Declined),
        Err(Errors::InsufficientFunds)
    );
    assert_eq!(poor.ballot_box.record, Some(record(1, 1, 2_000_000)));
}

#[test]
fn pre_creation_scenario() {
    let mut ctx = voting(None, 5_000_000);
    assert_eq!(
        vote(&mut ctx, VoteOption::LeftVote, TransferOutcome::Completed),
        Err(Errors::NotInitialized)
    );
    assert_eq!(ctx, voting(None, 5_000_000));
}

#[test]
fn vote_before_creation_is_refused_whatever_else_holds() {
    let mut poor = voting(None, 0);
    assert_eq!(
        vote(&mut poor, VoteOption::RightVote, TransferOutcome::Declined),
        Err(Errors::NotInitialized)
    );
    assert_eq!(poor, voting(None, 0));
}

#[test]
fn vote_with_too_little_funds_is_refused() {
    let mut ctx = voting(Some(record(1, 1, 2_000_000)), 999_999);
    assert_eq!(
        vote(&mut ctx, VoteOption::LeftVote, TransferOutcome::Completed),
        Err(Errors::InsufficientFunds)
    );
    assert_eq!(ctx, voting(Some(record(1, 1, 2_000_000)), 999_999));
}

#[test]
fn vote_with_exactly_the_fee_is_counted() {
    let mut ctx = voting(Some(record(1, 1, 2_000_000)), 1_000_000);
    assert_eq!(vote(&mut ctx, VoteOption::LeftVote, TransferOutcome::Completed), Ok(()));
    assert_eq!(ctx.ballot_box.record, Some(record(2, 1, 3_000_000)));
}

#[test]
fn vote_leaves_the_accounts_as_they_were() {
    let mut ctx = voting(Some(record(0, 0, 0)), 4_000_000);
    assert_eq!(vote(&mut ctx, VoteOption::LeftVote, TransferOutcome::Completed), Ok(()));
    assert_eq!(ctx.authority, voter(4_000_000));
    assert_eq!(ctx.ballot_box.key, SLOT);
}

#[test]
fn declined_transfer_counts_no_vote() {
    let mut ctx = voting(Some(record(1, 1, 2_000_000)), 5_000_000);
    assert_eq!(
        vote(&mut ctx, VoteOption::LeftVote, TransferOutcome::Declined),
        Err(Errors::TransferRejected)
    );
    assert_eq!(ctx, voting(Some(record(1, 1, 2_000_000)), 5_000_000));
    assert_eq!(
        vote(&mut ctx, VoteOption::RightVote, TransferOutcome::Declined),
        Err(Errors::TransferRejected)
    );
    assert_eq!(ctx, voting(Some(record(1, 1, 2_000_000)), 5_000_000));
}

#[test]
fn overflowing_tally_books_no_fee() {
    let mut left = voting(Some(record(u64::MAX, 4, 2_000_000)), 5_000_000);
    assert_eq!(
        vote(&mut left, VoteOption::LeftVote, TransferOutcome::Completed),
        Err(Errors::Overflow)
    );
    assert_eq!(left, voting(Some(record(u64::MAX, 4, 2_000_000)), 5_000_000));

    let mut right = voting(Some(record(4, u64::MAX, 2_000_000)), 5_000_000);
    assert_eq!(
        vote(&mut right, VoteOption::RightVote, TransferOutcome::Completed),
        Err(Errors::Overflow)
    );
    assert_eq!(right, voting(Some(record(4, u64::MAX, 2_000_000)), 5_000_000));
}

#[test]
fn overflowing_balance_counts_no_vote() {
    let mut ctx = voting(Some(record(4, 6, u64::MAX - 999_999)), 5_000_000);
    assert_eq!(
        vote(&mut ctx, VoteOption::LeftVote, TransferOutcome::Completed),
        Err(Errors::Overflow)
    );
    assert_eq!(ctx, voting(Some(record(4, 6, u64::MAX - 999_999)), 5_000_000));
}

#[test]
fn overflow_boundary() {
    let mut ctx = voting(Some(record(u64::MAX - 1, 0, 0)), 5_000_000);
    assert_eq!(vote(&mut ctx, VoteOption::LeftVote, TransferOutcome::Completed), Ok(()));
    assert_eq!(ctx.ballot_box.record, Some(record(u64::MAX, 0, 1_000_000)));
    assert_eq!(
        vote(&mut ctx, VoteOption::LeftVote, TransferOutcome::Completed),
        Err(Errors::Overflow)
    );
    assert_eq!(ctx.ballot_box.record, Some(record(u64::MAX, 0, 1_000_000)));
}

#[test]
fn errors_are_named_in_order() {
    let mut ctx = voting(Some(record(u64::MAX, 0, 0)), 10);
    assert_eq!(
        vote(&mut ctx, VoteOption::LeftVote, TransferOutcome::Declined),
        Err(Errors::InsufficientFunds)
    );
    ctx.authority.lamports = 1_000_000;
    assert_eq!(
        vote(&mut ctx, VoteOption::LeftVote, TransferOutcome::Declined),
        Err(Errors::TransferRejected)
    );
    assert_eq!(
        vote(&mut ctx, VoteOption::LeftVote, TransferOutcome::Completed),
        Err(Errors::Overflow)
    );
    assert_eq!(ctx.ballot_box.record, Some(record(u64::MAX, 0, 0)));
}

#[test]
fn tallies_count_the_votes_in_any_order() {
    let order = [
        VoteOption::LeftVote,
        VoteOption::RightVote,
        VoteOption::RightVote,
        VoteOption::LeftVote,
        VoteOption::LeftVote,
        VoteOption::RightVote,
        VoteOption::LeftVote,
    ];
    let mut create = creation(None);
    assert_eq!(create_ballot(&mut create), Ok(()));
    let mut forward = Vote { ballot_box: create.ballot_box, authority: voter(9_000_000) };
    let mut backward = Vote { ballot_box: create.ballot_box, authority: voter(9_000_000) };
    let mut at = 0;
    while at < order.len() {
        assert_eq!(vote(&mut forward, order[at], TransferOutcome::Completed), Ok(()));
        assert_eq!(
            vote(&mut backward, order[order.len() - 1 - at], TransferOutcome::Completed),
            Ok(())
        );
        at += 1;
    }
    assert_eq!(forward.ballot_box.record, Some(record(4, 3, 7_000_000)));
    assert_eq!(backward.ballot_box.record, Some(record(4, 3, 7_000_000)));
}

#[test]
fn refused_votes_are_not_counted_among_the_others() {
    let mut create = creation(None);
    assert_eq!(create_ballot(&mut create), Ok(()));
    let mut ctx = Vote { ballot_box: create.ballot_box, authority: voter(2_000_000) };
    assert_eq!(vote(&mut ctx, VoteOption::LeftVote, TransferOutcome::Completed), Ok(()));
    assert_eq!(
        vote(&mut ctx, VoteOption::LeftVote, TransferOutcome::Declined),
        Err(Errors::TransferRejected)
    );
    assert_eq!(vote(&mut ctx, VoteOption::RightVote, TransferOutcome::Completed), Ok(()));
    ctx.authority.lamports = 5;
    assert_eq!(
        vote(&mut ctx, VoteOption::RightVote, TransferOutcome::Completed),
        Err(Errors::InsufficientFunds)
    );
    ctx.authority.lamports = 1_000_000;
    assert_eq!(vote(&mut ctx, VoteOption::RightVote, TransferOutcome::Completed), Ok(()));
    assert_eq!(ctx.ballot_box.record, Some(record(1, 2, 3_000_000)));
}

#[test]
fn balance_is_the_fee_times_the_votes_counted() {
    let mut create = creation(None);
    assert_eq!(create_ballot(&mut create), Ok(()));
    let mut ctx = Vote { ballot_box: create.ballot_box, authority: voter(1_000_000) };
    let mut counted: u64 = 0;
    while counted < 25 {
        let option = if counted % 3 == 0 { VoteOption::LeftVote } else { VoteOption::RightVote };
        assert_eq!(vote(&mut ctx, option, TransferOutcome::Completed), Ok(()));
        counted += 1;
        let now = ctx.ballot_box.record.unwrap();
        assert_eq!(now.left_votes + now.right_votes, counted);
        assert_eq!(now.balance, 1_000_000 * counted);
    }
    assert_eq!(ctx.ballot_box.record, Some(record(9, 16, 25_000_000)));
}
