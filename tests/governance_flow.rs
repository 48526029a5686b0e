use zoostaking::governance::{cast_vote, create_proposal, finalize_proposal, ProposalBook, VoteBook};
use zoostaking::staking::{request_unstake, stake};
use zoostaking::types::{Address, ErrorCode, Proposal, ProposalStatus, StakeAccount, Vault};

const T0: i64 = 1_800_000_000;

fn admin() -> Address {
    Address::new(0, 1)
}

fn vault() -> Vault {
    Vault { authority: admin(), mint: Address::new(0, 2), bump: 255 }
}

fn vault_key() -> Address {
    Address::new(0, 3)
}

fn prop_key() -> Address {
    Address::new(5, 5)
}

fn voter(n: u128) -> Address {
    Address::new(100, n)
}

fn open_proposal(start: i64, end: i64) -> Proposal {
    let (p, ev) =
        create_proposal(&vault(), vault_key(), admin(), prop_key(), 1, start, end, T0, 9).unwrap();
    assert_eq!(ev.proposal_id, 1);
    assert_eq!(ev.voting_start, start);
    assert_eq!(ev.voting_end, end);
    p
}

fn staker(who: Address, amount: u64) -> StakeAccount {
    let mut e = StakeAccount::new(who);
    stake(&mut e, who, amount, amount, T0 - 10).unwrap();
    e
}

#[test]
fn vote_once_then_finalize_after_window() {
    let mut p = open_proposal(T0, T0 + 100);
    assert_eq!(p.status, ProposalStatus::Open);
    assert_eq!((p.yes_votes, p.no_votes), (0, 0));
    let mut book = VoteBook::new();
    let e = staker(voter(1), 50);
    let ev = cast_vote(&mut book, &mut p, prop_key(), &e, voter(1), true, T0 + 1, 3).unwrap();
    assert_eq!(ev.weight, 50);
    assert_eq!(p.yes_votes, 50);
    assert_eq!(p.no_votes, 0);
    let again = cast_vote(&mut book, &mut p, prop_key(), &e, voter(1), false, T0 + 2, 3);
    assert_eq!(again, Err(ErrorCode::AlreadyVoted));
    assert_eq!(p.yes_votes, 50);
    assert_eq!(p.no_votes, 0);
    assert_eq!(finalize_proposal(&mut p, prop_key(), T0 + 99), Err(ErrorCode::VotingClosed));
    assert_eq!(finalize_proposal(&mut p, prop_key(), T0 + 100), Err(ErrorCode::VotingClosed));
    let fin = finalize_proposal(&mut p, prop_key(), T0 + 101).unwrap();
    assert_eq!(p.status, ProposalStatus::Finalized);
    assert_eq!(fin.yes_votes, 50);
    assert_eq!(fin.no_votes, 0);
    assert_eq!(fin.finalized_at, T0 + 101);
    assert_eq!(finalize_proposal(&mut p, prop_key(), T0 + 200), Err(ErrorCode::ProposalNotOpen));
}

#[test]
fn tallies_equal_recorded_weights() {
    let mut p = open_proposal(T0, T0 + 1_000);
    let mut book = VoteBook::new();
    let weights = [10u64, 25, 7, 300, 1];
    for (k, w) in weights.iter().enumerate() {
        let who = voter(k as u128);
        let e = staker(who, *w);
        cast_vote(&mut book, &mut p, prop_key(), &e, who, k % 2 == 0, T0 + k as i64, 1).unwrap();
        assert!(book.contains(prop_key(), who));
    }
    let mut yes: u64 = 0;
    let mut no: u64 = 0;
    for r in book.records.iter() {
        if r.choice {
            yes += r.weight;
        } else {
            no += r.weight;
        }
    }
    assert_eq!(p.yes_votes, yes);
    assert_eq!(p.no_votes, no);
    assert_eq!(yes, 10 + 7 + 1);
    assert_eq!(no, 25 + 300);
    assert_eq!(book.records.len(), 5);
}

#[test]
fn same_voter_may_vote_on_another_proposal() {
    let mut first = open_proposal(T0, T0 + 100);
    let mut second = open_proposal(T0, T0 + 100);
    let other = Address::new(6, 6);
    let mut book = VoteBook::new();
    let e = staker(voter(1), 70);
    cast_vote(&mut book, &mut first, prop_key(), &e, voter(1), true, T0, 1).unwrap();
    cast_vote(&mut book, &mut second, other, &e, voter(1), false, T0 + 100, 1).unwrap();
    assert_eq!(first.yes_votes, 70);
    assert_eq!(second.no_votes, 70);
    assert!(book.contains(other, voter(1)));
    assert!(!book.contains(other, voter(2)));
}

#[test]
fn voting_outside_window_fails() {
    let mut p = open_proposal(T0 + 10, T0 + 20);
    let mut book = VoteBook::new();
    let e = staker(voter(1), 5);
    let before = p;
    assert_eq!(
        cast_vote(&mut book, &mut p, prop_key(), &e, voter(1), true, T0 + 9, 1),
        Err(ErrorCode::VotingNotStarted)
    );
    assert_eq!(
        cast_vote(&mut book, &mut p, prop_key(), &e, voter(1), true, T0 + 21, 1),
        Err(ErrorCode::VotingClosed)
    );
    assert_eq!(p, before);
    assert_eq!(book.records.len(), 0);
    assert!(cast_vote(&mut book, &mut p, prop_key(), &e, voter(1), true, T0 + 20, 1).is_ok());
}

#[test]
fn unstaking_voter_cannot_vote() {
    let mut p = open_proposal(T0, T0 + 100);
    let mut book = VoteBook::new();
    let mut e = staker(voter(1), 80);
    request_unstake(&mut e, voter(1), T0).unwrap();
    assert!(e.amount > 0);
    assert_eq!(
        cast_vote(&mut book, &mut p, prop_key(), &e, voter(1), true, T0 + 1, 1),
        Err(ErrorCode::NoStakeForVote)
    );
    let empty = StakeAccount::new(voter(2));
    assert_eq!(
        cast_vote(&mut book, &mut p, prop_key(), &empty, voter(2), true, T0 + 1, 1),
        Err(ErrorCode::NoStakeForVote)
    );
    assert_eq!(
        cast_vote(&mut book, &mut p, prop_key(), &empty, voter(3), true, T0 + 1, 1),
        Err(ErrorCode::Unauthorized)
    );
}

#[test]
fn vote_on_finalized_proposal_fails() {
    let mut p = open_proposal(T0, T0 + 10);
    finalize_proposal(&mut p, prop_key(), T0 + 11).unwrap();
    let mut book = VoteBook::new();
    let e = staker(voter(1), 5);
    assert_eq!(
        cast_vote(&mut book, &mut p, prop_key(), &e, voter(1), true, T0 + 5, 1),
        Err(ErrorCode::ProposalNotOpen)
    );
}

#[test]
fn tally_overflow_is_refused() {
    let mut p = open_proposal(T0, T0 + 10);
    p.no_votes = u64::MAX - 1;
    let mut book = VoteBook::new();
    let e = staker(voter(1), 2);
    assert_eq!(
        cast_vote(&mut book, &mut p, prop_key(), &e, voter(1), false, T0 + 5, 1),
        Err(ErrorCode::Overflow)
    );
    assert_eq!(p.no_votes, u64::MAX - 1);
    assert!(!book.contains(prop_key(), voter(1)));
}

#[test]
fn proposal_creation_rules() {
    let v = vault();
    let make = |caller: Address, start: i64, end: i64| {
        create_proposal(&v, vault_key(), caller, prop_key(), 2, start, end, T0, 1)
    };
    assert_eq!(make(Address::new(1, 1), T0, T0 + 5).map(|x| x.0), Err(ErrorCode::Unauthorized));
    assert_eq!(make(admin(), T0 + 5, T0 + 5).map(|x| x.0), Err(ErrorCode::VotingClosed));
    assert_eq!(make(admin(), T0 - 50, T0).map(|x| x.0), Err(ErrorCode::VotingClosed));
    let (p, _) = make(admin(), T0 - 50, T0 + 1).unwrap();
    assert_eq!(p.voting_start, T0 - 50);
    assert_eq!(p.authority, admin());
    assert_eq!(p.vault, vault_key());
    assert_eq!(p.mint, v.mint);
    assert_eq!(p.proposal_id, 2);
}

#[test]
fn proposal_id_is_unique_per_vault() {
    let mut book = ProposalBook::new();
    let p = open_proposal(T0, T0 + 100);
    assert_eq!(book.insert(p), Ok(()));
    assert!(book.contains(vault_key(), 1));
    assert_eq!(book.insert(open_proposal(T0 + 1, T0 + 50)), Err(ErrorCode::AlreadyInitialized));
    assert_eq!(book.proposals.len(), 1);
    let mut elsewhere = p;
    elsewhere.vault = Address::new(0, 4);
    assert_eq!(book.insert(elsewhere), Ok(()));
    let mut next = p;
    next.proposal_id = 2;
    assert_eq!(book.insert(next), Ok(()));
    assert!(!book.contains(vault_key(), 3));
    assert_eq!(book.proposals.len(), 3);
}
