use vstd::prelude::*;

use crate::types::{
    Address, ErrorCode, Proposal, ProposalCreatedEvent, ProposalFinalizedEvent, ProposalStatus,
    StakeAccount, StakeStatus, Vault, VoteCastEvent, VoteRecord,
};

verus! {

/// Why `caller` may not open a proposal on `vault` for `[voting_start, voting_end]` at `now`.
pub open spec fn create_rejection(
    vault: Vault,
    caller: Address,
    voting_start: i64,
    voting_end: i64,
    now: i64,
) -> Option<ErrorCode> {
    if caller != vault.authority {
        Some(ErrorCode::Unauthorized)
    } else if voting_end <= voting_start || voting_end <= now {
        Some(ErrorCode::VotingClosed)
    } else {
        None
    }
}

/// Opens a proposal with empty tallies. The voting window may already have
/// started, but may not already be over.
pub fn create_proposal(
    vault: &Vault,
    vault_key: Address,
    caller: Address,
    proposal_key: Address,
    proposal_id: u64,
    voting_start: i64,
    voting_end: i64,
    now: i64,
    bump: u8,
) -> (r: Result<(Proposal, ProposalCreatedEvent), ErrorCode>)
    ensures
        r is Err <==> create_rejection(*vault, caller, voting_start, voting_end, now) is Some,
        r is Err ==> r == Err::<(Proposal, ProposalCreatedEvent), ErrorCode>(
            create_rejection(*vault, caller, voting_start, voting_end, now)->Some_0,
        ),
        r is Ok ==> r == Ok::<(Proposal, ProposalCreatedEvent), ErrorCode>(
            (
                Proposal {
                    authority: caller,
                    vault: vault_key,
                    mint: vault.mint,
                    proposal_id,
                    voting_start,
                    voting_end,
                    yes_votes: 0,
                    no_votes: 0,
                    status: ProposalStatus::Open,
                    bump,
                },
                ProposalCreatedEvent { proposal: proposal_key, proposal_id, voting_start, voting_end },
            ),
        ),
{
    if caller != vault.authority {
        return Err(ErrorCode::Unauthorized);
    }
    if voting_end <= voting_start || voting_end <= now {
        return Err(ErrorCode::VotingClosed);
    }
    let proposal = Proposal {
        authority: caller,
        vault: vault_key,
        mint: vault.mint,
        proposal_id,
        voting_start,
        voting_end,
        yes_votes: 0,
        no_votes: 0,
        status: ProposalStatus::Open,
        bump,
    };
    let event = ProposalCreatedEvent { proposal: proposal_key, proposal_id, voting_start, voting_end };
    Ok((proposal, event))
}

/// Whether `proposals` holds proposal `id` of vault `vault`.
pub open spec fn has_proposal(proposals: Seq<Proposal>, vault: Address, id: u64) -> bool {
    exists|i: int| 0 <= i < proposals.len() && proposals[i].vault == vault && proposals[i].proposal_id == id
}

/// No two proposals share a vault and an id.
pub open spec fn proposals_unique(proposals: Seq<Proposal>) -> bool {
    forall|i: int, j: int|
        0 <= i < proposals.len() && 0 <= j < proposals.len() && i != j ==> !(proposals[i].vault
            == proposals[j].vault && proposals[i].proposal_id == proposals[j].proposal_id)
}

/// The proposals that exist, at most one per (vault, id).
pub struct ProposalBook {
    pub proposals: Vec<Proposal>,
}

impl ProposalBook {
    pub open spec fn view(&self) -> Seq<Proposal> {
        self.proposals@
    }

    pub open spec fn wf(&self) -> bool {
        proposals_unique(self@)
    }

    pub fn new() -> (r: ProposalBook)
        ensures
            r@ == Seq::<Proposal>::empty(),
            r.wf(),
    {
        ProposalBook { proposals: Vec::new() }
    }

    /// Whether proposal `id` of vault `vault` exists.
    pub fn contains(&self, vault: Address, id: u64) -> (r: bool)
        ensures
            r == has_proposal(self@, vault, id),
    {
        let mut i: usize = 0;
        while i < self.proposals.len()
            invariant
                0 <= i <= self.proposals.len(),
                forall|k: int|
                    0 <= k < i ==> !(self.proposals@[k].vault == vault
                        && self.proposals@[k].proposal_id == id),
            decreases self.proposals.len() - i,
        {
            if self.proposals[i].vault == vault && self.proposals[i].proposal_id == id {
                return true;
            }
            i = i + 1;
        }
        false
    }

    /// Records a newly created proposal; fails with `AlreadyInitialized` where
    /// its vault already has a proposal with its id.
    pub fn insert(&mut self, proposal: Proposal) -> (r: Result<(), ErrorCode>)
        ensures
            r is Err <==> has_proposal(old(self)@, proposal.vault, proposal.proposal_id),
            r is Err ==> *final(self) == *old(self) && r == Err::<(), ErrorCode>(
                ErrorCode::AlreadyInitialized,
            ),
            r is Ok ==> final(self)@ == old(self)@.push(proposal),
            old(self).wf() ==> final(self).wf(),
    {
        if self.contains(proposal.vault, proposal.proposal_id) {
            return Err(ErrorCode::AlreadyInitialized);
        }
        self.proposals.push(proposal);
        proof {
            let s = self@;
            let o = old(self)@;
            assert forall|i: int, j: int|
                0 <= i < s.len() && 0 <= j < s.len() && i != j && proposals_unique(o) implies !(
                s[i].vault == s[j].vault && s[i].proposal_id == s[j].proposal_id) by {
                if i < o.len() && j < o.len() {
                    assert(s[i] == o[i] && s[j] == o[j]);
                } else if i < o.len() {
                    assert(s[i] == o[i]);
                } else {
                    assert(s[j] == o[j]);
                }
            }
        }
        Ok(())
    }
}

/// Why finalizing `p` at `now` is refused, if it is.
pub open spec fn finalize_rejection(p: Proposal, now: i64) -> Option<ErrorCode> {
    if p.status != ProposalStatus::Open {
        Some(ErrorCode::ProposalNotOpen)
    } else if now <= p.voting_end {
        Some(ErrorCode::VotingClosed)
    } else {
        None
    }
}

/// Closes an open proposal once its window is over, reporting the final tallies.
pub fn finalize_proposal(proposal: &mut Proposal, proposal_key: Address, now: i64) -> (r: Result<
    ProposalFinalizedEvent,
    ErrorCode,
>)
    ensures
        r is Err <==> finalize_rejection(*old(proposal), now) is Some,
        r is Err ==> *final(proposal) == *old(proposal) && r == Err::<
            ProposalFinalizedEvent,
            ErrorCode,
        >(finalize_rejection(*old(proposal), now)->Some_0),
        r is Ok ==> *final(proposal) == (Proposal {
            status: ProposalStatus::Finalized,
            ..*old(proposal)
        }) && r == Ok::<ProposalFinalizedEvent, ErrorCode>(
            (ProposalFinalizedEvent {
                proposal: proposal_key,
                yes_votes: old(proposal).yes_votes,
                no_votes: old(proposal).no_votes,
                finalized_at: now,
            }),
        ),
{
    if proposal.status != ProposalStatus::Open {
        return Err(ErrorCode::ProposalNotOpen);
    }
    if now <= proposal.voting_end {
        return Err(ErrorCode::VotingClosed);
    }
    proposal.status = ProposalStatus::Finalized;
    Ok(
        ProposalFinalizedEvent {
            proposal: proposal_key,
            yes_votes: proposal.yes_votes,
            no_votes: proposal.no_votes,
            finalized_at: now,
        },
    )
}

/// Whether `records` holds a vote by `voter` on proposal `key`.
pub open spec fn has_voted(records: Seq<VoteRecord>, key: Address, voter: Address) -> bool {
    exists|i: int| 0 <= i < records.len() && records[i].proposal == key && records[i].voter == voter
}

/// No two records share a proposal and a voter.
pub open spec fn votes_unique(records: Seq<VoteRecord>) -> bool {
    forall|i: int, j: int|
        0 <= i < records.len() && 0 <= j < records.len() && i != j ==> !(records[i].proposal
            == records[j].proposal && records[i].voter == records[j].voter)
}

/// Total weight of the records for proposal `key` with the given choice.
pub open spec fn weight_for(records: Seq<VoteRecord>, key: Address, choice: bool) -> int
    decreases records.len(),
{
    if records.len() == 0 {
        0
    } else {
        let last = records.last();
        weight_for(records.drop_last(), key, choice) + if last.proposal == key && last.choice
            == choice {
            last.weight as int
        } else {
            0
        }
    }
}

/// Whether the tallies of `p`, stored under `key`, are the sums of the weights
/// of its recorded votes.
pub open spec fn tallies_match(p: Proposal, key: Address, records: Seq<VoteRecord>) -> bool {
    &&& p.yes_votes == weight_for(records, key, true)
    &&& p.no_votes == weight_for(records, key, false)
}

/// The vote records of all proposals, at most one per (proposal, voter).
pub struct VoteBook {
    pub records: Vec<VoteRecord>,
}

impl VoteBook {
    pub open spec fn view(&self) -> Seq<VoteRecord> {
        self.records@
    }

    pub open spec fn wf(&self) -> bool {
        votes_unique(self@)
    }

    pub fn new() -> (r: VoteBook)
        ensures
            r@ == Seq::<VoteRecord>::empty(),
            r.wf(),
    {
        VoteBook { records: Vec::new() }
    }

    /// Whether `voter` has voted on proposal `key`.
    pub fn contains(&self, key: Address, voter: Address) -> (r: bool)
        ensures
            r == has_voted(self@, key, voter),
    {
        let mut i: usize = 0;
        while i < self.records.len()
            invariant
                0 <= i <= self.records.len(),
                forall|k: int|
                    0 <= k < i ==> !(self.records@[k].proposal == key && self.records@[k].voter
                        == voter),
            decreases self.records.len() - i,
        {
            if self.records[i].proposal == key && self.records[i].voter == voter {
                return true;
            }
            i = i + 1;
        }
        false
    }
}

/// Why `voter`, holding `entry`, may not vote on `p` (stored under `key`) at
/// `now`, if they may not.
pub open spec fn vote_rejection(
    records: Seq<VoteRecord>,
    p: Proposal,
    key: Address,
    entry: StakeAccount,
    voter: Address,
    choice_yes: bool,
    now: i64,
) -> Option<ErrorCode> {
    if has_voted(records, key, voter) {
        Some(ErrorCode::AlreadyVoted)
    } else if entry.user != voter {
        Some(ErrorCode::Unauthorized)
    } else if p.status != ProposalStatus::Open {
        Some(ErrorCode::ProposalNotOpen)
    } else if now < p.voting_start {
        Some(ErrorCode::VotingNotStarted)
    } else if now > p.voting_end {
        Some(ErrorCode::VotingClosed)
    } else if !(entry.status == StakeStatus::Active && entry.amount > 0) {
        Some(ErrorCode::NoStakeForVote)
    } else if choice_yes && p.yes_votes + entry.amount > u64::MAX {
        Some(ErrorCode::Overflow)
    } else if !choice_yes && p.no_votes + entry.amount > u64::MAX {
        Some(ErrorCode::Overflow)
    } else {
        None
    }
}

/// The proposal after a vote of `weight` for `choice_yes`.
pub open spec fn counted(p: Proposal, weight: u64, choice_yes: bool) -> Proposal {
    if choice_yes {
        Proposal { yes_votes: (p.yes_votes + weight) as u64, ..p }
    } else {
        Proposal { no_votes: (p.no_votes + weight) as u64, ..p }
    }
}

/// Casts `voter`'s vote on `proposal` (stored under `proposal_key`) at `now`,
/// weighted by the voter's stake as it stands now.
///
/// On success a record is added to `book` and the weight to the chosen tally;
/// on any error nothing changes.
pub fn cast_vote(
    book: &mut VoteBook,
    proposal: &mut Proposal,
    proposal_key: Address,
    entry: &StakeAccount,
    voter: Address,
    choice_yes: bool,
    now: i64,
    bump: u8,
) -> (r: Result<VoteCastEvent, ErrorCode>)
    ensures
        r is Err <==> vote_rejection(
            old(book)@,
            *old(proposal),
            proposal_key,
            *entry,
            voter,
            choice_yes,
            now,
        ) is Some,
        r is Err ==> *final(book) == *old(book) && *final(proposal) == *old(proposal) && r
            == Err::<VoteCastEvent, ErrorCode>(
            vote_rejection(
                old(book)@,
                *old(proposal),
                proposal_key,
                *entry,
                voter,
                choice_yes,
                now,
            )->Some_0,
        ),
        r is Ok ==> final(book)@ == old(book)@.push(
            VoteRecord {
                proposal: proposal_key,
                voter,
                weight: entry.amount,
                choice: choice_yes,
                voted_at: now,
                bump,
            },
        ) && *final(proposal) == counted(*old(proposal), entry.amount, choice_yes) && r == Ok::<
            VoteCastEvent,
            ErrorCode,
        >((VoteCastEvent { proposal: proposal_key, voter, weight: entry.amount, choice: choice_yes })),
        old(book).wf() ==> final(book).wf(),
{
    if book.contains(proposal_key, voter) {
        return Err(ErrorCode::AlreadyVoted);
    }
    if entry.user != voter {
        return Err(ErrorCode::Unauthorized);
    }
    if proposal.status != ProposalStatus::Open {
        return Err(ErrorCode::ProposalNotOpen);
    }
    if now < proposal.voting_start {
        return Err(ErrorCode::VotingNotStarted);
    }
    if now > proposal.voting_end {
        return Err(ErrorCode::VotingClosed);
    }
    if !(entry.status == StakeStatus::Active && entry.amount > 0) {
        return Err(ErrorCode::NoStakeForVote);
    }
    let weight = entry.amount;
    if choice_yes {
        proposal.yes_votes = match proposal.yes_votes.checked_add(weight) {
            Some(t) => t,
            None => {
                return Err(ErrorCode::Overflow);
            },
        };
    } else {
        proposal.no_votes = match proposal.no_votes.checked_add(weight) {
            Some(t) => t,
            None => {
                return Err(ErrorCode::Overflow);
            },
        };
    }
    let record = VoteRecord {
        proposal: proposal_key,
        voter,
        weight,
        choice: choice_yes,
        voted_at: now,
        bump,
    };
    book.records.push(record);
    Ok(VoteCastEvent { proposal: proposal_key, voter, weight, choice: choice_yes })
}

/// The record that an accepted vote adds.
pub open spec fn vote_record_of(
    key: Address,
    entry: StakeAccount,
    voter: Address,
    choice_yes: bool,
    now: i64,
    bump: u8,
) -> VoteRecord {
    VoteRecord { proposal: key, voter, weight: entry.amount, choice: choice_yes, voted_at: now, bump }
}

/// An accepted vote keeps each proposal's tallies equal to the sums of the
/// weights recorded for it, leaves the sums of other proposals as they were,
/// keeps records unique, and makes any further vote by the same voter on the
/// same proposal fail with `AlreadyVoted`.
pub proof fn lemma_vote_keeps_tallies(
    records: Seq<VoteRecord>,
    p: Proposal,
    key: Address,
    entry: StakeAccount,
    voter: Address,
    choice_yes: bool,
    now: i64,
    bump: u8,
)
    requires
        votes_unique(records),
        tallies_match(p, key, records),
        vote_rejection(records, p, key, entry, voter, choice_yes, now) is None,
    ensures
        ({
            let after = records.push(vote_record_of(key, entry, voter, choice_yes, now, bump));
            &&& votes_unique(after)
            &&& tallies_match(counted(p, entry.amount, choice_yes), key, after)
            &&& forall|other: Address, c: bool|
                other != key ==> weight_for(after, other, c) == weight_for(records, other, c)
            &&& forall|later: Proposal, later_entry: StakeAccount, later_choice: bool, later_now: i64|
                vote_rejection(after, later, key, later_entry, voter, later_choice, later_now) == Some(
                    ErrorCode::AlreadyVoted,
                )
        }),
{
    let rec = vote_record_of(key, entry, voter, choice_yes, now, bump);
    let after = records.push(rec);
    assert(after.drop_last() =~= records);
    assert(after.last() == rec);
    assert(has_voted(after, key, voter)) by {
        assert(after[records.len() as int] == rec);
    }
    assert forall|i: int, j: int|
        0 <= i < after.len() && 0 <= j < after.len() && i != j implies !(after[i].proposal
            == after[j].proposal && after[i].voter == after[j].voter) by {
        if i == records.len() {
            assert(after[j] == records[j]);
        } else if j == records.len() {
            assert(after[i] == records[i]);
        } else {
            assert(after[i] == records[i] && after[j] == records[j]);
        }
    }
}

/// A vote cast outside `[voting_start, voting_end]`, or by a voter whose
/// stake is not active, is refused, whatever the voter's amount.
pub proof fn lemma_vote_needs_window_and_active_stake(
    records: Seq<VoteRecord>,
    p: Proposal,
    key: Address,
    entry: StakeAccount,
    voter: Address,
    choice_yes: bool,
    now: i64,
)
    requires
        now < p.voting_start || now > p.voting_end || entry.status != StakeStatus::Active,
    ensures
        vote_rejection(records, p, key, entry, voter, choice_yes, now) is Some,
{
}

} // verus!
