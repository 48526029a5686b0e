use vstd::prelude::*;

verus! {

/// Seconds a first deposit must be held before an unstake request is free of penalty.
pub const EARLY_EXIT_WINDOW: i64 = 259200;

/// Seconds between an unstake request and the earliest withdrawal.
pub const UNSTAKE_LOCK: i64 = 172800;

/// Percentage of the withdrawn principal withheld on an early exit.
pub const PENALTY_PERCENT: u64 = 5;

/// Raw units in one whole token (nine fractional digits).
pub const UNITS_PER_TOKEN: u64 = 1_000_000_000;

/// A 32-byte account address, held as two 128-bit halves.
#[derive(Clone, Copy, Debug, PartialEq, Eq, Hash, Structural)]
pub struct Address {
    pub hi: u128,
    pub lo: u128,
}

impl Address {
    pub fn new(hi: u128, lo: u128) -> (r: Address)
        ensures
            r.hi == hi,
            r.lo == lo,
    {
        Address { hi, lo }
    }
}

#[derive(Clone, Copy, Debug, PartialEq, Eq, Structural)]
pub enum StakeStatus {
    Active,
    Unstaking,
    Unstaked,
}

#[derive(Clone, Copy, Debug, PartialEq, Eq, Structural)]
pub enum ProposalStatus {
    Open,
    Finalized,
    Cancelled,
}

#[derive(Clone, Copy, Debug, PartialEq, Eq, Structural)]
pub enum ErrorCode {
    StakeNotActive,
    NoStakeFound,
    Overflow,
    NotUnstaking,
    NoUnstakeRequest,
    LockPeriodNotOver,
    ProposalNotOpen,
    VotingNotStarted,
    VotingClosed,
    AlreadyVoted,
    NoStakeForVote,
    AlreadyInitialized,
    InvalidAmount,
    InsufficientFunds,
    Unauthorized,
}

/// The per-asset vault: who administers it and which asset it custodies.
#[derive(Clone, Copy, Debug, PartialEq, Eq, Structural)]
pub struct Vault {
    pub authority: Address,
    pub mint: Address,
    pub bump: u8,
}

/// One user's stake ledger entry in one vault.
#[derive(Clone, Copy, Debug, PartialEq, Eq, Structural)]
pub struct StakeAccount {
    pub user: Address,
    pub amount: u64,
    /// When the current stake began.
    pub timestamp: i64,
    /// When withdrawal was requested, while one is pending.
    pub unstake_timestamp: Option<i64>,
    pub status: StakeStatus,
    /// Set by an unstake request made inside the early-exit window.
    pub penalty_applied: bool,
}

impl StakeAccount {
    /// The entry as it stands before its first deposit.
    pub open spec fn fresh(user: Address) -> StakeAccount {
        StakeAccount {
            user,
            amount: 0,
            timestamp: 0,
            unstake_timestamp: None,
            status: StakeStatus::Active,
            penalty_applied: false,
        }
    }

    pub fn new(user: Address) -> (r: StakeAccount)
        ensures
            r == StakeAccount::fresh(user),
            r.wf(),
    {
        StakeAccount {
            user,
            amount: 0,
            timestamp: 0,
            unstake_timestamp: None,
            status: StakeStatus::Active,
            penalty_applied: false,
        }
    }

    /// A pending request exists exactly while unstaking, an unstaking entry
    /// holds a positive stake, and a withdrawn entry holds none.
    pub open spec fn wf(self) -> bool {
        &&& (self.unstake_timestamp is Some) == (self.status == StakeStatus::Unstaking)
        &&& self.status == StakeStatus::Unstaking ==> self.amount > 0
        &&& self.status == StakeStatus::Unstaked ==> self.amount == 0
    }
}

/// A time-boxed yes/no vote weighted by stake.
#[derive(Clone, Copy, Debug, PartialEq, Eq, Structural)]
pub struct Proposal {
    pub authority: Address,
    pub vault: Address,
    pub mint: Address,
    pub proposal_id: u64,
    pub voting_start: i64,
    pub voting_end: i64,
    pub yes_votes: u64,
    pub no_votes: u64,
    pub status: ProposalStatus,
    pub bump: u8,
}

/// The receipt of one voter's vote on one proposal.
#[derive(Clone, Copy, Debug, PartialEq, Eq, Structural)]
pub struct VoteRecord {
    pub proposal: Address,
    pub voter: Address,
    pub weight: u64,
    pub choice: bool,
    pub voted_at: i64,
    pub bump: u8,
}

/// A read-only projection of a stake entry.
#[derive(Clone, Copy, Debug, PartialEq, Eq, Structural)]
pub struct StakeInfo {
    pub user: Address,
    pub amount: u64,
    pub timestamp: i64,
    pub unstake_timestamp: Option<i64>,
    pub unlock_timestamp: Option<i64>,
    pub status: StakeStatus,
    pub tier: u8,
    pub penalty_applied: bool,
}

/// A deposit: `amount` moves from the user's account into the vault escrow.
#[derive(Clone, Copy, Debug, PartialEq, Eq, Structural)]
pub struct StakeEvent {
    pub user: Address,
    pub amount: u64,
    pub total_staked: u64,
    pub timestamp: i64,
}

#[derive(Clone, Copy, Debug, PartialEq, Eq, Structural)]
pub struct UnstakeRequestEvent {
    pub user: Address,
    pub amount: u64,
    pub unlock_timestamp: i64,
    pub penalty_applied: bool,
    pub timestamp: i64,
}

/// A withdrawal: `amount` moves from the vault escrow to the user, signed by
/// the vault; `penalty` stays in escrow.
#[derive(Clone, Copy, Debug, PartialEq, Eq, Structural)]
pub struct UnstakeCompleteEvent {
    pub user: Address,
    pub amount: u64,
    pub penalty: u64,
    pub timestamp: i64,
}

#[derive(Clone, Copy, Debug, PartialEq, Eq, Structural)]
pub struct ProposalCreatedEvent {
    pub proposal: Address,
    pub proposal_id: u64,
    pub voting_start: i64,
    pub voting_end: i64,
}

#[derive(Clone, Copy, Debug, PartialEq, Eq, Structural)]
pub struct VoteCastEvent {
    pub proposal: Address,
    pub voter: Address,
    pub weight: u64,
    pub choice: bool,
}

#[derive(Clone, Copy, Debug, PartialEq, Eq, Structural)]
pub struct ProposalFinalizedEvent {
    pub proposal: Address,
    pub yes_votes: u64,
    pub no_votes: u64,
    pub finalized_at: i64,
}

} // verus!
