use vstd::prelude::*;

use crate::types::{
    Address, ErrorCode, StakeAccount, StakeEvent, StakeInfo, StakeStatus, UnstakeCompleteEvent,
    UnstakeRequestEvent, EARLY_EXIT_WINDOW, PENALTY_PERCENT, UNITS_PER_TOKEN, UNSTAKE_LOCK,
};

verus! {

/// The informational tier of a stake of `amount` raw units.
pub open spec fn tier_spec(amount: u64) -> u8 {
    if amount >= 1000 * UNITS_PER_TOKEN {
        3
    } else if amount >= 500 * UNITS_PER_TOKEN {
        2
    } else if amount >= 250 * UNITS_PER_TOKEN {
        1
    } else {
        0
    }
}

pub fn tier_of(amount: u64) -> (r: u8)
    ensures
        r == tier_spec(amount),
{
    if amount >= 1000 * UNITS_PER_TOKEN {
        3
    } else if amount >= 500 * UNITS_PER_TOKEN {
        2
    } else if amount >= 250 * UNITS_PER_TOKEN {
        1
    } else {
        0
    }
}

/// The amount withheld from a withdrawal of `amount`: five percent, rounded
/// down, when the early-exit flag is set, else nothing.
pub open spec fn penalty_spec(amount: u64, flagged: bool) -> u64 {
    if flagged {
        (amount * PENALTY_PERCENT / 100) as u64
    } else {
        0
    }
}

pub fn penalty_of(amount: u64, flagged: bool) -> (r: u64)
    ensures
        r == penalty_spec(amount, flagged),
        r <= amount,
{
    if flagged {
        let p: u128 = (amount as u128) * (PENALTY_PERCENT as u128) / 100;
        assert(p <= amount) by (nonlinear_arith)
            requires
                p == (amount as u128) * 5 / 100,
        ;
        p as u64
    } else {
        0
    }
}

/// Why a deposit of `amount` into `e` is refused, if it is; `balance` is what
/// the depositor's source account holds.
pub open spec fn stake_rejection(e: StakeAccount, amount: u64, balance: u64) -> Option<ErrorCode> {
    if amount == 0 {
        Some(ErrorCode::InvalidAmount)
    } else if balance < amount {
        Some(ErrorCode::InsufficientFunds)
    } else if e.amount != 0 && e.amount + amount > u64::MAX {
        Some(ErrorCode::Overflow)
    } else {
        None
    }
}

/// The entry after an accepted deposit of `amount` by `user` at `now`.
///
/// An empty entry starts a new stake; otherwise the amount grows, the start
/// time is kept, and a pending unstake request is cancelled.
pub open spec fn staked(e: StakeAccount, user: Address, amount: u64, now: i64) -> StakeAccount {
    if e.amount == 0 {
        StakeAccount {
            user,
            amount,
            timestamp: now,
            unstake_timestamp: None,
            status: StakeStatus::Active,
            penalty_applied: false,
        }
    } else if e.status == StakeStatus::Unstaking {
        StakeAccount {
            amount: (e.amount + amount) as u64,
            unstake_timestamp: None,
            status: StakeStatus::Active,
            ..e
        }
    } else {
        StakeAccount { amount: (e.amount + amount) as u64, ..e }
    }
}

/// Deposits `amount` from `user`, whose source account holds `balance`, into
/// the entry at time `now`.
///
/// On success the returned event names the transfer to perform into escrow;
/// on any error the entry is left as it was.
pub fn stake(entry: &mut StakeAccount, user: Address, amount: u64, balance: u64, now: i64) -> (r:
    Result<StakeEvent, ErrorCode>)
    ensures
        r is Err <==> stake_rejection(*old(entry), amount, balance) is Some,
        r is Err ==> *final(entry) == *old(entry) && r == Err::<StakeEvent, ErrorCode>(
            stake_rejection(*old(entry), amount, balance)->Some_0,
        ),
        r is Ok ==> *final(entry) == staked(*old(entry), user, amount, now) && r == Ok::<
            StakeEvent,
            ErrorCode,
        >(
            (StakeEvent { user, amount, total_staked: final(entry).amount, timestamp: now }),
        ),
        old(entry).wf() ==> final(entry).wf(),
{
    if amount == 0 {
        return Err(ErrorCode::InvalidAmount);
    }
    if balance < amount {
        return Err(ErrorCode::InsufficientFunds);
    }
    if entry.amount == 0 {
        entry.user = user;
        entry.amount = amount;
        entry.timestamp = now;
        entry.unstake_timestamp = None;
        entry.status = StakeStatus::Active;
        entry.penalty_applied = false;
    } else {
        let total = match entry.amount.checked_add(amount) {
            Some(t) => t,
            None => {
                return Err(ErrorCode::Overflow);
            },
        };
        entry.amount = total;
        if entry.status == StakeStatus::Unstaking {
            entry.status = StakeStatus::Active;
            entry.unstake_timestamp = None;
        }
    }
    Ok(StakeEvent { user, amount, total_staked: entry.amount, timestamp: now })
}

/// Why an unstake request by `user` on `e` at `now` is refused, if it is.
pub open spec fn request_rejection(e: StakeAccount, user: Address, now: i64) -> Option<ErrorCode> {
    if e.user != user {
        Some(ErrorCode::Unauthorized)
    } else if e.status != StakeStatus::Active {
        Some(ErrorCode::StakeNotActive)
    } else if e.amount == 0 {
        Some(ErrorCode::NoStakeFound)
    } else if now + UNSTAKE_LOCK > i64::MAX {
        Some(ErrorCode::Overflow)
    } else {
        None
    }
}

/// Whether a request at `now` falls inside the early-exit window of `e`.
pub open spec fn is_early(e: StakeAccount, now: i64) -> bool {
    now - e.timestamp < EARLY_EXIT_WINDOW
}

/// The entry after an accepted unstake request at `now`: the early-exit flag
/// is set if the request is early (and never cleared), and the lock starts.
pub open spec fn requested(e: StakeAccount, now: i64) -> StakeAccount {
    StakeAccount {
        unstake_timestamp: Some(now),
        status: StakeStatus::Unstaking,
        penalty_applied: e.penalty_applied || is_early(e, now),
        ..e
    }
}

/// Starts the unstake lock on `user`'s entry at time `now`. No funds move.
pub fn request_unstake(entry: &mut StakeAccount, user: Address, now: i64) -> (r: Result<
    UnstakeRequestEvent,
    ErrorCode,
>)
    ensures
        r is Err <==> request_rejection(*old(entry), user, now) is Some,
        r is Err ==> *final(entry) == *old(entry) && r == Err::<UnstakeRequestEvent, ErrorCode>(
            request_rejection(*old(entry), user, now)->Some_0,
        ),
        r is Ok ==> *final(entry) == requested(*old(entry), now) && r == Ok::<
            UnstakeRequestEvent,
            ErrorCode,
        >(
            (UnstakeRequestEvent {
                user,
                amount: old(entry).amount,
                unlock_timestamp: (now + UNSTAKE_LOCK) as i64,
                penalty_applied: final(entry).penalty_applied,
                timestamp: now,
            }),
        ),
        old(entry).wf() ==> final(entry).wf(),
{
    if entry.user != user {
        return Err(ErrorCode::Unauthorized);
    }
    if entry.status != StakeStatus::Active {
        return Err(ErrorCode::StakeNotActive);
    }
    if entry.amount == 0 {
        return Err(ErrorCode::NoStakeFound);
    }
    let unlock = match now.checked_add(UNSTAKE_LOCK) {
        Some(t) => t,
        None => {
            return Err(ErrorCode::Overflow);
        },
    };
    let elapsed: i128 = (now as i128) - (entry.timestamp as i128);
    if elapsed < EARLY_EXIT_WINDOW as i128 {
        entry.penalty_applied = true;
    }
    entry.unstake_timestamp = Some(now);
    entry.status = StakeStatus::Unstaking;
    Ok(
        UnstakeRequestEvent {
            user,
            amount: entry.amount,
            unlock_timestamp: unlock,
            penalty_applied: entry.penalty_applied,
            timestamp: now,
        },
    )
}

/// Why completing `user`'s withdrawal from `e` at `now` is refused, if it is.
pub open spec fn complete_rejection(e: StakeAccount, user: Address, now: i64) -> Option<ErrorCode> {
    if e.user != user {
        Some(ErrorCode::Unauthorized)
    } else if e.status != StakeStatus::Unstaking {
        Some(ErrorCode::NotUnstaking)
    } else if e.unstake_timestamp is None {
        Some(ErrorCode::NoUnstakeRequest)
    } else if now < e.unstake_timestamp->Some_0 + UNSTAKE_LOCK {
        Some(ErrorCode::LockPeriodNotOver)
    } else {
        None
    }
}

/// The entry after a completed withdrawal: zeroed and marked unstaked, kept
/// for inspection.
pub open spec fn withdrawn(e: StakeAccount) -> StakeAccount {
    StakeAccount { amount: 0, status: StakeStatus::Unstaked, unstake_timestamp: None, ..e }
}

/// Completes `user`'s pending withdrawal at time `now`.
///
/// On success the event's `amount` is what the vault pays out to the user and
/// `penalty` what stays in escrow; the two add up to the stake.
pub fn complete_unstake(entry: &mut StakeAccount, user: Address, now: i64) -> (r: Result<
    UnstakeCompleteEvent,
    ErrorCode,
>)
    ensures
        r is Err <==> complete_rejection(*old(entry), user, now) is Some,
        r is Err ==> *final(entry) == *old(entry) && r == Err::<UnstakeCompleteEvent, ErrorCode>(
            complete_rejection(*old(entry), user, now)->Some_0,
        ),
        r is Ok ==> *final(entry) == withdrawn(*old(entry)) && r == Ok::<
            UnstakeCompleteEvent,
            ErrorCode,
        >(
            (UnstakeCompleteEvent {
                user,
                amount: (old(entry).amount - penalty_spec(
                    old(entry).amount,
                    old(entry).penalty_applied,
                )) as u64,
                penalty: penalty_spec(old(entry).amount, old(entry).penalty_applied),
                timestamp: now,
            }),
        ),
        old(entry).wf() ==> final(entry).wf(),
{
    if entry.user != user {
        return Err(ErrorCode::Unauthorized);
    }
    if entry.status != StakeStatus::Unstaking {
        return Err(ErrorCode::NotUnstaking);
    }
    let requested_at = match entry.unstake_timestamp {
        Some(t) => t,
        None => {
            return Err(ErrorCode::NoUnstakeRequest);
        },
    };
    if (now as i128) < (requested_at as i128) + (UNSTAKE_LOCK as i128) {
        return Err(ErrorCode::LockPeriodNotOver);
    }
    let amount = entry.amount;
    let penalty = penalty_of(amount, entry.penalty_applied);
    let paid = match amount.checked_sub(penalty) {
        Some(p) => p,
        None => {
            return Err(ErrorCode::Overflow);
        },
    };
    entry.amount = 0;
    entry.status = StakeStatus::Unstaked;
    entry.unstake_timestamp = None;
    Ok(UnstakeCompleteEvent { user, amount: paid, penalty, timestamp: now })
}

/// The time from which a pending withdrawal may complete, while one is pending.
pub open spec fn unlock_spec(e: StakeAccount) -> Option<i64> {
    if e.status == StakeStatus::Unstaking && e.unstake_timestamp is Some {
        Some((e.unstake_timestamp->Some_0 + UNSTAKE_LOCK) as i64)
    } else {
        None
    }
}

/// The projection of `e` reported by a stake-info query.
pub open spec fn stake_info_spec(e: StakeAccount) -> Result<StakeInfo, ErrorCode> {
    if e.status == StakeStatus::Unstaking && e.unstake_timestamp is Some
        && e.unstake_timestamp->Some_0 + UNSTAKE_LOCK > i64::MAX {
        Err(ErrorCode::Overflow)
    } else {
        Ok(
            StakeInfo {
                user: e.user,
                amount: e.amount,
                timestamp: e.timestamp,
                unstake_timestamp: e.unstake_timestamp,
                unlock_timestamp: unlock_spec(e),
                status: e.status,
                tier: tier_spec(e.amount),
                penalty_applied: e.penalty_applied,
            },
        )
    }
}

/// Reports the entry's stored fields with its unlock time and tier.
///
/// Fails with `Overflow` only where the unlock time would not fit in an `i64`.
pub fn get_stake_info(entry: &StakeAccount) -> (r: Result<StakeInfo, ErrorCode>)
    ensures
        r == stake_info_spec(*entry),
{
    let unlock_timestamp = if entry.status == StakeStatus::Unstaking {
        match entry.unstake_timestamp {
            Some(t) => match t.checked_add(UNSTAKE_LOCK) {
                Some(u) => Some(u),
                None => {
                    return Err(ErrorCode::Overflow);
                },
            },
            None => None,
        }
    } else {
        None
    };
    Ok(
        StakeInfo {
            user: entry.user,
            amount: entry.amount,
            timestamp: entry.timestamp,
            unstake_timestamp: entry.unstake_timestamp,
            unlock_timestamp,
            status: entry.status,
            tier: tier_of(entry.amount),
            penalty_applied: entry.penalty_applied,
        },
    )
}

/// The sum of the deposited amounts.
pub open spec fn deposit_total(deposits: Seq<(u64, i64)>) -> int
    decreases deposits.len(),
{
    if deposits.len() == 0 {
        0
    } else {
        deposit_total(deposits.drop_last()) + deposits.last().0 as int
    }
}

/// The entry after each `(amount, time)` deposit of `deposits` is accepted, in order.
pub open spec fn after_deposits(e: StakeAccount, user: Address, deposits: Seq<(u64, i64)>) -> StakeAccount
    decreases deposits.len(),
{
    if deposits.len() == 0 {
        e
    } else {
        let last = deposits.last();
        staked(after_deposits(e, user, deposits.drop_last()), user, last.0, last.1)
    }
}

/// After any sequence of accepted deposits the staked amount is the starting
/// amount plus the exact sum of the deposits.
pub proof fn lemma_deposits_add_up(e: StakeAccount, user: Address, deposits: Seq<(u64, i64)>)
    requires
        e.amount + deposit_total(deposits) <= u64::MAX,
    ensures
        after_deposits(e, user, deposits).amount == e.amount + deposit_total(deposits),
    decreases deposits.len(),
{
    if deposits.len() > 0 {
        let init = deposits.drop_last();
        lemma_deposit_total_grows(deposits);
        lemma_deposits_add_up(e, user, init);
    }
}

proof fn lemma_deposit_total_grows(deposits: Seq<(u64, i64)>)
    requires
        deposits.len() > 0,
    ensures
        deposit_total(deposits.drop_last()) <= deposit_total(deposits),
        deposit_total(deposits.drop_last()) >= 0,
    decreases deposits.len(),
{
    if deposits.len() > 1 {
        lemma_deposit_total_grows(deposits.drop_last());
    }
}

/// An accepted unstake request made inside the early-exit window sets the
/// penalty flag; one made later leaves a clear flag clear; a set flag stays set.
pub proof fn lemma_request_penalty_flag(e: StakeAccount, user: Address, now: i64)
    requires
        request_rejection(e, user, now) is None,
    ensures
        now - e.timestamp < EARLY_EXIT_WINDOW ==> requested(e, now).penalty_applied,
        now - e.timestamp >= EARLY_EXIT_WINDOW && !e.penalty_applied ==> !requested(
            e,
            now,
        ).penalty_applied,
        e.penalty_applied ==> requested(e, now).penalty_applied,
{
}

/// Completing a pending withdrawal fails with `LockPeriodNotOver` exactly
/// before the request time plus the lock, and is accepted from then on.
pub proof fn lemma_lock_period(e: StakeAccount, user: Address, now: i64)
    requires
        e.user == user,
        e.status == StakeStatus::Unstaking,
        e.unstake_timestamp is Some,
    ensures
        now < e.unstake_timestamp->Some_0 + UNSTAKE_LOCK ==> complete_rejection(e, user, now)
            == Some(ErrorCode::LockPeriodNotOver),
        now >= e.unstake_timestamp->Some_0 + UNSTAKE_LOCK ==> complete_rejection(e, user, now)
            is None,
{
}

/// What a withdrawal pays out plus what it withholds is the whole stake; the
/// withheld part is five percent rounded down when flagged, else nothing.
pub proof fn lemma_payout_conserves_stake(amount: u64, flagged: bool)
    ensures
        penalty_spec(amount, flagged) <= amount,
        (amount - penalty_spec(amount, flagged)) + penalty_spec(amount, flagged) == amount,
        flagged ==> penalty_spec(amount, flagged) == amount * 5 / 100,
        !flagged ==> penalty_spec(amount, flagged) == 0,
{
    assert(amount * 5 / 100 <= amount) by (nonlinear_arith);
}

/// A deposit of any size accepted while unstaking makes the entry active
/// again, cancels the pending request and keeps the start time.
pub proof fn lemma_deposit_cancels_unstake(e: StakeAccount, user: Address, amount: u64, balance: u64, now: i64)
    requires
        e.wf(),
        e.status == StakeStatus::Unstaking,
        stake_rejection(e, amount, balance) is None,
    ensures
        staked(e, user, amount, now).status == StakeStatus::Active,
        staked(e, user, amount, now).unstake_timestamp is None,
        staked(e, user, amount, now).timestamp == e.timestamp,
        staked(e, user, amount, now).amount == e.amount + amount,
{
}

} // verus!
