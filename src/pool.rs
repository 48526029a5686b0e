use vstd::prelude::*;

use crate::staking::{
    complete_rejection, complete_unstake, get_stake_info, stake_info_spec, request_rejection, request_unstake,
    stake, stake_rejection, staked, requested, withdrawn, penalty_spec,
};
use crate::types::{
    Address, ErrorCode, StakeAccount, StakeEvent, StakeInfo, UnstakeCompleteEvent,
    UnstakeRequestEvent, Vault,
};

verus! {

/// The sum of the staked amounts of `entries`.
pub open spec fn total_staked(entries: Seq<StakeAccount>) -> int
    decreases entries.len(),
{
    if entries.len() == 0 {
        0
    } else {
        total_staked(entries.drop_last()) + entries.last().amount as int
    }
}

/// The entries keyed by their owners.
pub open spec fn by_user(entries: Seq<StakeAccount>) -> Map<Address, StakeAccount>
    decreases entries.len(),
{
    if entries.len() == 0 {
        Map::empty()
    } else {
        by_user(entries.drop_last()).insert(entries.last().user, entries.last())
    }
}

/// No two entries belong to the same user.
pub open spec fn users_unique(entries: Seq<StakeAccount>) -> bool {
    forall|i: int, j: int|
        0 <= i < entries.len() && 0 <= j < entries.len() && i != j ==> entries[i].user
            != entries[j].user
}

/// `user`'s entry, or the empty one where they have never deposited.
pub open spec fn entry_in(m: Map<Address, StakeAccount>, user: Address) -> StakeAccount {
    if m.contains_key(user) {
        m[user]
    } else {
        StakeAccount::fresh(user)
    }
}

proof fn lemma_total_nonneg(s: Seq<StakeAccount>)
    ensures
        total_staked(s) >= 0,
    decreases s.len(),
{
    if s.len() > 0 {
        lemma_total_nonneg(s.drop_last());
    }
}

proof fn lemma_total_update(s: Seq<StakeAccount>, i: int, x: StakeAccount)
    requires
        0 <= i < s.len(),
    ensures
        total_staked(s.update(i, x)) == total_staked(s) - s[i].amount + x.amount,
    decreases s.len(),
{
    let t = s.update(i, x);
    if i == s.len() - 1 {
        assert(t.drop_last() =~= s.drop_last());
    } else {
        assert(t.drop_last() =~= s.drop_last().update(i, x));
        lemma_total_update(s.drop_last(), i, x);
    }
}

proof fn lemma_by_user_keys(s: Seq<StakeAccount>, u: Address)
    ensures
        by_user(s).contains_key(u) <==> exists|i: int| 0 <= i < s.len() && s[i].user == u,
    decreases s.len(),
{
    if s.len() > 0 {
        let init = s.drop_last();
        lemma_by_user_keys(init, u);
        if by_user(s).contains_key(u) && s.last().user != u {
            let i = choose|i: int| 0 <= i < init.len() && init[i].user == u;
            assert(s[i] == init[i]);
        }
        if exists|i: int| 0 <= i < s.len() && s[i].user == u {
            let i = choose|i: int| 0 <= i < s.len() && s[i].user == u;
            if i < s.len() - 1 {
                assert(init[i] == s[i]);
            }
        }
    }
}

proof fn lemma_by_user_at(s: Seq<StakeAccount>, i: int)
    requires
        users_unique(s),
        0 <= i < s.len(),
    ensures
        by_user(s).contains_key(s[i].user),
        by_user(s)[s[i].user] == s[i],
    decreases s.len(),
{
    let init = s.drop_last();
    if i < s.len() - 1 {
        assert(init[i] == s[i]);
        assert(s[s.len() - 1].user != s[i].user);
        lemma_by_user_at(init, i);
    }
}

proof fn lemma_by_user_update(s: Seq<StakeAccount>, i: int, x: StakeAccount)
    requires
        users_unique(s),
        0 <= i < s.len(),
        x.user == s[i].user,
    ensures
        by_user(s.update(i, x)) =~= by_user(s).insert(x.user, x),
        users_unique(s.update(i, x)),
    decreases s.len(),
{
    let t = s.update(i, x);
    assert forall|a: int, b: int|
        0 <= a < t.len() && 0 <= b < t.len() && a != b implies t[a].user != t[b].user by {
        assert(s[a].user != s[b].user);
    }
    if i == s.len() - 1 {
        assert(t.drop_last() =~= s.drop_last());
        assert(by_user(s.drop_last()).insert(x.user, x) =~= by_user(s.drop_last()).insert(
            s[i].user,
            s[i],
        ).insert(x.user, x));
    } else {
        let init = s.drop_last();
        assert(t.drop_last() =~= init.update(i, x));
        assert(init[i] == s[i]);
        assert(s.last().user != x.user);
        lemma_by_user_update(init, i, x);
    }
}

/// The custody of one vault: its escrow balance and one stake entry per user.
pub struct StakePool {
    pub vault: Vault,
    /// Tokens held by the vault's escrow account.
    pub escrow: u64,
    pub entries: Vec<StakeAccount>,
}

impl StakePool {
    /// Each user's entry.
    pub open spec fn view(&self) -> Map<Address, StakeAccount> {
        by_user(self.entries@)
    }

    /// Entries are unique per user and well formed, and the escrow holds at
    /// least everything staked.
    pub open spec fn wf(&self) -> bool {
        &&& users_unique(self.entries@)
        &&& forall|i: int| 0 <= i < self.entries@.len() ==> (#[trigger] self.entries@[i]).wf()
        &&& total_staked(self.entries@) <= self.escrow
    }

    /// The amount by which the escrow exceeds what is staked: the withheld penalties.
    pub open spec fn surplus(&self) -> int {
        self.escrow - total_staked(self.entries@)
    }

    pub fn new(vault: Vault) -> (r: StakePool)
        ensures
            r.vault == vault,
            r.escrow == 0,
            r@ == Map::<Address, StakeAccount>::empty(),
            r.wf(),
    {
        StakePool { vault, escrow: 0, entries: Vec::new() }
    }

    fn find(&self, user: Address) -> (r: Option<usize>)
        requires
            users_unique(self.entries@),
        ensures
            r is None ==> !self@.contains_key(user),
            r is Some ==> r->Some_0 < self.entries@.len() && self.entries@[r->Some_0 as int].user
                == user && self@.contains_key(user) && self@[user] == self.entries@[r->Some_0 as int],
    {
        let mut i: usize = 0;
        while i < self.entries.len()
            invariant
                0 <= i <= self.entries.len(),
                users_unique(self.entries@),
                forall|k: int| 0 <= k < i ==> self.entries@[k].user != user,
            decreases self.entries.len() - i,
        {
            if self.entries[i].user == user {
                proof {
                    lemma_by_user_at(self.entries@, i as int);
                }
                return Some(i);
            }
            i = i + 1;
        }
        proof {
            lemma_by_user_keys(self.entries@, user);
        }
        None
    }

    /// Why `user`'s deposit of `amount`, from an account holding `balance`, is refused, if it is.
    pub open spec fn deposit_rejection(&self, user: Address, amount: u64, balance: u64) -> Option<
        ErrorCode,
    > {
        let r = stake_rejection(entry_in(self@, user), amount, balance);
        if r is Some {
            r
        } else if self.escrow + amount > u64::MAX {
            Some(ErrorCode::Overflow)
        } else {
            None
        }
    }

    /// Deposits `amount` from `user` at `now`, creating their entry on first
    /// use; the escrow grows by the deposit.
    pub fn stake(&mut self, user: Address, amount: u64, balance: u64, now: i64) -> (r: Result<
        StakeEvent,
        ErrorCode,
    >)
        requires
            old(self).wf(),
        ensures
            final(self).wf(),
            final(self).vault == old(self).vault,
            r is Err <==> old(self).deposit_rejection(user, amount, balance) is Some,
            r is Err ==> *final(self) == *old(self) && r == Err::<StakeEvent, ErrorCode>(
                old(self).deposit_rejection(user, amount, balance)->Some_0,
            ),
            r is Ok ==> final(self)@ == old(self)@.insert(
                user,
                staked(entry_in(old(self)@, user), user, amount, now),
            ) && final(self).escrow == old(self).escrow + amount && r == Ok::<StakeEvent, ErrorCode>(
                (StakeEvent {
                    user,
                    amount,
                    total_staked: final(self)@[user].amount,
                    timestamp: now,
                }),
            ),
    {
        let found = self.find(user);
        let mut entry = match found {
            Some(i) => self.entries[i],
            None => StakeAccount::new(user),
        };
        let ghost before = entry;
        let event = match stake(&mut entry, user, amount, balance, now) {
            Ok(ev) => ev,
            Err(e) => {
                return Err(e);
            },
        };
        let escrow = match self.escrow.checked_add(amount) {
            Some(t) => t,
            None => {
                return Err(ErrorCode::Overflow);
            },
        };
        proof {
            assert(entry.amount == before.amount + amount);
            assert(entry.user == user);
            lemma_total_nonneg(self.entries@);
        }
        match found {
            Some(i) => {
                proof {
                    lemma_by_user_update(self.entries@, i as int, entry);
                    lemma_total_update(self.entries@, i as int, entry);
                }
                self.entries.set(i, entry);
            },
            None => {
                proof {
                    lemma_by_user_keys(self.entries@, user);
                    let t = self.entries@.push(entry);
                    assert(t.drop_last() =~= self.entries@);
                    assert forall|a: int, b: int|
                        0 <= a < t.len() && 0 <= b < t.len() && a != b implies t[a].user
                        != t[b].user by {
                        if a < self.entries@.len() && b < self.entries@.len() {
                            assert(t[a] == self.entries@[a] && t[b] == self.entries@[b]);
                        } else if a < self.entries@.len() {
                            assert(t[a] == self.entries@[a]);
                        } else {
                            assert(t[b] == self.entries@[b]);
                        }
                    }
                }
                self.entries.push(entry);
            },
        }
        self.escrow = escrow;
        proof {
            lemma_by_user_keys(self.entries@, user);
            let i = choose|i: int| 0 <= i < self.entries@.len() && self.entries@[i].user == user;
            lemma_by_user_at(self.entries@, i);
        }
        Ok(event)
    }

    /// Starts the unstake lock on `user`'s entry at `now`. Nothing leaves escrow.
    pub fn request_unstake(&mut self, user: Address, now: i64) -> (r: Result<
        UnstakeRequestEvent,
        ErrorCode,
    >)
        requires
            old(self).wf(),
        ensures
            final(self).wf(),
            final(self).vault == old(self).vault,
            final(self).escrow == old(self).escrow,
            r is Err <==> request_rejection(entry_in(old(self)@, user), user, now) is Some,
            r is Err ==> *final(self) == *old(self) && r == Err::<UnstakeRequestEvent, ErrorCode>(
                request_rejection(entry_in(old(self)@, user), user, now)->Some_0,
            ),
            r is Ok ==> final(self)@ == old(self)@.insert(
                user,
                requested(entry_in(old(self)@, user), now),
            ),
    {
        let i = match self.find(user) {
            Some(i) => i,
            None => {
                return Err(ErrorCode::NoStakeFound);
            },
        };
        let mut entry = self.entries[i];
        let event = match request_unstake(&mut entry, user, now) {
            Ok(ev) => ev,
            Err(e) => {
                return Err(e);
            },
        };
        proof {
            lemma_by_user_update(self.entries@, i as int, entry);
            lemma_total_update(self.entries@, i as int, entry);
        }
        self.entries.set(i, entry);
        Ok(event)
    }

    /// Completes `user`'s pending withdrawal at `now`: the payout leaves
    /// escrow and the penalty stays there.
    pub fn complete_unstake(&mut self, user: Address, now: i64) -> (r: Result<
        UnstakeCompleteEvent,
        ErrorCode,
    >)
        requires
            old(self).wf(),
        ensures
            final(self).wf(),
            final(self).vault == old(self).vault,
            r is Err <==> complete_rejection(entry_in(old(self)@, user), user, now) is Some,
            r is Err ==> *final(self) == *old(self) && r == Err::<UnstakeCompleteEvent, ErrorCode>(
                complete_rejection(entry_in(old(self)@, user), user, now)->Some_0,
            ),
            r is Ok ==> ({
                let e = entry_in(old(self)@, user);
                let penalty = penalty_spec(e.amount, e.penalty_applied);
                &&& final(self)@ == old(self)@.insert(user, withdrawn(e))
                &&& final(self).escrow == old(self).escrow - (e.amount - penalty)
                &&& final(self).surplus() == old(self).surplus() + penalty
                &&& r == Ok::<UnstakeCompleteEvent, ErrorCode>(
                    (UnstakeCompleteEvent {
                        user,
                        amount: (e.amount - penalty) as u64,
                        penalty,
                        timestamp: now,
                    }),
                )
            }),
    {
        let i = match self.find(user) {
            Some(i) => i,
            None => {
                return Err(ErrorCode::NotUnstaking);
            },
        };
        let mut entry = self.entries[i];
        let event = match complete_unstake(&mut entry, user, now) {
            Ok(ev) => ev,
            Err(e) => {
                return Err(e);
            },
        };
        proof {
            lemma_by_user_update(self.entries@, i as int, entry);
            lemma_total_update(self.entries@, i as int, entry);
            lemma_total_nonneg(self.entries@.update(i as int, entry));
        }
        self.entries.set(i, entry);
        self.escrow = self.escrow - event.amount;
        Ok(event)
    }

    /// Reports `user`'s entry; fails with `NoStakeFound` where they have none.
    pub fn get_stake_info(&self, user: Address) -> (r: Result<StakeInfo, ErrorCode>)
        requires
            self.wf(),
        ensures
            !self@.contains_key(user) ==> r == Err::<StakeInfo, ErrorCode>(ErrorCode::NoStakeFound),
            self@.contains_key(user) ==> r == stake_info_spec(self@[user]),
    {
        match self.find(user) {
            Some(i) => get_stake_info(&self.entries[i]),
            None => Err(ErrorCode::NoStakeFound),
        }
    }
}

} // verus!
