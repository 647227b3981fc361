//! Configuration store and ledger state.
//!
//! `Ledger` is the persisted state: the immutable-after-init configuration,
//! the global ledger totals and the per-user records, one field per stored
//! scalar and one record per user. The `StateModule` trait is the
//! administrative surface over that storage: single-field setters and
//! read-only accessors.

use crate::token::{valid_token_id, TokenIdentifier};
use crate::FarmingError;
use crate::MAX_PERCENT;
use vstd::prelude::*;

verus! {

/// The ledger record of one user, keyed by the account identifier `addr`.
/// An account that never staked is represented by an all-zero record.
#[derive(Clone, Copy)]
pub struct UserEntry {
    /// The account this record belongs to.
    pub addr: u64,
    /// Currently staked amount.
    pub balance: u128,
    /// Reward credited but not yet claimed.
    pub pending_reward: u128,
    /// Snapshot of the reward-per-unit accumulator at the user's last sync.
    pub reward_per_wei_paid: u128,
    /// Block time of the user's most recent stake.
    pub last_stake_time: u64,
    /// Block time of the user's most recent successful claim.
    pub last_claim_time: u64,
}

/// The all-zero record of an account that never staked.
pub open spec fn zero_entry(addr: u64) -> UserEntry {
    UserEntry {
        addr,
        balance: 0,
        pending_reward: 0,
        reward_per_wei_paid: 0,
        last_stake_time: 0,
        last_claim_time: 0,
    }
}

/// The record stored for account `u`, or the all-zero record if none is
/// stored. Per-user state is created lazily, so absence means zero.
pub open spec fn lookup(s: Seq<UserEntry>, u: u64) -> UserEntry
    decreases s.len(),
{
    if s.len() == 0 {
        zero_entry(u)
    } else if s.last().addr == u {
        s.last()
    } else {
        lookup(s.drop_last(), u)
    }
}

/// The sum of all staked balances in the given records.
pub open spec fn sum_balances(s: Seq<UserEntry>) -> int
    decreases s.len(),
{
    if s.len() == 0 {
        0
    } else {
        sum_balances(s.drop_last()) + s.last().balance as int
    }
}

/// No two records belong to the same account.
pub open spec fn unique_addrs(s: Seq<UserEntry>) -> bool {
    forall|i: int, j: int| 0 <= i < j < s.len() ==> s[i].addr != s[j].addr
}

/// Configuration and ledger storage: one field per stored scalar, one record
/// per user.
pub struct Ledger {
    /// Identifier of the asset that users stake.
    pub farming_token_id: TokenIdentifier,
    /// Identifier of the asset paid out as reward.
    pub reward_token_id: TokenIdentifier,
    /// Minimum amount accepted per stake call.
    pub min_stake_limit: u128,
    /// Reward units minted per elapsed block, shared across the staked supply.
    pub reward_amount_per_block: u128,
    /// Minimum accrued reward required before a claim succeeds.
    pub min_claim_amount: u128,
    /// Minimum seconds between successive successful claims by one user.
    pub between_claim_timestamp: u64,
    /// Seconds after a stake within which unstaking incurs a penalty.
    pub early_unstake_period: u64,
    /// Early-unstake penalty in basis points, at most `MAX_PERCENT`.
    pub early_unstake_penalty: u64,
    /// Zero when live; stake, unstake and claim are rejected otherwise.
    pub paused: u32,
    /// Sum of all users' staked balances.
    pub total_supply: u128,
    /// Cumulative reward-per-staked-unit accumulator.
    pub reward_per_wei_stored: u128,
    /// Block time at which the accumulator was last advanced.
    pub last_update_time: u64,
    /// Per-user records, at most one per account.
    pub users: Vec<UserEntry>,
}

impl Ledger {
    /// Well-formedness of the stored records and totals.
    ///
    /// The conservation law is the second clause: `total_supply` always
    /// equals the sum of all per-user staked balances. Every operation of the
    /// reward engine preserves this invariant.
    pub open spec fn records_wf(self) -> bool {
        &&& unique_addrs(self.users@)
        &&& self.total_supply as int == sum_balances(self.users@)
        &&& forall|i: int|
            0 <= i < self.users@.len() ==> (#[trigger] self.users@[i]).reward_per_wei_paid
                <= self.reward_per_wei_stored
        &&& forall|i: int|
            0 <= i < self.users@.len() ==> (#[trigger] self.users@[i]).last_stake_time
                <= self.last_update_time
        &&& forall|i: int|
            0 <= i < self.users@.len() ==> (#[trigger] self.users@[i]).last_claim_time
                <= self.last_update_time
    }

    /// Well-formedness of the whole state: sound records and a validated
    /// configuration.
    pub open spec fn wf(self) -> bool {
        &&& self.records_wf()
        &&& self.early_unstake_penalty <= MAX_PERCENT
        &&& valid_token_id(self.farming_token_id@)
        &&& valid_token_id(self.reward_token_id@)
    }

    /// The configuration fields of `a` and `b` agree.
    pub open spec fn same_config(a: Ledger, b: Ledger) -> bool {
        &&& a.farming_token_id@ == b.farming_token_id@
        &&& a.reward_token_id@ == b.reward_token_id@
        &&& a.min_stake_limit == b.min_stake_limit
        &&& a.reward_amount_per_block == b.reward_amount_per_block
        &&& a.min_claim_amount == b.min_claim_amount
        &&& a.between_claim_timestamp == b.between_claim_timestamp
        &&& a.early_unstake_period == b.early_unstake_period
        &&& a.early_unstake_penalty == b.early_unstake_penalty
        &&& a.paused == b.paused
    }

    /// An empty, not yet initialized ledger: every scalar zero, no records.
    pub fn new() -> (r: Ledger)
        ensures
            r.records_wf(),
            r.farming_token_id@ == Seq::<u8>::empty(),
            r.reward_token_id@ == Seq::<u8>::empty(),
            r.min_stake_limit == 0,
            r.reward_amount_per_block == 0,
            r.min_claim_amount == 0,
            r.between_claim_timestamp == 0,
            r.early_unstake_period == 0,
            r.early_unstake_penalty == 0,
            r.paused == 0,
            r.total_supply == 0,
            r.reward_per_wei_stored == 0,
            r.last_update_time == 0,
            r.users@.len() == 0,
    {
        Ledger {
            farming_token_id: TokenIdentifier { bytes: Vec::new() },
            reward_token_id: TokenIdentifier { bytes: Vec::new() },
            min_stake_limit: 0,
            reward_amount_per_block: 0,
            min_claim_amount: 0,
            between_claim_timestamp: 0,
            early_unstake_period: 0,
            early_unstake_penalty: 0,
            paused: 0,
            total_supply: 0,
            reward_per_wei_stored: 0,
            last_update_time: 0,
            users: Vec::new(),
        }
    }
}

/// The administrative surface over the stored state: single-field setters
/// with no cross-field validation beyond identifier well-formedness, and
/// read-only accessors for every stored field.
pub trait StateModule: Sized {
    /// The stored configuration and ledger this component manages.
    spec fn ledger(&self) -> Ledger;

    /// Replaces the farming asset identifier; rejects an invalid one.
    fn set_farming_token_id(&mut self, farming_token_id: TokenIdentifier) -> (r: Result<
        (),
        FarmingError,
    >)
        requires
            old(self).ledger().wf(),
        ensures
            final(self).ledger().wf(),
            r is Ok <==> valid_token_id(farming_token_id@),
            r is Err ==> r == Err::<(), FarmingError>(FarmingError::InvalidAssetIdentifier)
                && final(self).ledger() == old(self).ledger(),
            r is Ok ==> final(self).ledger() == (Ledger {
                farming_token_id,
                ..old(self).ledger()
            }),
    ;

    /// Replaces the reward asset identifier; rejects an invalid one.
    fn set_reward_token_id(&mut self, reward_token_id: TokenIdentifier) -> (r: Result<
        (),
        FarmingError,
    >)
        requires
            old(self).ledger().wf(),
        ensures
            final(self).ledger().wf(),
            r is Ok <==> valid_token_id(reward_token_id@),
            r is Err ==> r == Err::<(), FarmingError>(FarmingError::InvalidAssetIdentifier)
                && final(self).ledger() == old(self).ledger(),
            r is Ok ==> final(self).ledger() == (Ledger {
                reward_token_id,
                ..old(self).ledger()
            }),
    ;

    /// Replaces the minimum stake amount.
    fn set_min_stake_limit(&mut self, min_stake_limit: u128)
        requires
            old(self).ledger().wf(),
        ensures
            final(self).ledger().wf(),
            final(self).ledger() == (Ledger { min_stake_limit, ..old(self).ledger() }),
    ;

    /// Replaces the per-block reward rate.
    fn set_reward_amount_per_block(&mut self, reward_amount_per_block: u128)
        requires
            old(self).ledger().wf(),
        ensures
            final(self).ledger().wf(),
            final(self).ledger() == (Ledger { reward_amount_per_block, ..old(self).ledger() }),
    ;

    /// Replaces the minimum claim amount.
    fn set_min_claim_amount(&mut self, min_claim_amount: u128)
        requires
            old(self).ledger().wf(),
        ensures
            final(self).ledger().wf(),
            final(self).ledger() == (Ledger { min_claim_amount, ..old(self).ledger() }),
    ;

    /// Replaces the claim cooldown, in seconds.
    fn set_between_claim_timestamp(&mut self, between_claim_timestamp: u64)
        requires
            old(self).ledger().wf(),
        ensures
            final(self).ledger().wf(),
            final(self).ledger() == (Ledger { between_claim_timestamp, ..old(self).ledger() }),
    ;

    /// Replaces the early-unstake window, in seconds.
    fn set_early_unstake_period(&mut self, early_unstake_period: u64)
        requires
            old(self).ledger().wf(),
        ensures
            final(self).ledger().wf(),
            final(self).ledger() == (Ledger { early_unstake_period, ..old(self).ledger() }),
    ;

    /// Replaces the early-unstake penalty, given in basis points.
    fn set_early_unstake_penalty(&mut self, early_unstake_penalty: u64)
        requires
            old(self).ledger().wf(),
            early_unstake_penalty <= MAX_PERCENT,
        ensures
            final(self).ledger().wf(),
            final(self).ledger() == (Ledger { early_unstake_penalty, ..old(self).ledger() }),
    ;

    /// Replaces the pause flag; zero means live.
    fn set_paused(&mut self, paused: u32)
        requires
            old(self).ledger().wf(),
        ensures
            final(self).ledger().wf(),
            final(self).ledger() == (Ledger { paused, ..old(self).ledger() }),
    ;

    /// The configured farming asset identifier.
    fn farming_token_id(&self) -> (r: &TokenIdentifier)
        ensures
            r == self.ledger().farming_token_id,
    ;

    /// The configured reward asset identifier.
    fn reward_token_id(&self) -> (r: &TokenIdentifier)
        ensures
            r == self.ledger().reward_token_id,
    ;

    /// The configured minimum stake amount.
    fn min_stake_limit(&self) -> (r: u128)
        ensures
            r == self.ledger().min_stake_limit,
    ;

    /// The configured minimum claim amount.
    fn min_claim_amount(&self) -> (r: u128)
        ensures
            r == self.ledger().min_claim_amount,
    ;

    /// The configured claim cooldown, in seconds.
    fn between_claim_timestamp(&self) -> (r: u64)
        ensures
            r == self.ledger().between_claim_timestamp,
    ;

    /// The configured early-unstake window, in seconds.
    fn early_unstake_period(&self) -> (r: u64)
        ensures
            r == self.ledger().early_unstake_period,
    ;

    /// The configured early-unstake penalty, in basis points.
    fn early_unstake_penalty(&self) -> (r: u64)
        ensures
            r == self.ledger().early_unstake_penalty,
    ;

    /// The pause flag; zero means live.
    fn paused(&self) -> (r: u32)
        ensures
            r == self.ledger().paused,
    ;

    /// The configured per-block reward rate.
    fn reward_amount_per_block(&self) -> (r: u128)
        ensures
            r == self.ledger().reward_amount_per_block,
    ;

    /// Block time at which the accumulator was last advanced.
    fn last_update_time(&self) -> (r: u64)
        ensures
            r == self.ledger().last_update_time,
    ;

    /// The cumulative reward-per-staked-unit accumulator.
    fn reward_per_wei_stored(&self) -> (r: u128)
        ensures
            r == self.ledger().reward_per_wei_stored,
    ;

    /// Sum of all users' staked balances.
    fn total_supply(&self) -> (r: u128)
        ensures
            r == self.ledger().total_supply,
    ;

    /// The accumulator snapshot taken at the user's last sync.
    fn user_reward_per_wei_paid(&self, user_address: u64) -> (r: u128)
        requires
            self.ledger().wf(),
        ensures
            r == lookup(self.ledger().users@, user_address).reward_per_wei_paid,
    ;

    /// The user's reward credited but not yet claimed.
    fn rewards(&self, user_address: u64) -> (r: u128)
        requires
            self.ledger().wf(),
        ensures
            r == lookup(self.ledger().users@, user_address).pending_reward,
    ;

    /// The user's currently staked amount.
    fn balances(&self, user_address: u64) -> (r: u128)
        requires
            self.ledger().wf(),
        ensures
            r == lookup(self.ledger().users@, user_address).balance,
    ;

    /// Block time of the user's most recent stake.
    fn last_stake_times(&self, user_address: u64) -> (r: u64)
        requires
            self.ledger().wf(),
        ensures
            r == lookup(self.ledger().users@, user_address).last_stake_time,
    ;

    /// Block time of the user's most recent successful claim.
    fn last_claim_times(&self, user_address: u64) -> (r: u64)
        requires
            self.ledger().wf(),
        ensures
            r == lookup(self.ledger().users@, user_address).last_claim_time,
    ;
}

impl StateModule for Ledger {
    open spec fn ledger(&self) -> Ledger {
        *self
    }

    fn set_farming_token_id(&mut self, farming_token_id: TokenIdentifier) -> (r: Result<
        (),
        FarmingError,
    >) {
        if !farming_token_id.is_valid_esdt_identifier() {
            return Err(FarmingError::InvalidAssetIdentifier);
        }
        self.farming_token_id = farming_token_id;
        Ok(())
    }

    fn set_reward_token_id(&mut self, reward_token_id: TokenIdentifier) -> (r: Result<
        (),
        FarmingError,
    >) {
        if !reward_token_id.is_valid_esdt_identifier() {
            return Err(FarmingError::InvalidAssetIdentifier);
        }
        self.reward_token_id = reward_token_id;
        Ok(())
    }

    fn set_min_stake_limit(&mut self, min_stake_limit: u128) {
        self.min_stake_limit = min_stake_limit;
    }

    fn set_reward_amount_per_block(&mut self, reward_amount_per_block: u128) {
        self.reward_amount_per_block = reward_amount_per_block;
    }

    fn set_min_claim_amount(&mut self, min_claim_amount: u128) {
        self.min_claim_amount = min_claim_amount;
    }

    fn set_between_claim_timestamp(&mut self, between_claim_timestamp: u64) {
        self.between_claim_timestamp = between_claim_timestamp;
    }

    fn set_early_unstake_period(&mut self, early_unstake_period: u64) {
        self.early_unstake_period = early_unstake_period;
    }

    fn set_early_unstake_penalty(&mut self, early_unstake_penalty: u64) {
        self.early_unstake_penalty = early_unstake_penalty;
    }

    fn set_paused(&mut self, paused: u32) {
        self.paused = paused;
    }

    fn farming_token_id(&self) -> (r: &TokenIdentifier) {
        &self.farming_token_id
    }

    fn reward_token_id(&self) -> (r: &TokenIdentifier) {
        &self.reward_token_id
    }

    fn min_stake_limit(&self) -> (r: u128) {
        self.min_stake_limit
    }

    fn min_claim_amount(&self) -> (r: u128) {
        self.min_claim_amount
    }

    fn between_claim_timestamp(&self) -> (r: u64) {
        self.between_claim_timestamp
    }

    fn early_unstake_period(&self) -> (r: u64) {
        self.early_unstake_period
    }

    fn early_unstake_penalty(&self) -> (r: u64) {
        self.early_unstake_penalty
    }

    fn paused(&self) -> (r: u32) {
        self.paused
    }

    fn reward_amount_per_block(&self) -> (r: u128) {
        self.reward_amount_per_block
    }

    fn last_update_time(&self) -> (r: u64) {
        self.last_update_time
    }

    fn reward_per_wei_stored(&self) -> (r: u128) {
        self.reward_per_wei_stored
    }

    fn total_supply(&self) -> (r: u128) {
        self.total_supply
    }

    fn user_reward_per_wei_paid(&self, user_address: u64) -> (r: u128) {
        match self.find_user(user_address) {
            Some(i) => {
                proof {
                    lemma_lookup_found(self.users@, user_address, i as int);
                }
                self.users[i].reward_per_wei_paid
            },
            None => {
                proof {
                    lemma_lookup_absent(self.users@, user_address);
                }
                0
            },
        }
    }

    fn rewards(&self, user_address: u64) -> (r: u128) {
        match self.find_user(user_address) {
            Some(i) => {
                proof {
                    lemma_lookup_found(self.users@, user_address, i as int);
                }
                self.users[i].pending_reward
            },
            None => {
                proof {
                    lemma_lookup_absent(self.users@, user_address);
                }
                0
            },
        }
    }

    fn balances(&self, user_address: u64) -> (r: u128) {
        match self.find_user(user_address) {
            Some(i) => {
                proof {
                    lemma_lookup_found(self.users@, user_address, i as int);
                }
                self.users[i].balance
            },
            None => {
                proof {
                    lemma_lookup_absent(self.users@, user_address);
                }
                0
            },
        }
    }

    fn last_stake_times(&self, user_address: u64) -> (r: u64) {
        match self.find_user(user_address) {
            Some(i) => {
                proof {
                    lemma_lookup_found(self.users@, user_address, i as int);
                }
                self.users[i].last_stake_time
            },
            None => {
                proof {
                    lemma_lookup_absent(self.users@, user_address);
                }
                0
            },
        }
    }

    fn last_claim_times(&self, user_address: u64) -> (r: u64) {
        match self.find_user(user_address) {
            Some(i) => {
                proof {
                    lemma_lookup_found(self.users@, user_address, i as int);
                }
                self.users[i].last_claim_time
            },
            None => {
                proof {
                    lemma_lookup_absent(self.users@, user_address);
                }
                0
            },
        }
    }
}

/// The stored record's key is the account it was looked up for.
pub proof fn lemma_lookup_addr(s: Seq<UserEntry>, u: u64)
    ensures
        lookup(s, u).addr == u,
    decreases s.len(),
{
    if s.len() > 0 && s.last().addr != u {
        lemma_lookup_addr(s.drop_last(), u);
    }
}

/// With unique keys, `lookup` returns the record stored at the key's index.
pub proof fn lemma_lookup_found(s: Seq<UserEntry>, u: u64, i: int)
    requires
        unique_addrs(s),
        0 <= i < s.len(),
        s[i].addr == u,
    ensures
        lookup(s, u) == s[i],
    decreases s.len(),
{
    if i < s.len() - 1 {
        assert(s.last().addr != u);
        assert(unique_addrs(s.drop_last()));
        lemma_lookup_found(s.drop_last(), u, i);
    }
}

/// When no record has the key, `lookup` returns the all-zero record.
pub proof fn lemma_lookup_absent(s: Seq<UserEntry>, u: u64)
    requires
        forall|j: int| 0 <= j < s.len() ==> (#[trigger] s[j]).addr != u,
    ensures
        lookup(s, u) == zero_entry(u),
    decreases s.len(),
{
    if s.len() > 0 {
        lemma_lookup_absent(s.drop_last(), u);
    }
}

/// The balance sum is non-negative.
pub proof fn lemma_sum_nonneg(s: Seq<UserEntry>)
    ensures
        sum_balances(s) >= 0,
    decreases s.len(),
{
    if s.len() > 0 {
        lemma_sum_nonneg(s.drop_last());
    }
}

/// Appending a record adds its balance to the sum.
pub proof fn lemma_sum_push(s: Seq<UserEntry>, e: UserEntry)
    ensures
        sum_balances(s.push(e)) == sum_balances(s) + e.balance as int,
{
    assert(s.push(e).drop_last() =~= s);
    assert(s.push(e).last() == e);
}

/// Replacing one record changes the sum by the difference of the balances.
pub proof fn lemma_sum_update(s: Seq<UserEntry>, i: int, e: UserEntry)
    requires
        0 <= i < s.len(),
    ensures
        sum_balances(s.update(i, e)) == sum_balances(s) - s[i].balance as int + e.balance as int,
    decreases s.len(),
{
    let t = s.update(i, e);
    if i == s.len() - 1 {
        assert(t.drop_last() =~= s.drop_last());
        assert(t.last() == e);
    } else {
        assert(t.drop_last() =~= s.drop_last().update(i, e));
        assert(t.last() == s.last());
        lemma_sum_update(s.drop_last(), i, e);
    }
}

/// Each balance is at most the sum of all balances.
pub proof fn lemma_element_le_sum(s: Seq<UserEntry>, i: int)
    requires
        0 <= i < s.len(),
    ensures
        s[i].balance as int <= sum_balances(s),
    decreases s.len(),
{
    if i == s.len() - 1 {
        lemma_sum_nonneg(s.drop_last());
    } else {
        lemma_element_le_sum(s.drop_last(), i);
    }
}

/// Replacing a record by one with the same key keeps the keys unique.
pub proof fn lemma_unique_update(s: Seq<UserEntry>, i: int, e: UserEntry)
    requires
        unique_addrs(s),
        0 <= i < s.len(),
        e.addr == s[i].addr,
    ensures
        unique_addrs(s.update(i, e)),
{
}

/// Replacing a record by one with the same key updates exactly that key's
/// lookup and leaves every other account's record unchanged.
pub proof fn lemma_lookup_update(s: Seq<UserEntry>, i: int, e: UserEntry)
    requires
        unique_addrs(s),
        0 <= i < s.len(),
        e.addr == s[i].addr,
    ensures
        lookup(s.update(i, e), e.addr) == e,
        forall|u: u64| u != e.addr ==> lookup(s.update(i, e), u) == lookup(s, u),
{
    let t = s.update(i, e);
    lemma_unique_update(s, i, e);
    lemma_lookup_found(t, e.addr, i);
    assert forall|u: u64| u != e.addr implies lookup(t, u) == lookup(s, u) by {
        if exists|j: int| 0 <= j < s.len() && (#[trigger] s[j]).addr == u {
            let j = choose|j: int| 0 <= j < s.len() && (#[trigger] s[j]).addr == u;
            assert(t[j].addr == u);
            lemma_lookup_found(s, u, j);
            lemma_lookup_found(t, u, j);
        } else {
            assert(forall|j: int| 0 <= j < t.len() ==> (#[trigger] t[j]).addr != u);
            lemma_lookup_absent(s, u);
            lemma_lookup_absent(t, u);
        }
    }
}

impl Ledger {
    /// Index of the record stored for the account, if any.
    fn find_user(&self, user_address: u64) -> (r: Option<usize>)
        ensures
            match r {
                Some(i) => i < self.users@.len() && self.users@[i as int].addr == user_address,
                None => forall|j: int|
                    0 <= j < self.users@.len() ==> (#[trigger] self.users@[j]).addr
                        != user_address,
            },
    {
        let mut i: usize = 0;
        while i < self.users.len()
            invariant
                i <= self.users@.len(),
                forall|j: int| 0 <= j < i ==> (#[trigger] self.users@[j]).addr != user_address,
            decreases self.users@.len() - i,
        {
            if self.users[i].addr == user_address {
                return Some(i);
            }
            i = i + 1;
        }
        None
    }

    /// Index of the account's record, creating the all-zero record first if
    /// the account was never seen. The ledger's contents are unchanged.
    pub(crate) fn ensure_user(&mut self, user_address: u64) -> (i: usize)
        requires
            old(self).wf(),
        ensures
            final(self).wf(),
            Ledger::same_config(*final(self), *old(self)),
            final(self).total_supply == old(self).total_supply,
            final(self).reward_per_wei_stored == old(self).reward_per_wei_stored,
            final(self).last_update_time == old(self).last_update_time,
            i < final(self).users@.len(),
            final(self).users@[i as int] == lookup(old(self).users@, user_address),
            final(self).users@[i as int].addr == user_address,
            forall|u: u64| lookup(final(self).users@, u) == lookup(old(self).users@, u),
            sum_balances(final(self).users@) == sum_balances(old(self).users@),
    {
        proof {
            lemma_lookup_addr(self.users@, user_address);
        }
        match self.find_user(user_address) {
            Some(i) => {
                proof {
                    lemma_lookup_found(self.users@, user_address, i as int);
                }
                i
            },
            None => {
                let i = self.users.len();
                let ghost s = self.users@;
                proof {
                    lemma_lookup_absent(s, user_address);
                }
                self.users.push(
                    UserEntry {
                        addr: user_address,
                        balance: 0,
                        pending_reward: 0,
                        reward_per_wei_paid: 0,
                        last_stake_time: 0,
                        last_claim_time: 0,
                    },
                );
                proof {
                    let t = self.users@;
                    lemma_sum_push(s, zero_entry(user_address));
                    assert(t.last() == zero_entry(user_address));
                    assert(t.drop_last() =~= s);
                    assert forall|u: u64| lookup(t, u) == lookup(s, u) by {
                        if u == user_address {
                            assert(lookup(t, u) == zero_entry(user_address));
                        }
                    }
                }
                i
            },
        }
    }
}

} // verus!
