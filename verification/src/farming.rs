//! The reward engine: accrual synchronization, stake, unstake and claim.
//!
//! Every state-changing operation first synchronizes the global and per-user
//! reward accounting to the current block time, then applies the requested
//! mutation. Each operation is all-or-nothing: a rejected operation leaves
//! the ledger exactly as it was.
//!
//! The hosting environment supplies the caller identity, the block time and
//! the contract's custodied balances as plain arguments, and executes the
//! transfers whose amounts the engine returns.

use crate::state::{
    lemma_element_le_sum, lemma_lookup_addr, lemma_lookup_update, lemma_sum_update,
    lemma_unique_update, lookup, zero_entry, Ledger, StateModule, UserEntry,
};
use crate::token::{valid_token_id, TokenIdentifier};
use crate::FarmingError;
use crate::BLOCK_TIMES;
use crate::MAX_PERCENT;
use vstd::arithmetic::div_mod::{
    lemma_div_is_ordered, lemma_div_multiples_vanish, lemma_div_nonincreasing,
    lemma_div_pos_is_pos, lemma_fundamental_div_mod, lemma_mod_bound,
};
use vstd::arithmetic::mul::{lemma_mul_inequality, lemma_mul_is_commutative, lemma_mul_nonnegative};
use vstd::prelude::*;

verus! {

/// Whole blocks elapsed between the last accumulator update and `now`.
pub open spec fn blocks_elapsed(last_update: int, now: int) -> int {
    (now - last_update) / (BLOCK_TIMES as int)
}

/// The reward-per-unit accumulator brought forward to `now`: frozen while
/// nothing is staked, otherwise advanced by the whole elapsed blocks times
/// the per-block rate.
pub open spec fn rpu_at(s: Ledger, now: int) -> int {
    if s.total_supply == 0 {
        s.reward_per_wei_stored as int
    } else {
        s.reward_per_wei_stored + blocks_elapsed(s.last_update_time as int, now)
            * s.reward_amount_per_block
    }
}

/// The user's reward after a synchronization at `now`: the accumulator
/// growth since the user's last snapshot, scaled by the user's share of the
/// staked supply (floor division, dust in favor of the contract), plus the
/// reward already credited. Zero while nothing is staked.
pub open spec fn earned_at(s: Ledger, u: u64, now: int) -> int {
    if s.total_supply == 0 {
        0
    } else {
        let e = lookup(s.users@, u);
        (rpu_at(s, now) - e.reward_per_wei_paid) * e.balance / (s.total_supply as int)
            + e.pending_reward
    }
}

/// The intermediate values of a synchronization at `now` fit the ledger's
/// machine words.
pub open spec fn sync_fits(s: Ledger, u: u64, now: int) -> bool {
    &&& rpu_at(s, now) <= u128::MAX
    &&& (s.total_supply > 0 ==> (rpu_at(s, now) - lookup(s.users@, u).reward_per_wei_paid)
        * lookup(s.users@, u).balance <= u128::MAX)
    &&& earned_at(s, u, now) <= u128::MAX
}

/// The ledger has just been synchronized for account `u` at time `now`.
pub open spec fn synced(s: Ledger, u: u64, now: int) -> bool {
    &&& s.last_update_time == now
    &&& lookup(s.users@, u).reward_per_wei_paid == s.reward_per_wei_stored
    &&& (s.total_supply == 0 ==> lookup(s.users@, u).pending_reward == 0)
}

/// The amount an unstake call asks for: the explicit amount, or the caller's
/// full staked balance when none is given.
pub open spec fn requested_amount(s: Ledger, caller: u64, opt_unstake_amount: Option<u128>) -> int {
    match opt_unstake_amount {
        Some(v) => v as int,
        None => lookup(s.users@, caller).balance as int,
    }
}

/// Whether unstaking at `now` falls inside the caller's early-unstake
/// window. The boundary instant itself is not penalized: the check is a
/// strict comparison.
pub open spec fn penalized(s: Ledger, caller: u64, now: int) -> bool {
    lookup(s.users@, caller).last_stake_time + s.early_unstake_period > now
}

/// The amount paid out by an unstake at `now`: the requested amount, less
/// the basis-point penalty (floor) if the call falls inside the early
/// window. The ledger is always reduced by the full requested amount; only
/// the transfer is reduced.
pub open spec fn payout_amount(s: Ledger, caller: u64, now: int, opt_unstake_amount: Option<
    u128,
>) -> int {
    let amt = requested_amount(s, caller, opt_unstake_amount);
    if penalized(s, caller, now) {
        amt - (amt * s.early_unstake_penalty) / (MAX_PERCENT as int)
    } else {
        amt
    }
}

/// The outcome a stake call must have, including which error it reports.
pub open spec fn stake_outcome(s: Ledger, payment_token: Seq<u8>, stake_amount: u128) -> Result<
    (),
    FarmingError,
> {
    if s.paused != 0 {
        Err(FarmingError::ContractPaused)
    } else if payment_token != s.farming_token_id@ {
        Err(FarmingError::WrongAsset)
    } else if stake_amount < s.min_stake_limit {
        Err(FarmingError::BelowMinimumStake)
    } else {
        Ok(())
    }
}

/// A stake call passes every validation check.
pub open spec fn stake_allowed(s: Ledger, payment_token: Seq<u8>, stake_amount: u128) -> bool {
    stake_outcome(s, payment_token, stake_amount) is Ok
}

/// An unstake call passes the checks made before the payout is computed.
pub open spec fn unstake_precheck(s: Ledger, caller: u64, opt_unstake_amount: Option<
    u128,
>) -> bool {
    &&& s.paused == 0
    &&& lookup(s.users@, caller).balance > 0
    &&& requested_amount(s, caller, opt_unstake_amount) <= lookup(s.users@, caller).balance
}

/// The outcome an unstake call must have, including which error it reports.
pub open spec fn unstake_outcome(
    s: Ledger,
    caller: u64,
    opt_unstake_amount: Option<u128>,
    sc_farming_balance: u128,
    now: int,
) -> Result<u128, FarmingError> {
    let bal = lookup(s.users@, caller).balance as int;
    if s.paused != 0 {
        Err(FarmingError::ContractPaused)
    } else if bal == 0 {
        Err(FarmingError::ZeroBalance)
    } else if requested_amount(s, caller, opt_unstake_amount) > bal {
        Err(FarmingError::AmountExceedsBalance)
    } else if (sc_farming_balance as int) < payout_amount(s, caller, now, opt_unstake_amount) {
        Err(FarmingError::InsufficientContractLiquidity)
    } else {
        Ok(payout_amount(s, caller, now, opt_unstake_amount) as u128)
    }
}

/// The outcome a claim call must have, including which error it reports.
/// The reward compared against the thresholds is the amount the caller
/// would hold right after a synchronization at `now`. The cooldown check is
/// strict: a claim at exactly the cooldown boundary is rejected.
pub open spec fn claim_outcome(s: Ledger, caller: u64, sc_reward_balance: u128, now: int) -> Result<
    u128,
    FarmingError,
> {
    let reward = earned_at(s, caller, now);
    if s.paused != 0 {
        Err(FarmingError::ContractPaused)
    } else if reward <= s.min_claim_amount {
        Err(FarmingError::BelowMinimumClaim)
    } else if lookup(s.users@, caller).last_claim_time + s.between_claim_timestamp >= now {
        Err(FarmingError::ClaimCooldownActive)
    } else if (sc_reward_balance as int) < reward {
        Err(FarmingError::InsufficientContractLiquidity)
    } else {
        Ok(reward as u128)
    }
}

/// Monotonic accrual: brought forward to any `now` not before the last
/// update, the reward-per-unit accumulator never decreases; and while
/// nothing is staked it is frozen exactly.
pub proof fn lemma_rpu_monotone(s: Ledger, now: int)
    requires
        now >= s.last_update_time,
    ensures
        rpu_at(s, now) >= s.reward_per_wei_stored,
        s.total_supply == 0 ==> rpu_at(s, now) == s.reward_per_wei_stored,
{
    if s.total_supply != 0 {
        lemma_div_pos_is_pos(now - s.last_update_time, BLOCK_TIMES as int);
        lemma_mul_nonnegative(
            blocks_elapsed(s.last_update_time as int, now),
            s.reward_amount_per_block as int,
        );
    }
}

/// Accrual idempotence: on a ledger that has just been synchronized for
/// account `u` at `now`, a second synchronization at the same instant
/// recomputes the very same accumulator and the very same credited reward,
/// so the stored `pending_reward`, `reward_per_wei_stored` and every balance
/// are left unchanged by it.
pub proof fn lemma_sync_idempotent(s: Ledger, u: u64, now: int)
    requires
        synced(s, u, now),
    ensures
        rpu_at(s, now) == s.reward_per_wei_stored,
        earned_at(s, u, now) == lookup(s.users@, u).pending_reward,
{
    if s.total_supply != 0 {
        let e = lookup(s.users@, u);
        assert(blocks_elapsed(s.last_update_time as int, now) == 0) by {
            assert((now - now) / (BLOCK_TIMES as int) == 0) by (nonlinear_arith);
        }
        assert(rpu_at(s, now) == s.reward_per_wei_stored);
        assert((rpu_at(s, now) - e.reward_per_wei_paid) * e.balance == 0);
        assert(0int / (s.total_supply as int) == 0) by (nonlinear_arith)
            requires
                s.total_supply > 0,
        ;
    }
}

/// No double-count: immediately after a synchronization for account `u` at
/// `now`, the amount the `earned` view reports equals the user's stored
/// `pending_reward`.
pub proof fn lemma_earned_matches_pending(s: Ledger, u: u64, now: int)
    requires
        synced(s, u, now),
    ensures
        earned_at(s, u, now) == lookup(s.users@, u).pending_reward,
{
    lemma_sync_idempotent(s, u, now);
}

/// Dust stays with the contract: when two stakers hold the whole staked
/// supply, the floor-divided shares of any accrued reward sum to at most
/// that reward.
pub proof fn lemma_shares_do_not_exceed_reward(reward: int, bal_a: int, bal_b: int, total: int)
    requires
        total > 0,
        bal_a >= 0,
        bal_b >= 0,
        reward >= 0,
        bal_a + bal_b == total,
    ensures
        reward * bal_a / total + reward * bal_b / total <= reward,
{
    let qa = reward * bal_a / total;
    let qb = reward * bal_b / total;
    lemma_mul_nonnegative(reward, bal_a);
    lemma_mul_nonnegative(reward, bal_b);
    lemma_fundamental_div_mod(reward * bal_a, total);
    lemma_fundamental_div_mod(reward * bal_b, total);
    lemma_mod_bound(reward * bal_a, total);
    lemma_mod_bound(reward * bal_b, total);
    assert(total * qa + total * qb <= reward * bal_a + reward * bal_b);
    assert(reward * bal_a + reward * bal_b == reward * total) by (nonlinear_arith)
        requires
            bal_a + bal_b == total,
    ;
    assert(qa + qb <= reward) by (nonlinear_arith)
        requires
            total > 0,
            total * qa + total * qb <= reward * total,
    ;
}

/// What well-formedness gives for a single account's record.
proof fn lemma_wf_lookup(s: Ledger, u: u64)
    requires
        s.wf(),
    ensures
        lookup(s.users@, u).addr == u,
        lookup(s.users@, u).reward_per_wei_paid <= s.reward_per_wei_stored,
        lookup(s.users@, u).last_stake_time <= s.last_update_time,
        lookup(s.users@, u).last_claim_time <= s.last_update_time,
        lookup(s.users@, u).balance <= s.total_supply,
{
    lemma_lookup_addr(s.users@, u);
    lemma_lookup_entry_props(s.users@, u);
    let e = lookup(s.users@, u);
    if exists|i: int| 0 <= i < s.users@.len() && s.users@[i] == e {
        let i = choose|i: int| 0 <= i < s.users@.len() && s.users@[i] == e;
        lemma_element_le_sum(s.users@, i);
    }
}

/// A looked-up record is either stored in the ledger or all-zero.
proof fn lemma_lookup_entry_props(s: Seq<UserEntry>, u: u64)
    ensures
        lookup(s, u) == zero_entry(u) || exists|i: int| 0 <= i < s.len() && s[i] == lookup(s, u),
    decreases s.len(),
{
    if s.len() > 0 {
        if s.last().addr == u {
            assert(s[s.len() - 1] == lookup(s, u));
        } else {
            lemma_lookup_entry_props(s.drop_last(), u);
            if lookup(s, u) != zero_entry(u) {
                let i = choose|i: int|
                    0 <= i < s.drop_last().len() && s.drop_last()[i] == lookup(s.drop_last(), u);
                assert(s[i] == lookup(s, u));
            }
        }
    }
}

/// The reward engine over the stored state: contract initialization, the
/// three state-changing operations and the read-only views.
pub trait Farming: StateModule {
    /// Initializes the contract: validates and stores the configuration and
    /// sets the contract live. The two asset identifiers must be distinct;
    /// an invalid one is rejected and nothing is stored.
    fn init(
        &mut self,
        farming_token_id: TokenIdentifier,
        reward_token_id: TokenIdentifier,
        min_stake_limit: u128,
        reward_amount_per_block: u128,
        min_claim_amount: u128,
        between_claim_timestamp: u64,
        early_unstake_period: u64,
        early_unstake_penalty: u64,
    ) -> (r: Result<(), FarmingError>)
        requires
            early_unstake_penalty <= MAX_PERCENT,
            farming_token_id@ != reward_token_id@,
        ensures
            r is Ok <==> valid_token_id(farming_token_id@) && valid_token_id(reward_token_id@),
            r is Err ==> r == Err::<(), FarmingError>(FarmingError::InvalidAssetIdentifier)
                && final(self).ledger() == old(self).ledger(),
            r is Ok ==> final(self).ledger() == (Ledger {
                farming_token_id,
                reward_token_id,
                min_stake_limit,
                reward_amount_per_block,
                min_claim_amount,
                between_claim_timestamp,
                early_unstake_period,
                early_unstake_penalty,
                paused: 0,
                ..old(self).ledger()
            }),
            r is Ok && old(self).ledger().records_wf() ==> final(self).ledger().wf(),
    ;

    /// Rejects the operation while the contract is paused.
    fn require_activation(&self) -> (r: Result<(), FarmingError>)
        ensures
            r is Ok <==> self.ledger().paused == 0,
            r is Err ==> r == Err::<(), FarmingError>(FarmingError::ContractPaused),
    ;

    /// Checks the claim thresholds against the user's stored record: the
    /// credited reward must strictly exceed the minimum claim amount, and
    /// the cooldown since the last successful claim must have strictly
    /// elapsed — a claim at the exact boundary instant is rejected.
    fn require_claim_activation(&self, user_address: u64, now: u64) -> (r: Result<
        (),
        FarmingError,
    >)
        requires
            self.ledger().wf(),
            now >= self.ledger().last_update_time,
        ensures
            r is Ok <==> lookup(self.ledger().users@, user_address).pending_reward > self.ledger()
                .min_claim_amount && lookup(self.ledger().users@, user_address).last_claim_time
                + self.ledger().between_claim_timestamp < now,
            r == Err::<(), FarmingError>(FarmingError::BelowMinimumClaim) <==> lookup(
                self.ledger().users@,
                user_address,
            ).pending_reward <= self.ledger().min_claim_amount,
            r == Err::<(), FarmingError>(FarmingError::ClaimCooldownActive) <==> lookup(
                self.ledger().users@,
                user_address,
            ).pending_reward > self.ledger().min_claim_amount && lookup(
                self.ledger().users@,
                user_address,
            ).last_claim_time + self.ledger().between_claim_timestamp >= now,
    ;

    /// Synchronizes the global accumulator and the user's credited reward to
    /// `now`: the accumulator is brought forward and stored, and the user's
    /// newly accrued share is folded into `pending_reward` with a fresh
    /// snapshot. Balances, totals and configuration are untouched.
    fn update_reward(&mut self, user_address: u64, now: u64)
        requires
            old(self).ledger().wf(),
            now >= old(self).ledger().last_update_time,
            sync_fits(old(self).ledger(), user_address, now as int),
        ensures
            final(self).ledger().wf(),
            Ledger::same_config(final(self).ledger(), old(self).ledger()),
            final(self).ledger().total_supply == old(self).ledger().total_supply,
            final(self).ledger().reward_per_wei_stored as int == rpu_at(
                old(self).ledger(),
                now as int,
            ),
            final(self).ledger().last_update_time == now,
            lookup(final(self).ledger().users@, user_address) == (UserEntry {
                pending_reward: earned_at(old(self).ledger(), user_address, now as int) as u128,
                reward_per_wei_paid: rpu_at(old(self).ledger(), now as int) as u128,
                ..lookup(old(self).ledger().users@, user_address)
            }),
            forall|x: u64|
                x != user_address ==> lookup(final(self).ledger().users@, x) == lookup(
                    old(self).ledger().users@,
                    x,
                ),
            final(self).ledger().reward_per_wei_stored >= old(self).ledger().reward_per_wei_stored,
            old(self).ledger().total_supply == 0 ==> final(self).ledger().reward_per_wei_stored
                == old(self).ledger().reward_per_wei_stored,
            synced(final(self).ledger(), user_address, now as int),
    ;

    /// Accepts a deposit of the farming asset: synchronizes the reward
    /// accounting, then adds the amount to the caller's balance and to the
    /// total supply and restarts the caller's early-unstake window. The
    /// deposit is assumed already escrowed with the call; a rejected stake
    /// changes nothing.
    fn stake_farm(
        &mut self,
        caller: u64,
        now: u64,
        payment_token: &TokenIdentifier,
        stake_amount: u128,
    ) -> (r: Result<(), FarmingError>)
        requires
            old(self).ledger().wf(),
            now >= old(self).ledger().last_update_time,
            stake_allowed(old(self).ledger(), payment_token@, stake_amount) ==> sync_fits(
                old(self).ledger(),
                caller,
                now as int,
            ) && old(self).ledger().total_supply + stake_amount <= u128::MAX,
        ensures
            r == stake_outcome(old(self).ledger(), payment_token@, stake_amount),
            r is Err ==> final(self).ledger() == old(self).ledger(),
            r is Ok ==> final(self).ledger().wf(),
            r is Ok ==> Ledger::same_config(final(self).ledger(), old(self).ledger()),
            r is Ok ==> final(self).ledger().total_supply == old(self).ledger().total_supply
                + stake_amount,
            r is Ok ==> final(self).ledger().reward_per_wei_stored as int == rpu_at(
                old(self).ledger(),
                now as int,
            ),
            r is Ok ==> final(self).ledger().last_update_time == now,
            r is Ok ==> lookup(final(self).ledger().users@, caller) == (UserEntry {
                balance: (lookup(old(self).ledger().users@, caller).balance + stake_amount) as u128,
                pending_reward: earned_at(old(self).ledger(), caller, now as int) as u128,
                reward_per_wei_paid: rpu_at(old(self).ledger(), now as int) as u128,
                last_stake_time: now,
                ..lookup(old(self).ledger().users@, caller)
            }),
            r is Ok ==> forall|x: u64|
                x != caller ==> lookup(final(self).ledger().users@, x) == lookup(
                    old(self).ledger().users@,
                    x,
                ),
            final(self).ledger().reward_per_wei_stored >= old(self).ledger().reward_per_wei_stored,
    ;

    /// Withdraws staked balance: synchronizes the reward accounting, reduces
    /// the caller's balance and the total supply by the full requested
    /// amount (the caller's whole balance when none is given), and returns
    /// the payout to transfer — the requested amount less the basis-point
    /// penalty if the call falls inside the early-unstake window. A rejected
    /// unstake, including one the contract cannot pay out, changes nothing.
    fn unstake_farm(
        &mut self,
        caller: u64,
        now: u64,
        opt_unstake_amount: Option<u128>,
        sc_farming_balance: u128,
    ) -> (r: Result<u128, FarmingError>)
        requires
            old(self).ledger().wf(),
            now >= old(self).ledger().last_update_time,
            unstake_precheck(old(self).ledger(), caller, opt_unstake_amount) ==> sync_fits(
                old(self).ledger(),
                caller,
                now as int,
            ) && requested_amount(old(self).ledger(), caller, opt_unstake_amount) * old(
                self,
            ).ledger().early_unstake_penalty <= u128::MAX,
        ensures
            r == unstake_outcome(
                old(self).ledger(),
                caller,
                opt_unstake_amount,
                sc_farming_balance,
                now as int,
            ),
            r is Err ==> final(self).ledger() == old(self).ledger(),
            r is Ok ==> final(self).ledger().wf(),
            r is Ok ==> Ledger::same_config(final(self).ledger(), old(self).ledger()),
            r is Ok ==> final(self).ledger().total_supply == old(self).ledger().total_supply
                - requested_amount(old(self).ledger(), caller, opt_unstake_amount),
            r is Ok ==> final(self).ledger().reward_per_wei_stored as int == rpu_at(
                old(self).ledger(),
                now as int,
            ),
            r is Ok ==> final(self).ledger().last_update_time == now,
            r is Ok ==> lookup(final(self).ledger().users@, caller) == (UserEntry {
                balance: (lookup(old(self).ledger().users@, caller).balance - requested_amount(
                    old(self).ledger(),
                    caller,
                    opt_unstake_amount,
                )) as u128,
                pending_reward: earned_at(old(self).ledger(), caller, now as int) as u128,
                reward_per_wei_paid: rpu_at(old(self).ledger(), now as int) as u128,
                ..lookup(old(self).ledger().users@, caller)
            }),
            r is Ok ==> forall|x: u64|
                x != caller ==> lookup(final(self).ledger().users@, x) == lookup(
                    old(self).ledger().users@,
                    x,
                ),
            r is Ok ==> final(self).ledger().reward_per_wei_stored >= old(
                self,
            ).ledger().reward_per_wei_stored,
    ;

    /// Pays out the caller's accrued reward: synchronizes the reward
    /// accounting, requires the credited reward to strictly exceed the
    /// minimum claim amount and the claim cooldown to have strictly elapsed,
    /// then zeroes the credited reward, records the claim time and returns
    /// the amount to transfer. A rejected claim, including one the contract
    /// cannot pay out, changes nothing.
    fn claim_reward(&mut self, caller: u64, now: u64, sc_reward_balance: u128) -> (r: Result<
        u128,
        FarmingError,
    >)
        requires
            old(self).ledger().wf(),
            now >= old(self).ledger().last_update_time,
            old(self).ledger().paused == 0 ==> sync_fits(old(self).ledger(), caller, now as int),
        ensures
            r == claim_outcome(old(self).ledger(), caller, sc_reward_balance, now as int),
            r is Err ==> final(self).ledger() == old(self).ledger(),
            r is Ok ==> final(self).ledger().wf(),
            r is Ok ==> Ledger::same_config(final(self).ledger(), old(self).ledger()),
            r is Ok ==> final(self).ledger().total_supply == old(self).ledger().total_supply,
            r is Ok ==> final(self).ledger().reward_per_wei_stored as int == rpu_at(
                old(self).ledger(),
                now as int,
            ),
            r is Ok ==> final(self).ledger().last_update_time == now,
            r is Ok ==> lookup(final(self).ledger().users@, caller) == (UserEntry {
                pending_reward: 0,
                reward_per_wei_paid: rpu_at(old(self).ledger(), now as int) as u128,
                last_claim_time: now,
                ..lookup(old(self).ledger().users@, caller)
            }),
            r is Ok ==> forall|x: u64|
                x != caller ==> lookup(final(self).ledger().users@, x) == lookup(
                    old(self).ledger().users@,
                    x,
                ),
            r is Ok ==> final(self).ledger().reward_per_wei_stored >= old(
                self,
            ).ledger().reward_per_wei_stored,
    ;

    /// The reward-per-unit accumulator brought forward to `now`, without
    /// touching the ledger.
    fn get_reward_per_wei(&self, now: u64) -> (r: u128)
        requires
            now >= self.ledger().last_update_time,
            rpu_at(self.ledger(), now as int) <= u128::MAX,
        ensures
            r as int == rpu_at(self.ledger(), now as int),
    ;

    /// The reward account `user_address` would hold right after a
    /// synchronization at `now`, without touching the ledger.
    fn get_earned(&self, user_address: u64, now: u64) -> (r: u128)
        requires
            self.ledger().wf(),
            now >= self.ledger().last_update_time,
            sync_fits(self.ledger(), user_address, now as int),
        ensures
            r as int == earned_at(self.ledger(), user_address, now as int),
    ;

    /// The user's staked share of the total supply, in basis points. `None`
    /// while nothing is staked, since the share is then undefined.
    fn get_reward_apr(&self, user_address: u64) -> (r: Option<u128>)
        requires
            self.ledger().wf(),
            self.ledger().total_supply > 0 ==> (MAX_PERCENT as int) * lookup(
                self.ledger().users@,
                user_address,
            ).balance <= u128::MAX,
        ensures
            self.ledger().total_supply == 0 ==> r is None,
            self.ledger().total_supply > 0 ==> r == Some(
                ((MAX_PERCENT as int) * lookup(self.ledger().users@, user_address).balance / (
                self.ledger().total_supply as int)) as u128,
            ),
    ;
}

impl Farming for Ledger {
    fn init(
        &mut self,
        farming_token_id: TokenIdentifier,
        reward_token_id: TokenIdentifier,
        min_stake_limit: u128,
        reward_amount_per_block: u128,
        min_claim_amount: u128,
        between_claim_timestamp: u64,
        early_unstake_period: u64,
        early_unstake_penalty: u64,
    ) -> (r: Result<(), FarmingError>) {
        if !farming_token_id.is_valid_esdt_identifier() {
            return Err(FarmingError::InvalidAssetIdentifier);
        }
        if !reward_token_id.is_valid_esdt_identifier() {
            return Err(FarmingError::InvalidAssetIdentifier);
        }
        self.farming_token_id = farming_token_id;
        self.reward_token_id = reward_token_id;
        self.min_stake_limit = min_stake_limit;
        self.reward_amount_per_block = reward_amount_per_block;
        self.min_claim_amount = min_claim_amount;
        self.between_claim_timestamp = between_claim_timestamp;
        self.early_unstake_period = early_unstake_period;
        self.early_unstake_penalty = early_unstake_penalty;
        self.paused = 0;
        Ok(())
    }

    fn require_activation(&self) -> (r: Result<(), FarmingError>) {
        if self.paused() != 0 {
            return Err(FarmingError::ContractPaused);
        }
        Ok(())
    }

    fn require_claim_activation(&self, user_address: u64, now: u64) -> (r: Result<
        (),
        FarmingError,
    >) {
        proof {
            lemma_wf_lookup(*self, user_address);
        }
        if !(self.rewards(user_address) > self.min_claim_amount()) {
            return Err(FarmingError::BelowMinimumClaim);
        }
        let last_claim = self.last_claim_times(user_address);
        if !(now - last_claim > self.between_claim_timestamp()) {
            return Err(FarmingError::ClaimCooldownActive);
        }
        Ok(())
    }

    fn update_reward(&mut self, user_address: u64, now: u64) {
        let ghost s0 = *self;
        let rpu = self.get_reward_per_wei(now);
        let earned = self.get_earned(user_address, now);
        proof {
            lemma_rpu_monotone(s0, now as int);
            lemma_wf_lookup(s0, user_address);
        }
        self.reward_per_wei_stored = rpu;
        self.last_update_time = now;
        let i = self.ensure_user(user_address);
        let ghost s1 = self.users@;
        let mut e = self.users[i];
        e.pending_reward = earned;
        e.reward_per_wei_paid = rpu;
        self.users[i] = e;
        proof {
            lemma_unique_update(s1, i as int, e);
            lemma_sum_update(s1, i as int, e);
            lemma_lookup_update(s1, i as int, e);
        }
    }

    fn stake_farm(
        &mut self,
        caller: u64,
        now: u64,
        payment_token: &TokenIdentifier,
        stake_amount: u128,
    ) -> (r: Result<(), FarmingError>) {
        if let Err(e) = self.require_activation() {
            return Err(e);
        }
        if !(*payment_token == *self.farming_token_id()) {
            return Err(FarmingError::WrongAsset);
        }
        if stake_amount < self.min_stake_limit() {
            return Err(FarmingError::BelowMinimumStake);
        }
        self.update_reward(caller, now);
        proof {
            lemma_wf_lookup(*self, caller);
        }
        let i = self.ensure_user(caller);
        let ghost s1 = self.users@;
        let mut e = self.users[i];
        proof {
            lemma_element_le_sum(s1, i as int);
        }
        e.balance = e.balance + stake_amount;
        e.last_stake_time = now;
        self.users[i] = e;
        self.total_supply = self.total_supply + stake_amount;
        proof {
            lemma_unique_update(s1, i as int, e);
            lemma_sum_update(s1, i as int, e);
            lemma_lookup_update(s1, i as int, e);
        }
        Ok(())
    }

    fn unstake_farm(
        &mut self,
        caller: u64,
        now: u64,
        opt_unstake_amount: Option<u128>,
        sc_farming_balance: u128,
    ) -> (r: Result<u128, FarmingError>) {
        if let Err(e) = self.require_activation() {
            return Err(e);
        }
        let balance = self.balances(caller);
        if balance == 0 {
            return Err(FarmingError::ZeroBalance);
        }
        let unstake_amount = match opt_unstake_amount {
            Some(value) => {
                if value > balance {
                    return Err(FarmingError::AmountExceedsBalance);
                }
                value
            },
            None => balance,
        };
        proof {
            lemma_wf_lookup(*self, caller);
        }
        let last_stake = self.last_stake_times(caller);
        let payout = if now - last_stake < self.early_unstake_period() {
            let penalty_amount = unstake_amount * (self.early_unstake_penalty() as u128) / (
            MAX_PERCENT as u128);
            proof {
                let amt = unstake_amount as int;
                let bps = self.early_unstake_penalty as int;
                lemma_mul_nonnegative(amt, bps);
                lemma_mul_inequality(bps, MAX_PERCENT as int, amt);
                lemma_mul_is_commutative(amt, bps);
                lemma_mul_is_commutative(amt, MAX_PERCENT as int);
                lemma_div_is_ordered(amt * bps, amt * (MAX_PERCENT as int), MAX_PERCENT as int);
                lemma_div_multiples_vanish(amt, MAX_PERCENT as int);
                lemma_div_pos_is_pos(amt * bps, MAX_PERCENT as int);
            }
            unstake_amount - penalty_amount
        } else {
            unstake_amount
        };
        if sc_farming_balance < payout {
            return Err(FarmingError::InsufficientContractLiquidity);
        }
        self.update_reward(caller, now);
        let i = self.ensure_user(caller);
        let ghost s1 = self.users@;
        let mut e = self.users[i];
        proof {
            lemma_element_le_sum(s1, i as int);
        }
        e.balance = e.balance - unstake_amount;
        self.users[i] = e;
        self.total_supply = self.total_supply - unstake_amount;
        proof {
            lemma_unique_update(s1, i as int, e);
            lemma_sum_update(s1, i as int, e);
            lemma_lookup_update(s1, i as int, e);
        }
        Ok(payout)
    }

    fn claim_reward(&mut self, caller: u64, now: u64, sc_reward_balance: u128) -> (r: Result<
        u128,
        FarmingError,
    >) {
        if let Err(e) = self.require_activation() {
            return Err(e);
        }
        let reward_amount = self.get_earned(caller, now);
        if !(reward_amount > self.min_claim_amount()) {
            return Err(FarmingError::BelowMinimumClaim);
        }
        proof {
            lemma_wf_lookup(*self, caller);
        }
        let last_claim = self.last_claim_times(caller);
        if !(now - last_claim > self.between_claim_timestamp()) {
            return Err(FarmingError::ClaimCooldownActive);
        }
        if sc_reward_balance < reward_amount {
            return Err(FarmingError::InsufficientContractLiquidity);
        }
        self.update_reward(caller, now);
        let i = self.ensure_user(caller);
        let ghost s1 = self.users@;
        let mut e = self.users[i];
        e.pending_reward = 0;
        e.last_claim_time = now;
        self.users[i] = e;
        proof {
            lemma_unique_update(s1, i as int, e);
            lemma_sum_update(s1, i as int, e);
            lemma_lookup_update(s1, i as int, e);
        }
        Ok(reward_amount)
    }

    fn get_reward_per_wei(&self, now: u64) -> (r: u128) {
        if self.total_supply == 0 {
            self.reward_per_wei_stored
        } else {
            let block_delta = (now - self.last_update_time) / BLOCK_TIMES;
            proof {
                lemma_rpu_monotone(*self, now as int);
            }
            self.reward_per_wei_stored + (block_delta as u128) * self.reward_amount_per_block
        }
    }

    fn get_earned(&self, user_address: u64, now: u64) -> (r: u128) {
        let rpu = self.get_reward_per_wei(now);
        if self.total_supply == 0 {
            0
        } else {
            let paid = self.user_reward_per_wei_paid(user_address);
            let balance = self.balances(user_address);
            let pending = self.rewards(user_address);
            proof {
                lemma_wf_lookup(*self, user_address);
                lemma_rpu_monotone(*self, now as int);
                let delta = rpu_at(*self, now as int) - lookup(self.users@, user_address)
                    .reward_per_wei_paid;
                lemma_mul_nonnegative(delta, lookup(self.users@, user_address).balance as int);
                lemma_div_pos_is_pos(
                    delta * lookup(self.users@, user_address).balance as int,
                    self.total_supply as int,
                );
            }
            let numerator = (rpu - paid) * balance;
            numerator / self.total_supply + pending
        }
    }

    fn get_reward_apr(&self, user_address: u64) -> (r: Option<u128>) {
        if self.total_supply == 0 {
            return None;
        }
        let balance = self.balances(user_address);
        proof {
            lemma_mul_nonnegative(MAX_PERCENT as int, balance as int);
            lemma_div_nonincreasing((MAX_PERCENT as int) * balance, self.total_supply as int);
            lemma_div_pos_is_pos((MAX_PERCENT as int) * balance, self.total_supply as int);
        }
        Some((MAX_PERCENT as u128) * balance / self.total_supply)
    }
}

} // verus!
