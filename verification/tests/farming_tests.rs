use farming::Farming;
use farming::FarmingError;
use farming::Ledger;
use farming::StateModule;
use farming::TokenIdentifier;

fn farm_token() -> TokenIdentifier {
    TokenIdentifier::from_bytes(b"FARM-abc123".to_vec())
}

fn reward_token() -> TokenIdentifier {
    TokenIdentifier::from_bytes(b"RWD-def456".to_vec())
}

fn new_farm(
    min_stake: u128,
    rate: u128,
    min_claim: u128,
    cooldown: u64,
    window: u64,
    penalty: u64,
) -> Ledger {
    let mut c = Ledger::new();
    c.init(
        farm_token(),
        reward_token(),
        min_stake,
        rate,
        min_claim,
        cooldown,
        window,
        penalty,
    )
    .unwrap();
    c
}

#[test]
fn init_accepts_valid_configuration() {
    let f = new_farm(100, 50, 10, 5, 100, 500);
    assert_eq!(f.min_stake_limit(), 100);
    assert_eq!(f.reward_amount_per_block(), 50);
    assert_eq!(f.min_claim_amount(), 10);
    assert_eq!(f.between_claim_timestamp(), 5);
    assert_eq!(f.early_unstake_period(), 100);
    assert_eq!(f.early_unstake_penalty(), 500);
    assert_eq!(f.paused(), 0);
    assert_eq!(f.total_supply(), 0);
    assert_eq!(f.reward_per_wei_stored(), 0);
    assert_eq!(f.last_update_time(), 0);
    assert_eq!(f.farming_token_id().bytes, b"FARM-abc123".to_vec());
    assert_eq!(f.reward_token_id().bytes, b"RWD-def456".to_vec());
}

#[test]
fn init_rejects_invalid_farming_identifier() {
    let mut c = Ledger::new();
    let r = c.init(
        TokenIdentifier::from_bytes(b"farm-abc123".to_vec()),
        reward_token(),
        100,
        50,
        10,
        5,
        100,
        500,
    );
    assert_eq!(r, Err(FarmingError::InvalidAssetIdentifier));
    assert_eq!(c.min_stake_limit(), 0);
}

#[test]
fn init_rejects_invalid_reward_identifier() {
    let mut c = Ledger::new();
    let r = c.init(
        farm_token(),
        TokenIdentifier::from_bytes(b"RWD-DEF456".to_vec()),
        100,
        50,
        10,
        5,
        100,
        500,
    );
    assert_eq!(r, Err(FarmingError::InvalidAssetIdentifier));
}

#[test]
fn token_identifier_validity_shapes() {
    let valid = |b: &[u8]| TokenIdentifier::from_bytes(b.to_vec()).is_valid_esdt_identifier();
    assert!(valid(b"FARM-abc123"));
    assert!(valid(b"ABC-000000"));
    assert!(valid(b"ABCDEFGHIJ-abc123"));
    assert!(!valid(b"AB-abc123"));
    assert!(!valid(b"ABCDEFGHIJK-abc123"));
    assert!(!valid(b"FARM-ABC123"));
    assert!(!valid(b"FARMxabc123"));
    assert!(!valid(b"farm-abc123"));
    assert!(!valid(b"FARM-abc12"));
    assert!(!valid(b""));
    assert!(!valid(b"EGLD"));
}

#[test]
fn stake_rejected_while_paused() {
    let mut f = new_farm(100, 50, 10, 5, 100, 500);
    f.set_paused(1);
    let r = f.stake_farm(1, 0, &farm_token(), 1000);
    assert_eq!(r, Err(FarmingError::ContractPaused));
    assert_eq!(f.total_supply(), 0);
}

#[test]
fn stake_rejects_wrong_asset() {
    let mut f = new_farm(100, 50, 10, 5, 100, 500);
    let r = f.stake_farm(1, 0, &reward_token(), 1000);
    assert_eq!(r, Err(FarmingError::WrongAsset));
}

#[test]
fn stake_rejects_below_minimum() {
    let mut f = new_farm(100, 50, 10, 5, 100, 500);
    let r = f.stake_farm(1, 0, &farm_token(), 99);
    assert_eq!(r, Err(FarmingError::BelowMinimumStake));
    assert_eq!(f.stake_farm(1, 0, &farm_token(), 100), Ok(()));
}

#[test]
fn stake_updates_ledger() {
    let mut f = new_farm(100, 50, 10, 5, 100, 500);
    assert_eq!(f.stake_farm(1, 7, &farm_token(), 1000), Ok(()));
    assert_eq!(f.balances(1), 1000);
    assert_eq!(f.total_supply(), 1000);
    assert_eq!(f.last_stake_times(1), 7);
    assert_eq!(f.last_update_time(), 7);
}

#[test]
fn single_staker_accrues_and_claims() {
    // Stake 1000 at t = 0; 12 seconds are 2 blocks at 50 reward units each.
    let mut f = new_farm(100, 50, 10, 5, 0, 0);
    assert_eq!(f.stake_farm(1, 0, &farm_token(), 1000), Ok(()));
    assert_eq!(f.get_earned(1, 12), 100);
    let r = f.claim_reward(1, 12, 100);
    assert_eq!(r, Ok(100));
    assert_eq!(f.rewards(1), 0);
    assert_eq!(f.last_claim_times(1), 12);
}

#[test]
fn claim_boundary_is_rejected() {
    // Cooldown 12: a claim at exactly t = 12 (= 0 + 12) must fail, one
    // second later it must succeed.
    let mut f = new_farm(100, 50, 10, 12, 0, 0);
    assert_eq!(f.stake_farm(1, 0, &farm_token(), 1000), Ok(()));
    assert_eq!(f.get_earned(1, 12), 100);
    assert_eq!(f.claim_reward(1, 12, 1000), Err(FarmingError::ClaimCooldownActive));
    assert_eq!(f.rewards(1), 0);
    assert_eq!(f.claim_reward(1, 13, 1000), Ok(100));
    assert_eq!(f.last_claim_times(1), 13);
}

#[test]
fn claim_rejects_below_minimum() {
    let mut f = new_farm(100, 50, 10, 5, 0, 0);
    assert_eq!(f.stake_farm(1, 0, &farm_token(), 1000), Ok(()));
    assert_eq!(f.claim_reward(1, 0, 1000), Err(FarmingError::BelowMinimumClaim));
    // A reward exactly equal to the minimum is still rejected: the check is
    // strict.
    let mut g = new_farm(100, 50, 100, 5, 0, 0);
    assert_eq!(g.stake_farm(1, 0, &farm_token(), 1000), Ok(()));
    assert_eq!(g.get_earned(1, 12), 100);
    assert_eq!(g.claim_reward(1, 12, 1000), Err(FarmingError::BelowMinimumClaim));
}

#[test]
fn claim_rejects_insufficient_liquidity() {
    let mut f = new_farm(100, 50, 10, 5, 0, 0);
    assert_eq!(f.stake_farm(1, 0, &farm_token(), 1000), Ok(()));
    assert_eq!(
        f.claim_reward(1, 12, 99),
        Err(FarmingError::InsufficientContractLiquidity)
    );
    // The rejected claim left the ledger untouched.
    assert_eq!(f.rewards(1), 0);
    assert_eq!(f.get_earned(1, 12), 100);
    assert_eq!(f.claim_reward(1, 12, 100), Ok(100));
}

#[test]
fn claim_rejected_while_paused() {
    let mut f = new_farm(100, 50, 10, 5, 0, 0);
    assert_eq!(f.stake_farm(1, 0, &farm_token(), 1000), Ok(()));
    f.set_paused(1);
    assert_eq!(f.claim_reward(1, 12, 1000), Err(FarmingError::ContractPaused));
}

#[test]
fn unstake_penalty_boundary_not_penalized() {
    // Window 100: at exactly t = 0 + 100 the window is over, no penalty.
    let mut f = new_farm(100, 50, 10, 5, 100, 500);
    assert_eq!(f.stake_farm(1, 0, &farm_token(), 1000), Ok(()));
    assert_eq!(f.unstake_farm(1, 100, None, 1000), Ok(1000));
    assert_eq!(f.balances(1), 0);
    assert_eq!(f.total_supply(), 0);
}

#[test]
fn unstake_one_second_earlier_is_penalized() {
    let mut f = new_farm(100, 50, 10, 5, 100, 500);
    assert_eq!(f.stake_farm(1, 0, &farm_token(), 1000), Ok(()));
    assert_eq!(f.unstake_farm(1, 99, None, 1000), Ok(950));
}

#[test]
fn unstake_within_window_pays_penalized_amount() {
    // 5% of 1000 is withheld; the ledger is still reduced by the full 1000.
    let mut f = new_farm(100, 50, 10, 5, 100, 500);
    assert_eq!(f.stake_farm(1, 0, &farm_token(), 1000), Ok(()));
    assert_eq!(f.unstake_farm(1, 50, None, 1000), Ok(950));
    assert_eq!(f.balances(1), 0);
    assert_eq!(f.total_supply(), 0);
}

#[test]
fn unstake_partial_amount() {
    let mut f = new_farm(100, 50, 10, 5, 0, 500);
    assert_eq!(f.stake_farm(1, 0, &farm_token(), 1000), Ok(()));
    assert_eq!(f.unstake_farm(1, 6, Some(400), 1000), Ok(400));
    assert_eq!(f.balances(1), 600);
    assert_eq!(f.total_supply(), 600);
}

#[test]
fn unstake_errors() {
    let mut f = new_farm(100, 50, 10, 5, 100, 500);
    assert_eq!(f.unstake_farm(1, 0, None, 1000), Err(FarmingError::ZeroBalance));
    assert_eq!(f.stake_farm(1, 0, &farm_token(), 1000), Ok(()));
    assert_eq!(
        f.unstake_farm(1, 0, Some(2000), 1000),
        Err(FarmingError::AmountExceedsBalance)
    );
    assert_eq!(
        f.unstake_farm(1, 200, None, 999),
        Err(FarmingError::InsufficientContractLiquidity)
    );
    // The rejected unstake left the ledger untouched.
    assert_eq!(f.balances(1), 1000);
    assert_eq!(f.total_supply(), 1000);
    f.set_paused(1);
    assert_eq!(f.unstake_farm(1, 200, None, 1000), Err(FarmingError::ContractPaused));
}

#[test]
fn two_stakers_split_reward_and_dust_stays() {
    // Total accrued over one block is 101; shares are floored, their sum
    // never exceeds the accrued reward.
    let mut f = new_farm(100, 101, 10, 5, 0, 0);
    assert_eq!(f.stake_farm(1, 0, &farm_token(), 1000), Ok(()));
    assert_eq!(f.stake_farm(2, 0, &farm_token(), 3000), Ok(()));
    assert_eq!(f.total_supply(), 4000);
    let earned_a = f.get_earned(1, 6);
    let earned_b = f.get_earned(2, 6);
    assert_eq!(earned_a, 25);
    assert_eq!(earned_b, 75);
    assert!(earned_a + earned_b <= 101);
}

#[test]
fn conservation_across_operations() {
    let mut f = new_farm(100, 50, 10, 5, 0, 500);
    let total_matches = |f: &Ledger| {
        assert_eq!(f.total_supply(), f.balances(1) + f.balances(2));
    };
    assert_eq!(f.stake_farm(1, 0, &farm_token(), 1000), Ok(()));
    total_matches(&f);
    assert_eq!(f.stake_farm(2, 6, &farm_token(), 3000), Ok(()));
    total_matches(&f);
    assert_eq!(f.unstake_farm(1, 12, Some(500), 10000), Ok(500));
    total_matches(&f);
    assert_eq!(f.stake_farm(1, 18, &farm_token(), 700), Ok(()));
    total_matches(&f);
    assert_eq!(f.unstake_farm(2, 24, None, 10000), Ok(3000));
    total_matches(&f);
    assert_eq!(f.unstake_farm(1, 30, None, 10000), Ok(1200));
    total_matches(&f);
    assert_eq!(f.total_supply(), 0);
}

#[test]
fn accumulator_never_decreases_and_freezes_when_empty() {
    let mut f = new_farm(100, 50, 10, 5, 0, 0);
    let mut last = f.reward_per_wei_stored();
    assert_eq!(f.stake_farm(1, 0, &farm_token(), 1000), Ok(()));
    assert!(f.reward_per_wei_stored() >= last);
    last = f.reward_per_wei_stored();
    f.update_reward(1, 60);
    assert!(f.reward_per_wei_stored() >= last);
    last = f.reward_per_wei_stored();
    assert_eq!(f.unstake_farm(1, 66, None, 10000), Ok(1000));
    assert!(f.reward_per_wei_stored() >= last);
    // Nothing is staked any more: the accumulator is frozen even as time
    // passes.
    let frozen = f.reward_per_wei_stored();
    f.update_reward(1, 600);
    assert_eq!(f.reward_per_wei_stored(), frozen);
}

#[test]
fn sync_twice_changes_nothing_the_second_time() {
    let mut f = new_farm(100, 50, 10, 5, 0, 0);
    assert_eq!(f.stake_farm(1, 0, &farm_token(), 1000), Ok(()));
    f.update_reward(1, 12);
    let pending = f.rewards(1);
    let stored = f.reward_per_wei_stored();
    let balance = f.balances(1);
    assert_eq!(pending, 100);
    // The earned view agrees with the freshly credited reward.
    assert_eq!(f.get_earned(1, 12), pending);
    f.update_reward(1, 12);
    assert_eq!(f.rewards(1), pending);
    assert_eq!(f.reward_per_wei_stored(), stored);
    assert_eq!(f.balances(1), balance);
}

#[test]
fn reward_apr_reports_share_in_basis_points() {
    let mut f = new_farm(100, 50, 10, 5, 0, 0);
    assert_eq!(f.get_reward_apr(1), None);
    assert_eq!(f.stake_farm(1, 0, &farm_token(), 1000), Ok(()));
    assert_eq!(f.stake_farm(2, 0, &farm_token(), 3000), Ok(()));
    assert_eq!(f.get_reward_apr(1), Some(2500));
    assert_eq!(f.get_reward_apr(2), Some(7500));
    assert_eq!(f.get_reward_apr(3), Some(0));
}

#[test]
fn reward_per_wei_view_advances_without_mutation() {
    let mut f = new_farm(100, 50, 10, 5, 0, 0);
    assert_eq!(f.get_reward_per_wei(100), 0);
    assert_eq!(f.stake_farm(1, 0, &farm_token(), 1000), Ok(()));
    assert_eq!(f.get_reward_per_wei(11), 50);
    assert_eq!(f.get_reward_per_wei(12), 100);
    assert_eq!(f.reward_per_wei_stored(), 0);
    assert_eq!(f.last_update_time(), 0);
}

#[test]
fn require_activation_reflects_pause_flag() {
    let mut f = new_farm(100, 50, 10, 5, 0, 0);
    assert_eq!(f.require_activation(), Ok(()));
    f.set_paused(1);
    assert_eq!(f.require_activation(), Err(FarmingError::ContractPaused));
}

#[test]
fn require_claim_activation_checks_stored_reward() {
    let mut f = new_farm(100, 50, 10, 20, 0, 0);
    assert_eq!(f.stake_farm(1, 0, &farm_token(), 1000), Ok(()));
    assert_eq!(
        f.require_claim_activation(1, 6),
        Err(FarmingError::BelowMinimumClaim)
    );
    f.update_reward(1, 12);
    assert_eq!(f.rewards(1), 100);
    assert_eq!(
        f.require_claim_activation(1, 20),
        Err(FarmingError::ClaimCooldownActive)
    );
    assert_eq!(f.require_claim_activation(1, 21), Ok(()));
}

#[test]
fn setters_replace_single_fields() {
    let mut f = new_farm(100, 50, 10, 5, 100, 500);
    f.set_min_stake_limit(7);
    assert_eq!(f.min_stake_limit(), 7);
    f.set_reward_amount_per_block(8);
    assert_eq!(f.reward_amount_per_block(), 8);
    f.set_min_claim_amount(9);
    assert_eq!(f.min_claim_amount(), 9);
    f.set_between_claim_timestamp(11);
    assert_eq!(f.between_claim_timestamp(), 11);
    f.set_early_unstake_period(12);
    assert_eq!(f.early_unstake_period(), 12);
    f.set_early_unstake_penalty(13);
    assert_eq!(f.early_unstake_penalty(), 13);
    f.set_paused(2);
    assert_eq!(f.paused(), 2);
    assert_eq!(
        f
            .set_farming_token_id(TokenIdentifier::from_bytes(b"NEW-aaa111".to_vec())),
        Ok(())
    );
    assert_eq!(f.farming_token_id().bytes, b"NEW-aaa111".to_vec());
    assert_eq!(
        f
            .set_farming_token_id(TokenIdentifier::from_bytes(b"bad".to_vec())),
        Err(FarmingError::InvalidAssetIdentifier)
    );
    assert_eq!(f.farming_token_id().bytes, b"NEW-aaa111".to_vec());
    assert_eq!(
        f
            .set_reward_token_id(TokenIdentifier::from_bytes(b"NEW-bbb222".to_vec())),
        Ok(())
    );
    assert_eq!(f.reward_token_id().bytes, b"NEW-bbb222".to_vec());
}

#[test]
fn user_snapshot_getter_tracks_accumulator() {
    let mut f = new_farm(100, 50, 10, 5, 0, 0);
    assert_eq!(f.stake_farm(1, 0, &farm_token(), 1000), Ok(()));
    assert_eq!(f.user_reward_per_wei_paid(1), 0);
    f.update_reward(1, 12);
    assert_eq!(f.user_reward_per_wei_paid(1), 100);
    assert_eq!(f.reward_per_wei_stored(), 100);
}

#[test]
fn earned_view_is_zero_while_nothing_is_staked() {
    let mut f = new_farm(100, 50, 10, 5, 0, 0);
    assert_eq!(f.get_earned(7, 0), 0);
    assert_eq!(f.stake_farm(1, 0, &farm_token(), 1000), Ok(()));
    assert_eq!(f.unstake_farm(1, 12, None, 1000), Ok(1000));
    // The accrued reward stays credited in the user's record, but the
    // earned projection is defined as zero while the staked supply is zero.
    assert_eq!(f.rewards(1), 100);
    assert_eq!(f.total_supply(), 0);
    assert_eq!(f.get_earned(1, 18), 0);
}
