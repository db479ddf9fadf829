use armory_staking::account::{AccountId, GlobalPool, UserPool};
use armory_staking::error::StakingError;
use armory_staking::{
    claim_reward, init_user_pool, initialize, stake_nft, total_claimable, unstake_nft, user,
    MULTIPLIER_UNIT, ONE_DAY, STAKE_MAX_COUNT,
};

fn acct(n: u64) -> AccountId {
    AccountId { w0: n, w1: 0, w2: 0, w3: 0 }
}

fn fresh_ledger(owner: AccountId) -> UserPool {
    let mut pool = UserPool::default();
    init_user_pool(&mut pool, owner);
    pool
}

#[test]
fn initialize_records_admin() {
    let mut global = GlobalPool::default();
    initialize(&mut global, acct(7));
    assert_eq!(global.super_admin, acct(7));
    assert_eq!(global.total_staked_count, 0);
}

#[test]
fn access_control_rejects_non_owner() {
    let pool = fresh_ledger(acct(1));
    assert!(user(&pool, &acct(1)).is_ok());
    assert_eq!(user(&pool, &acct(2)), Err(StakingError::NotLedgerOwner));
}

#[test]
fn deposit_increments_both_counters() {
    let mut global = GlobalPool::default();
    let owner = acct(1);
    let mut pool = fresh_ledger(owner);
    let r = stake_nft(&mut global, &mut pool, owner, acct(10), 100, acct(0), 0, 0);
    assert!(r.is_ok());
    assert_eq!(pool.staked_count, 1);
    assert_eq!(global.total_staked_count, 1);
}

#[test]
fn deposit_by_stranger_changes_nothing() {
    let mut global = GlobalPool::default();
    let mut pool = fresh_ledger(acct(1));
    let r = stake_nft(&mut global, &mut pool, acct(2), acct(10), 100, acct(0), 0, 0);
    assert_eq!(r, Err(StakingError::NotLedgerOwner));
    assert_eq!(pool.staked_count, 0);
    assert_eq!(global.total_staked_count, 0);
    assert!(!pool.mission_completed);
}

#[test]
fn deposit_into_full_ledger_fails() {
    let mut global = GlobalPool::default();
    let owner = acct(1);
    let mut pool = fresh_ledger(owner);
    for i in 0..STAKE_MAX_COUNT as u64 {
        let r = stake_nft(&mut global, &mut pool, owner, acct(100 + i), 100, acct(0), 0, 0);
        assert!(r.is_ok());
    }
    assert_eq!(pool.staked_count, STAKE_MAX_COUNT as u64);
    let r = stake_nft(&mut global, &mut pool, owner, acct(999), 100, acct(0), 0, 0);
    assert_eq!(r, Err(StakingError::CapacityExceeded));
    assert_eq!(pool.staked_count, STAKE_MAX_COUNT as u64);
    assert_eq!(global.total_staked_count, STAKE_MAX_COUNT as u64);
}

#[test]
fn withdraw_decrements_both_counters_and_removes_item() {
    let mut global = GlobalPool::default();
    let owner = acct(1);
    let mut pool = fresh_ledger(owner);
    stake_nft(&mut global, &mut pool, owner, acct(10), 100, acct(0), 0, 0).unwrap();
    stake_nft(&mut global, &mut pool, owner, acct(11), 200, acct(0), 0, 0).unwrap();
    let r = unstake_nft(&mut global, &mut pool, owner, acct(10), 0);
    assert!(r.is_ok());
    assert_eq!(pool.staked_count, 1);
    assert_eq!(global.total_staked_count, 1);
    assert!(pool.find_nft(&acct(10)).is_none());
    assert_eq!(pool.find_nft(&acct(11)), Some(0));
}

#[test]
fn withdraw_of_unknown_item_fails() {
    let mut global = GlobalPool::default();
    let owner = acct(1);
    let mut pool = fresh_ledger(owner);
    stake_nft(&mut global, &mut pool, owner, acct(10), 100, acct(0), 0, 0).unwrap();
    let r = unstake_nft(&mut global, &mut pool, owner, acct(77), 0);
    assert_eq!(r, Err(StakingError::RecordNotFound));
    assert_eq!(pool.staked_count, 1);
    assert_eq!(global.total_staked_count, 1);
}

#[test]
fn withdraw_of_undefined_tier_fails() {
    let mut global = GlobalPool::default();
    let owner = acct(1);
    let mut pool = fresh_ledger(owner);
    // A rarity id outside every tier can be deposited; computations over it fail.
    stake_nft(&mut global, &mut pool, owner, acct(10), 10001, acct(0), 0, 0).unwrap();
    let r = unstake_nft(&mut global, &mut pool, owner, acct(10), ONE_DAY);
    assert_eq!(r, Err(StakingError::UnknownRarityTier));
    assert_eq!(pool.staked_count, 1);
}

#[test]
fn immediate_round_trip_accrues_nothing() {
    let mut global = GlobalPool::default();
    let owner = acct(1);
    let mut pool = fresh_ledger(owner);
    let now = 5000;
    stake_nft(&mut global, &mut pool, owner, acct(10), 100, acct(0), 0, now).unwrap();
    unstake_nft(&mut global, &mut pool, owner, acct(10), now).unwrap();
    assert_eq!(pool.pending_reward, 0);
    assert_eq!(pool.staked_count, 0);
    assert_eq!(global.total_staked_count, 0);
}

#[test]
fn withdraw_folds_earned_reward_into_pending() {
    let mut global = GlobalPool::default();
    let owner = acct(1);
    let mut pool = fresh_ledger(owner);
    // rarity 100 -> base rate 10, no companion -> x1.0
    stake_nft(&mut global, &mut pool, owner, acct(10), 100, acct(0), 0, 0).unwrap();
    unstake_nft(&mut global, &mut pool, owner, acct(10), 3 * ONE_DAY).unwrap();
    assert_eq!(pool.pending_reward, 3 * 10 * MULTIPLIER_UNIT);
}

#[test]
fn mission_bonus_fires_exactly_once() {
    let mut global = GlobalPool::default();
    let owner = acct(1);
    let mut pool = fresh_ledger(owner);
    assert!(!pool.mission_completed);
    let b1 = stake_nft(&mut global, &mut pool, owner, acct(10), 100, acct(0), 0, 0).unwrap();
    let b2 = stake_nft(&mut global, &mut pool, owner, acct(11), 200, acct(0), 0, 0).unwrap();
    let b3 = stake_nft(&mut global, &mut pool, owner, acct(12), 300, acct(0), 0, 0).unwrap();
    assert!(b1);
    assert!(!b2);
    assert!(!b3);
    assert!(pool.mission_completed);
    // Withdraw everything and re-deposit: the flag stays, the bonus does not return.
    unstake_nft(&mut global, &mut pool, owner, acct(10), 0).unwrap();
    unstake_nft(&mut global, &mut pool, owner, acct(11), 0).unwrap();
    unstake_nft(&mut global, &mut pool, owner, acct(12), 0).unwrap();
    assert!(pool.mission_completed);
    let b4 = stake_nft(&mut global, &mut pool, owner, acct(10), 100, acct(0), 0, 0).unwrap();
    assert!(!b4);
}

#[test]
fn claim_too_soon_fails_at_boundary() {
    let mut global = GlobalPool::default();
    let owner = acct(1);
    let mut pool = fresh_ledger(owner);
    stake_nft(&mut global, &mut pool, owner, acct(10), 100, acct(0), 0, 0).unwrap();
    let r = claim_reward(&mut pool, owner, ONE_DAY - 1, u64::MAX);
    assert_eq!(r, Err(StakingError::ClaimTooSoon));
    assert_eq!(pool.last_claimed_time, 0);
}

#[test]
fn claim_succeeds_exactly_at_one_day() {
    let mut global = GlobalPool::default();
    let owner = acct(1);
    let mut pool = fresh_ledger(owner);
    stake_nft(&mut global, &mut pool, owner, acct(10), 100, acct(0), 0, 0).unwrap();
    let r = claim_reward(&mut pool, owner, ONE_DAY, u64::MAX);
    assert_eq!(r, Ok(10 * MULTIPLIER_UNIT));
    assert_eq!(pool.last_claimed_time, ONE_DAY);
    assert_eq!(pool.pending_reward, 0);
}

#[test]
fn claim_end_to_end_two_days() {
    let mut global = GlobalPool::default();
    let owner = acct(1);
    let mut pool = fresh_ledger(owner);
    // rarity 100 -> rate 10, no companion -> x1.0, staked at t = 0
    stake_nft(&mut global, &mut pool, owner, acct(10), 100, acct(0), 0, 0).unwrap();
    let now = 2 * ONE_DAY;
    let r = claim_reward(&mut pool, owner, now, u64::MAX);
    assert_eq!(r, Ok(2 * 10 * MULTIPLIER_UNIT));
    assert_eq!(pool.last_claimed_time, now);
    assert_eq!(pool.pending_reward, 0);
    assert_eq!(pool.staked_count, 1);
}

#[test]
fn claim_pays_pending_plus_accrued() {
    let mut global = GlobalPool::default();
    let owner = acct(1);
    let mut pool = fresh_ledger(owner);
    stake_nft(&mut global, &mut pool, owner, acct(10), 100, acct(0), 0, 0).unwrap();
    stake_nft(&mut global, &mut pool, owner, acct(11), 2000, acct(0), 0, 0).unwrap();
    // Withdrawing the second item after one day defers its reward (rate 14).
    unstake_nft(&mut global, &mut pool, owner, acct(11), ONE_DAY).unwrap();
    assert_eq!(pool.pending_reward, 14 * MULTIPLIER_UNIT);
    // Claiming after two days pays the first item's two days plus the pending.
    let r = claim_reward(&mut pool, owner, 2 * ONE_DAY, u64::MAX);
    assert_eq!(r, Ok((2 * 10 + 14) * MULTIPLIER_UNIT));
    assert_eq!(pool.pending_reward, 0);
}

#[test]
fn claim_against_poor_reserve_changes_nothing() {
    let mut global = GlobalPool::default();
    let owner = acct(1);
    let mut pool = fresh_ledger(owner);
    stake_nft(&mut global, &mut pool, owner, acct(10), 100, acct(0), 0, 0).unwrap();
    let r = claim_reward(&mut pool, owner, ONE_DAY, 10 * MULTIPLIER_UNIT - 1);
    assert_eq!(r, Err(StakingError::InsufficientRewardReserve));
    assert_eq!(pool.last_claimed_time, 0);
    assert_eq!(pool.pending_reward, 0);
    let r = claim_reward(&mut pool, owner, ONE_DAY, 10 * MULTIPLIER_UNIT);
    assert_eq!(r, Ok(10 * MULTIPLIER_UNIT));
}

#[test]
fn claim_by_stranger_fails() {
    let mut global = GlobalPool::default();
    let owner = acct(1);
    let mut pool = fresh_ledger(owner);
    stake_nft(&mut global, &mut pool, owner, acct(10), 100, acct(0), 0, 0).unwrap();
    let r = claim_reward(&mut pool, acct(2), ONE_DAY, u64::MAX);
    assert_eq!(r, Err(StakingError::NotLedgerOwner));
}

#[test]
fn claim_resets_accrual_baseline() {
    let mut global = GlobalPool::default();
    let owner = acct(1);
    let mut pool = fresh_ledger(owner);
    stake_nft(&mut global, &mut pool, owner, acct(10), 100, acct(0), 0, 0).unwrap();
    claim_reward(&mut pool, owner, 2 * ONE_DAY, u64::MAX).unwrap();
    // A fresh claim a day later earns only the one new day.
    let r = claim_reward(&mut pool, owner, 3 * ONE_DAY, u64::MAX);
    assert_eq!(r, Ok(10 * MULTIPLIER_UNIT));
}

#[test]
fn total_claimable_reads_without_mutating() {
    let mut global = GlobalPool::default();
    let owner = acct(1);
    let mut pool = fresh_ledger(owner);
    stake_nft(&mut global, &mut pool, owner, acct(10), 100, acct(0), 0, 0).unwrap();
    let a = total_claimable(&pool, 2 * ONE_DAY);
    let b = total_claimable(&pool, 2 * ONE_DAY);
    assert_eq!(a, Ok(2 * 10 * MULTIPLIER_UNIT));
    assert_eq!(a, b);
    assert_eq!(pool.last_claimed_time, 0);
}

#[test]
fn swap_remove_relocates_last_record() {
    let mut global = GlobalPool::default();
    let owner = acct(1);
    let mut pool = fresh_ledger(owner);
    let a = acct(10);
    let b = acct(11);
    let c = acct(12);
    stake_nft(&mut global, &mut pool, owner, a, 100, acct(0), 0, 0).unwrap();
    stake_nft(&mut global, &mut pool, owner, b, 200, acct(0), 0, 0).unwrap();
    stake_nft(&mut global, &mut pool, owner, c, 300, acct(0), 0, 0).unwrap();
    assert_eq!(pool.staked_count, 3);
    // Removing A (index 0) relocates C into slot 0; B keeps its slot.
    unstake_nft(&mut global, &mut pool, owner, a, 0).unwrap();
    assert_eq!(pool.staked_count, 2);
    assert_eq!(pool.staked_nfts[0].bear_mint, c);
    assert_eq!(pool.staked_nfts[0].bear_id, 300);
    assert_eq!(pool.staked_nfts[1].bear_mint, b);
    assert_eq!(pool.staked_nfts[1].bear_id, 200);
    assert_eq!(pool.find_nft(&c), Some(0));
    assert_eq!(pool.find_nft(&b), Some(1));
    assert!(pool.find_nft(&a).is_none());
}

#[test]
fn claim_with_undefined_tier_record_fails() {
    let mut global = GlobalPool::default();
    let owner = acct(1);
    let mut pool = fresh_ledger(owner);
    stake_nft(&mut global, &mut pool, owner, acct(10), 100, acct(0), 0, 0).unwrap();
    stake_nft(&mut global, &mut pool, owner, acct(11), 0, acct(0), 0, 0).unwrap();
    let r = claim_reward(&mut pool, owner, ONE_DAY, u64::MAX);
    assert_eq!(r, Err(StakingError::UnknownRarityTier));
    assert_eq!(pool.last_claimed_time, 0);
    assert_eq!(pool.pending_reward, 0);
}

#[test]
fn claim_baselines_each_record_separately() {
    let mut global = GlobalPool::default();
    let owner = acct(1);
    let mut pool = fresh_ledger(owner);
    // Rate 10 from t = 0, rate 14 from t = ONE_DAY.
    stake_nft(&mut global, &mut pool, owner, acct(10), 100, acct(0), 0, 0).unwrap();
    stake_nft(&mut global, &mut pool, owner, acct(11), 2000, acct(0), 0, ONE_DAY).unwrap();
    let r = claim_reward(&mut pool, owner, 2 * ONE_DAY, u64::MAX);
    assert_eq!(r, Ok((2 * 10 + 14) * MULTIPLIER_UNIT));
}

#[test]
fn partial_day_earns_nothing() {
    let mut global = GlobalPool::default();
    let owner = acct(1);
    let mut pool = fresh_ledger(owner);
    stake_nft(&mut global, &mut pool, owner, acct(10), 100, acct(0), 0, 0).unwrap();
    unstake_nft(&mut global, &mut pool, owner, acct(10), ONE_DAY - 1).unwrap();
    assert_eq!(pool.pending_reward, 0);
}
