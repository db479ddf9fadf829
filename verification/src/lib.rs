//! A staking ledger and reward-accrual engine for a collection of
//! non-fungible collectible items.
//!
//! Participants deposit items into a fixed-capacity per-participant ledger,
//! rewards accrue in whole-day increments according to a tiered rate
//! schedule, and participants later withdraw items and claim the accumulated
//! rewards.  The surrounding transport (identity verification, asset
//! transfer, clock, persistent storage) is left to the caller: every
//! operation here takes plain values and mutates only the ledger state it is
//! handed.

use vstd::prelude::*;

pub mod account;
pub mod accrual;
pub mod error;
pub mod laws;
pub mod metadata;
pub mod rate;

use crate::account::{
    first_match_idx, has_mint, is_first_match, spec_claim, spec_deposit, spec_withdraw_at,
    AccountId, GlobalPool, PoolModel, StakedData, UserPool,
};
use crate::accrual::{
    all_tiers_defined, lemma_accrued_term_bound, lemma_total_accrued_prefix_bound, spec_accrued,
    spec_baseline, spec_total_accrued,
};
use crate::error::StakingError;
use crate::rate::tier_defined;

verus! {

/// Capacity of one participant's ledger: how many items may be staked at once.
pub const STAKE_MAX_COUNT: usize = 30;

/// One day in seconds; rewards accrue per whole elapsed day.
pub const ONE_DAY: i64 = 86400;

/// Flat one-time reward paid on a participant's first-ever deposit.
pub const MISSION_BONUS: u64 = 25_000_000_000;

/// Fixed-point scale of the companion-item multiplier: a multiplier of 1.0
/// is stored as this many scaled units.
pub const MULTIPLIER_UNIT: u64 = 1_000_000_000;

/// System bootstrap: records the administrator identity in the global
/// registry and touches nothing else.
pub fn initialize(global: &mut GlobalPool, admin: AccountId)
    ensures
        final(global).super_admin == admin,
        final(global).total_staked_count == old(global).total_staked_count,
{
    global.super_admin = admin;
}

/// Binds a freshly allocated (zeroed) ledger to its controlling
/// participant; the owner never changes afterwards.
pub fn init_user_pool(user_pool: &mut UserPool, owner: AccountId)
    requires
        old(user_pool).wf(),
    ensures
        final(user_pool).wf(),
        final(user_pool)@ == (PoolModel { owner, ..old(user_pool)@ }),
        final(user_pool).staked_count == old(user_pool).staked_count,
{
    user_pool.owner = owner;
}

/// Access control: every mutating ledger operation first confirms that the
/// caller is the ledger's registered owner.
pub fn user(user_pool: &UserPool, owner: &AccountId) -> (r: Result<(), StakingError>)
    ensures
        r is Ok <==> user_pool.owner == *owner,
        r matches Err(e) ==> e == StakingError::NotLedgerOwner,
{
    if user_pool.owner == *owner {
        Ok(())
    } else {
        Err(StakingError::NotLedgerOwner)
    }
}

/// Deposits one item (with an optional companion) into the caller's ledger
/// at time `now`.
///
/// On success the record is appended, the ledger's count and the global
/// registry's count each grow by exactly one, and the returned flag says
/// whether this deposit is the participant's first ever — in which case the
/// caller owes the participant the one-time [`MISSION_BONUS`] payout and
/// the one-shot mission flag is now permanently set.  A failed deposit
/// (wrong caller, or a full ledger) changes nothing.
pub fn stake_nft(
    global: &mut GlobalPool,
    user_pool: &mut UserPool,
    owner: AccountId,
    nft_mint: AccountId,
    bear_id: u64,
    box_mint: AccountId,
    box_id: u64,
    now: i64,
) -> (r: Result<bool, StakingError>)
    requires
        old(user_pool).wf(),
        0 <= now,
        old(global).total_staked_count < u64::MAX,
    ensures
        final(user_pool).wf(),
        r is Ok <==> old(user_pool).owner == owner && old(user_pool).staked_count
            < STAKE_MAX_COUNT,
        r matches Err(e) ==> {
            &&& *final(user_pool) == *old(user_pool)
            &&& *final(global) == *old(global)
            &&& e == (if old(user_pool).owner != owner {
                StakingError::NotLedgerOwner
            } else {
                StakingError::CapacityExceeded
            })
        },
        r matches Ok(bonus) ==> {
            &&& bonus == !old(user_pool).mission_completed
            &&& final(user_pool)@ == spec_deposit(
                old(user_pool)@,
                (StakedData { bear_mint: nft_mint, bear_id, box_mint, box_id, staked_time: now }),
            )
            &&& final(user_pool).mission_completed
            &&& final(user_pool).staked_count == old(user_pool).staked_count + 1
            &&& final(global).total_staked_count == old(global).total_staked_count + 1
            &&& final(global).super_admin == old(global).super_admin
        },
{
    match user(user_pool, &owner) {
        Ok(()) => {},
        Err(e) => {
            return Err(e);
        },
    }
    if user_pool.staked_count >= STAKE_MAX_COUNT as u64 {
        return Err(StakingError::CapacityExceeded);
    }
    let bonus = !user_pool.mission_completed;
    user_pool.mission_completed = true;
    match user_pool.add_nft(nft_mint, bear_id, box_mint, box_id, now) {
        Ok(()) => {},
        Err(e) => {
            return Err(e);
        },
    }
    global.total_staked_count = global.total_staked_count + 1;
    proof {
        let rec = StakedData { bear_mint: nft_mint, bear_id, box_mint, box_id, staked_time: now };
        assert(user_pool@ =~= spec_deposit(old(user_pool)@, rec));
    }
    Ok(bonus)
}

/// Withdraws the caller's staked item at time `now`.
///
/// On success the record's earned-but-unclaimed reward is folded into
/// `pending_reward` (deferred to the next claim, not lost), the record is
/// swap-removed, and both the ledger's count and the global registry's
/// count shrink by exactly one.  A failed withdraw (wrong caller, unknown
/// item, or an undefined rarity tier) changes nothing.
pub fn unstake_nft(
    global: &mut GlobalPool,
    user_pool: &mut UserPool,
    owner: AccountId,
    nft_mint: AccountId,
    now: i64,
) -> (r: Result<(), StakingError>)
    requires
        old(user_pool).wf(),
        old(user_pool).last_claimed_time <= now,
        forall|i: int|
            0 <= i < old(user_pool)@.records.len()
                ==> #[trigger] old(user_pool)@.records[i].staked_time <= now,
        forall|i: int|
            is_first_match(old(user_pool)@.records, nft_mint, i) ==> old(
                user_pool,
            ).pending_reward + spec_accrued(
                old(user_pool)@.records[i],
                old(user_pool).last_claimed_time,
                now,
            ) <= u64::MAX,
        old(user_pool).staked_count <= old(global).total_staked_count,
    ensures
        final(user_pool).wf(),
        r is Ok <==> old(user_pool).owner == owner && has_mint(old(user_pool)@.records, nft_mint)
            && tier_defined(
            old(user_pool)@.records[first_match_idx(old(user_pool)@.records, nft_mint)].bear_id,
        ),
        r matches Err(e) ==> {
            &&& *final(user_pool) == *old(user_pool)
            &&& *final(global) == *old(global)
            &&& e == (if old(user_pool).owner != owner {
                StakingError::NotLedgerOwner
            } else if !has_mint(old(user_pool)@.records, nft_mint) {
                StakingError::RecordNotFound
            } else {
                StakingError::UnknownRarityTier
            })
        },
        r is Ok ==> {
            &&& final(user_pool)@ == spec_withdraw_at(
                old(user_pool)@,
                first_match_idx(old(user_pool)@.records, nft_mint),
                now,
            )
            &&& final(user_pool).staked_count == old(user_pool).staked_count - 1
            &&& final(global).total_staked_count == old(global).total_staked_count - 1
            &&& final(global).super_admin == old(global).super_admin
        },
{
    match user(user_pool, &owner) {
        Ok(()) => {},
        Err(e) => {
            return Err(e);
        },
    }
    match user_pool.remove_nft(nft_mint, now) {
        Ok(()) => {},
        Err(e) => {
            return Err(e);
        },
    }
    global.total_staked_count = global.total_staked_count - 1;
    Ok(())
}

/// The payout a claim at `now` would transfer: the carried pending reward
/// plus every staked record's accrued reward.  Read-only; fails only when
/// some record's rarity id lies in no tier.
pub fn total_claimable(user_pool: &UserPool, now: i64) -> (r: Result<u64, StakingError>)
    requires
        user_pool.wf(),
        user_pool.last_claimed_time <= now,
        forall|i: int|
            0 <= i < user_pool@.records.len()
                ==> #[trigger] user_pool@.records[i].staked_time <= now,
        user_pool.pending_reward + spec_total_accrued(
            user_pool@.records,
            user_pool.last_claimed_time,
            now,
        ) <= u64::MAX,
    ensures
        r is Ok <==> all_tiers_defined(user_pool@.records),
        r matches Ok(v) ==> v == user_pool.pending_reward + spec_total_accrued(
            user_pool@.records,
            user_pool.last_claimed_time,
            now,
        ),
        r matches Err(e) ==> e == StakingError::UnknownRarityTier,
{
    let records = Ghost(user_pool@.records);
    let last = user_pool.last_claimed_time;
    let count: usize = user_pool.staked_count as usize;
    let mut total: u64 = 0;
    let mut i: usize = 0;
    proof {
        assert(forall|j: int| 0 <= j < records@.len()
            ==> spec_baseline(last, #[trigger] records@[j].staked_time) <= now);
    }
    while i < count
        invariant
            user_pool.wf(),
            records@ == user_pool@.records,
            last == user_pool.last_claimed_time,
            last <= now,
            count == user_pool.staked_count,
            i <= count,
            records@.len() == count,
            forall|j: int| 0 <= j < records@.len()
                ==> spec_baseline(last, #[trigger] records@[j].staked_time) <= now,
            user_pool.pending_reward + spec_total_accrued(records@, last, now) <= u64::MAX,
            forall|j: int| 0 <= j < i ==> tier_defined(#[trigger] records@[j].bear_id),
            total == spec_total_accrued(records@.take(i as int), last, now),
        decreases count - i,
    {
        let rec = user_pool.staked_nfts[i];
        proof {
            assert(rec == records@[i as int]);
            lemma_accrued_term_bound(records@, last, now, i as int);
            lemma_total_accrued_prefix_bound(records@, last, now, i as int);
        }
        let reward: u64 = match crate::accrual::accrued_reward(&rec, last, now) {
            Ok(v) => v,
            Err(e) => {
                return Err(e);
            },
        };
        proof {
            assert(records@.take(i + 1 as int).drop_last() =~= records@.take(i as int));
            assert(records@.take(i + 1 as int).last() == records@[i as int]);
            lemma_total_accrued_prefix_bound(records@, last, now, i + 1 as int);
        }
        total = total + reward;
        i = i + 1;
    }
    proof {
        assert(records@.take(count as int) =~= records@);
    }
    Ok(user_pool.pending_reward + total)
}

/// Claims the caller's accumulated reward at time `now`.
///
/// Succeeds only when the caller owns the ledger, at least one full day
/// has elapsed since the last claim, every staked record lies in a defined
/// tier, and the reward reserve (`vault_balance`) covers the payout.  On
/// success it returns the payout — pending reward plus every record's
/// accrued reward — restarts the claim clock at `now` and zeroes the
/// pending reward, leaving the staked records untouched; the caller then
/// performs the transfer.  A failed claim changes nothing.
pub fn claim_reward(
    user_pool: &mut UserPool,
    owner: AccountId,
    now: i64,
    vault_balance: u64,
) -> (r: Result<u64, StakingError>)
    requires
        old(user_pool).wf(),
        0 <= now,
        forall|i: int|
            0 <= i < old(user_pool)@.records.len()
                ==> #[trigger] old(user_pool)@.records[i].staked_time <= now,
        old(user_pool).pending_reward + spec_total_accrued(
            old(user_pool)@.records,
            old(user_pool).last_claimed_time,
            now,
        ) <= u64::MAX,
    ensures
        final(user_pool).wf(),
        r is Ok <==> old(user_pool).owner == owner && now - old(user_pool).last_claimed_time
            >= ONE_DAY && all_tiers_defined(old(user_pool)@.records) && vault_balance >= old(
            user_pool,
        ).pending_reward + spec_total_accrued(
            old(user_pool)@.records,
            old(user_pool).last_claimed_time,
            now,
        ),
        r matches Err(e) ==> {
            &&& *final(user_pool) == *old(user_pool)
            &&& e == (if old(user_pool).owner != owner {
                StakingError::NotLedgerOwner
            } else if now - old(user_pool).last_claimed_time < ONE_DAY {
                StakingError::ClaimTooSoon
            } else if !all_tiers_defined(old(user_pool)@.records) {
                StakingError::UnknownRarityTier
            } else {
                StakingError::InsufficientRewardReserve
            })
        },
        r matches Ok(v) ==> {
            &&& v == old(user_pool).pending_reward + spec_total_accrued(
                old(user_pool)@.records,
                old(user_pool).last_claimed_time,
                now,
            )
            &&& final(user_pool)@ == spec_claim(old(user_pool)@, now)
            &&& final(user_pool).staked_count == old(user_pool).staked_count
        },
{
    match user(user_pool, &owner) {
        Ok(()) => {},
        Err(e) => {
            return Err(e);
        },
    }
    if now - user_pool.last_claimed_time < ONE_DAY {
        return Err(StakingError::ClaimTooSoon);
    }
    let total: u64 = match total_claimable(user_pool, now) {
        Ok(v) => v,
        Err(e) => {
            return Err(e);
        },
    };
    if vault_balance < total {
        return Err(StakingError::InsufficientRewardReserve);
    }
    user_pool.last_claimed_time = now;
    user_pool.pending_reward = 0;
    proof {
        assert(user_pool@ =~= spec_claim(old(user_pool)@, now));
    }
    Ok(total)
}

} // verus!
