//! The accrual engine: time-weighted rewards for one record or for a whole
//! record sequence.
//!
//! A record earns its resolved rate once per whole day elapsed since the
//! later of the ledger's last claim and the record's own deposit time;
//! partial days earn nothing.  The engine never reads a clock itself: `now`
//! is always an argument, supplied by the caller from a monotonic wall
//! clock, so the same inputs always yield the same reward.

use vstd::prelude::*;

use crate::account::StakedData;
use crate::error::StakingError;
use crate::rate::{nft_rate, spec_nft_rate, tier_defined};
use crate::ONE_DAY;

verus! {

/// The accrual baseline of a record: the later of the last claim time and
/// the record's deposit time.
pub open spec fn spec_baseline(last_claimed_time: i64, staked_time: i64) -> int {
    if last_claimed_time < staked_time {
        staked_time as int
    } else {
        last_claimed_time as int
    }
}

/// Whole days elapsed from the record's baseline to `now`; truncating, so a
/// partial day counts as zero.
pub open spec fn spec_elapsed_days(rec: StakedData, last_claimed_time: i64, now: i64) -> int {
    (now - spec_baseline(last_claimed_time, rec.staked_time)) / (ONE_DAY as int)
}

/// The reward one record has earned by `now`, baselined at
/// `last_claimed_time`: elapsed whole days times the record's resolved
/// scaled rate.  Meaningful only when the record's tier is defined.
pub open spec fn spec_accrued(rec: StakedData, last_claimed_time: i64, now: i64) -> int {
    spec_elapsed_days(rec, last_claimed_time, now) * spec_nft_rate(rec.bear_id, rec.box_id)
}

/// The reward a whole record sequence has earned by `now`.
pub open spec fn spec_total_accrued(records: Seq<StakedData>, last_claimed_time: i64, now: i64) -> int
    decreases records.len(),
{
    if records.len() == 0 {
        0
    } else {
        spec_total_accrued(records.drop_last(), last_claimed_time, now)
            + spec_accrued(records.last(), last_claimed_time, now)
    }
}

/// Every record of the sequence lies in a defined rate tier.
pub open spec fn all_tiers_defined(records: Seq<StakedData>) -> bool {
    forall|i: int| 0 <= i < records.len() ==> tier_defined(#[trigger] records[i].bear_id)
}

/// With a monotonic clock (`now` at or after the baseline) a record's
/// accrued reward is never negative: the day count is non-negative and the
/// rate is a product of unsigned values, whatever the record's tier.
pub proof fn lemma_accrued_nonneg(rec: StakedData, last_claimed_time: i64, now: i64)
    requires
        spec_baseline(last_claimed_time, rec.staked_time) <= now,
    ensures
        0 <= spec_accrued(rec, last_claimed_time, now),
        0 <= spec_elapsed_days(rec, last_claimed_time, now),
{
    let d = now - spec_baseline(last_claimed_time, rec.staked_time);
    assert(0 <= d / (ONE_DAY as int)) by (nonlinear_arith)
        requires 0 <= d;
    assert(0 <= spec_elapsed_days(rec, last_claimed_time, now)
        * spec_nft_rate(rec.bear_id, rec.box_id)) by (nonlinear_arith)
        requires
            0 <= spec_elapsed_days(rec, last_claimed_time, now),
            0 <= spec_nft_rate(rec.bear_id, rec.box_id);
}

/// Growing a record sequence never shrinks its total accrued reward, as
/// long as every record accrues non-negatively: each prefix total is
/// bounded by the whole total.
pub proof fn lemma_total_accrued_prefix_bound(
    records: Seq<StakedData>,
    last_claimed_time: i64,
    now: i64,
    n: int,
)
    requires
        0 <= n <= records.len(),
        forall|i: int| 0 <= i < records.len()
            ==> spec_baseline(last_claimed_time, #[trigger] records[i].staked_time) <= now,
    ensures
        spec_total_accrued(records.take(n), last_claimed_time, now)
            <= spec_total_accrued(records, last_claimed_time, now),
        0 <= spec_total_accrued(records.take(n), last_claimed_time, now),
    decreases records.len(),
{
    if records.len() == 0 {
        assert(records.take(n) =~= records);
    } else if n == records.len() {
        assert(records.take(n) =~= records);
        let prev = records.drop_last();
        assert(forall|i: int| 0 <= i < prev.len()
            ==> spec_baseline(last_claimed_time, #[trigger] prev[i].staked_time) <= now);
        lemma_total_accrued_prefix_bound(prev, last_claimed_time, now, prev.len() as int);
        lemma_accrued_nonneg(records.last(), last_claimed_time, now);
    } else {
        let prev = records.drop_last();
        assert(records.take(n) =~= prev.take(n));
        assert(forall|i: int| 0 <= i < prev.len()
            ==> spec_baseline(last_claimed_time, #[trigger] prev[i].staked_time) <= now);
        lemma_total_accrued_prefix_bound(prev, last_claimed_time, now, n);
        lemma_accrued_nonneg(records.last(), last_claimed_time, now);
    }
}

/// Each single record's accrued reward is bounded by the whole sequence's
/// total, since every other record contributes non-negatively.
pub proof fn lemma_accrued_term_bound(
    records: Seq<StakedData>,
    last_claimed_time: i64,
    now: i64,
    i: int,
)
    requires
        0 <= i < records.len(),
        forall|j: int| 0 <= j < records.len()
            ==> spec_baseline(last_claimed_time, #[trigger] records[j].staked_time) <= now,
    ensures
        spec_accrued(records[i], last_claimed_time, now)
            <= spec_total_accrued(records, last_claimed_time, now),
    decreases records.len(),
{
    let prev = records.drop_last();
    assert(forall|j: int| 0 <= j < prev.len()
        ==> spec_baseline(last_claimed_time, #[trigger] prev[j].staked_time) <= now);
    if i == records.len() - 1 {
        lemma_total_accrued_prefix_bound(prev, last_claimed_time, now, prev.len() as int);
        assert(prev.take(prev.len() as int) =~= prev);
    } else {
        lemma_accrued_term_bound(prev, last_claimed_time, now, i);
        lemma_accrued_nonneg(records.last(), last_claimed_time, now);
    }
}

/// Computes one record's accrued reward: elapsed whole days since the
/// baseline times the record's resolved rate, or `UnknownRarityTier` when
/// the record's primary rarity id lies in no tier.  A pure function of its
/// arguments: identical inputs yield identical results.
pub fn accrued_reward(rec: &StakedData, last_claimed_time: i64, now: i64) -> (r: Result<
    u64,
    StakingError,
>)
    requires
        0 <= last_claimed_time,
        0 <= rec.staked_time,
        spec_baseline(last_claimed_time, rec.staked_time) <= now,
        spec_accrued(*rec, last_claimed_time, now) <= u64::MAX,
    ensures
        r is Ok <==> tier_defined(rec.bear_id),
        r matches Ok(v) ==> v == spec_accrued(*rec, last_claimed_time, now),
        r matches Err(e) ==> e == StakingError::UnknownRarityTier,
{
    let rate = nft_rate(rec.bear_id, rec.box_id)?;
    let baseline: i64 = if last_claimed_time < rec.staked_time {
        rec.staked_time
    } else {
        last_claimed_time
    };
    let elapsed: u64 = (now - baseline) as u64;
    let days: u64 = elapsed / (ONE_DAY as u64);
    proof {
        assert(days == spec_elapsed_days(*rec, last_claimed_time, now));
        lemma_accrued_nonneg(*rec, last_claimed_time, now);
        assert(days * rate == spec_accrued(*rec, last_claimed_time, now));
    }
    Ok(days * rate)
}

} // verus!
