//! The rate resolver: maps an item's two rarity identifiers to a reward
//! rate.
//!
//! The primary rarity id selects a base rate from a fixed business schedule
//! of nine tiers; each tier covers two disjoint id ranges, one in each half
//! of the id space.  The companion ("box") rarity id selects a fixed-point
//! multiplier scaled by [`crate::MULTIPLIER_UNIT`]; the resolved rate is the
//! base rate times the scaled multiplier and stays in scaled units until a
//! final division at payout time.

use vstd::prelude::*;

use crate::error::StakingError;

verus! {

/// The base-rate schedule for the primary rarity id: nine tiers, each a pair
/// of id ranges, or `None` for an id outside every tier.
pub open spec fn spec_base_rate(bear_id: u64) -> Option<u64> {
    if 1 <= bear_id <= 1920 || 8001 <= bear_id <= 8480 {
        Some(10u64)
    } else if 1921 <= bear_id <= 3520 || 8481 <= bear_id <= 8880 {
        Some(14u64)
    } else if 3521 <= bear_id <= 4880 || 8881 <= bear_id <= 9220 {
        Some(17u64)
    } else if 4881 <= bear_id <= 6000 || 9221 <= bear_id <= 9500 {
        Some(20u64)
    } else if 6001 <= bear_id <= 6880 || 9501 <= bear_id <= 9720 {
        Some(22u64)
    } else if 6881 <= bear_id <= 7520 || 9721 <= bear_id <= 9880 {
        Some(24u64)
    } else if 7521 <= bear_id <= 7920 || 9881 <= bear_id <= 9980 {
        Some(26u64)
    } else if 7921 <= bear_id <= 7992 || 9981 <= bear_id <= 9998 {
        Some(30u64)
    } else if 7993 <= bear_id <= 8000 || 9999 <= bear_id <= 10000 {
        Some(100u64)
    } else {
        None
    }
}

/// True when the primary rarity id falls inside one of the nine tiers.
pub open spec fn tier_defined(bear_id: u64) -> bool {
    spec_base_rate(bear_id) is Some
}

/// The companion-item multiplier, scaled by [`crate::MULTIPLIER_UNIT`].
/// A companion id of 0 means "no companion" and maps to a multiplier of 1.0,
/// as does any id outside the four multiplier ranges.
pub open spec fn spec_box_multiplier(box_id: u64) -> u64 {
    if 1 <= box_id <= 5000 {
        1_100_000_000u64
    } else if 5001 <= box_id <= 8000 {
        1_200_000_000u64
    } else if 8001 <= box_id <= 9500 {
        1_300_000_000u64
    } else if 9501 <= box_id <= 10000 {
        1_500_000_000u64
    } else {
        1_000_000_000u64
    }
}

/// The resolved reward rate of an item: base rate times scaled multiplier,
/// meaningful only when the item's tier is defined.
pub open spec fn spec_nft_rate(bear_id: u64, box_id: u64) -> int {
    spec_base_rate(bear_id)->Some_0 * spec_box_multiplier(box_id)
}

/// A defined base rate lies between 10 and 100, so a resolved rate fits
/// comfortably in a `u64`.
pub proof fn lemma_rate_bounds(bear_id: u64, box_id: u64)
    requires
        tier_defined(bear_id),
    ensures
        10 <= spec_base_rate(bear_id)->Some_0 <= 100,
        1_000_000_000 <= spec_box_multiplier(box_id) <= 1_500_000_000,
        10_000_000_000 <= spec_nft_rate(bear_id, box_id) <= 150_000_000_000,
{
}

/// Resolves the base reward rate of a primary rarity id, or reports that the
/// id belongs to no tier.
pub fn reward_rate(bear_id: u64) -> (r: Result<u64, StakingError>)
    ensures
        r is Ok <==> tier_defined(bear_id),
        r matches Ok(v) ==> Some(v) == spec_base_rate(bear_id),
        r matches Err(e) ==> e == StakingError::UnknownRarityTier,
{
    if 1 <= bear_id && bear_id <= 1920 || 8001 <= bear_id && bear_id <= 8480 {
        Ok(10)
    } else if 1921 <= bear_id && bear_id <= 3520 || 8481 <= bear_id && bear_id <= 8880 {
        Ok(14)
    } else if 3521 <= bear_id && bear_id <= 4880 || 8881 <= bear_id && bear_id <= 9220 {
        Ok(17)
    } else if 4881 <= bear_id && bear_id <= 6000 || 9221 <= bear_id && bear_id <= 9500 {
        Ok(20)
    } else if 6001 <= bear_id && bear_id <= 6880 || 9501 <= bear_id && bear_id <= 9720 {
        Ok(22)
    } else if 6881 <= bear_id && bear_id <= 7520 || 9721 <= bear_id && bear_id <= 9880 {
        Ok(24)
    } else if 7521 <= bear_id && bear_id <= 7920 || 9881 <= bear_id && bear_id <= 9980 {
        Ok(26)
    } else if 7921 <= bear_id && bear_id <= 7992 || 9981 <= bear_id && bear_id <= 9998 {
        Ok(30)
    } else if 7993 <= bear_id && bear_id <= 8000 || 9999 <= bear_id && bear_id <= 10000 {
        Ok(100)
    } else {
        Err(StakingError::UnknownRarityTier)
    }
}

/// Resolves the scaled multiplier of a companion rarity id; never fails.
pub fn box_multiplier(box_id: u64) -> (r: u64)
    ensures
        r == spec_box_multiplier(box_id),
{
    if 1 <= box_id && box_id <= 5000 {
        1_100_000_000
    } else if 5001 <= box_id && box_id <= 8000 {
        1_200_000_000
    } else if 8001 <= box_id && box_id <= 9500 {
        1_300_000_000
    } else if 9501 <= box_id && box_id <= 10000 {
        1_500_000_000
    } else {
        1_000_000_000
    }
}

/// Resolves the full scaled reward rate of an item, or reports an undefined
/// tier.
pub fn nft_rate(bear_id: u64, box_id: u64) -> (r: Result<u64, StakingError>)
    ensures
        r is Ok <==> tier_defined(bear_id),
        r matches Ok(v) ==> v == spec_nft_rate(bear_id, box_id),
        r matches Err(e) ==> e == StakingError::UnknownRarityTier,
{
    let base = reward_rate(bear_id)?;
    let mult = box_multiplier(box_id);
    proof {
        lemma_rate_bounds(bear_id, box_id);
    }
    Ok(base * mult)
}

} // verus!
