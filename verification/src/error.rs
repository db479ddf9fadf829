//! The error taxonomy of the staking ledger.
//!
//! Every error is detected before any mutating write, so a failed operation
//! leaves the ledger unchanged.

use vstd::prelude::*;

verus! {

/// Everything a ledger operation can report to its caller.
#[derive(Clone, Copy, Debug, PartialEq, Eq, Structural)]
pub enum StakingError {
    /// A withdraw targeted an asset that is not present in the ledger.
    RecordNotFound,
    /// A record's primary rarity id falls outside all defined rate tiers.
    UnknownRarityTier,
    /// A deposit's item failed collection-membership verification.
    UnknownOrNotAllowedCollection,
    /// An item's display label held no parsable numeric identifier.
    MetadataParseError,
    /// The caller of a ledger operation is not the ledger's registered owner.
    NotLedgerOwner,
    /// The ledger already holds the maximum number of staked records.
    CapacityExceeded,
    /// A claim was attempted before a full day had elapsed since the last one.
    ClaimTooSoon,
    /// The reward reserve holds less than the computed payout.
    InsufficientRewardReserve,
}

} // verus!
