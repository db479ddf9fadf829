//! The persisted staking state: one global registry, one ledger per
//! participant, and the fixed-capacity staked-record store inside each
//! ledger.
//!
//! A ledger's record store is an arena-style buffer of
//! [`crate::STAKE_MAX_COUNT`] slots with an explicit in-use count; insertion
//! appends at the count, removal is an O(1) swap-remove that relocates the
//! last in-use record into the freed slot.  Contracts speak about the
//! abstract [`PoolModel`] view, whose `records` sequence holds exactly the
//! in-use slots in their current order.

use vstd::prelude::*;

use crate::accrual::{accrued_reward, spec_accrued};
use crate::error::StakingError;
use crate::rate::tier_defined;
use crate::STAKE_MAX_COUNT;

verus! {

/// A 32-byte identity: a participant, an item, or the administrator.
/// The all-zero value is the null handle ("no companion item attached").
#[derive(Clone, Copy, Debug, PartialEq, Eq, Structural)]
pub struct AccountId {
    pub w0: u64,
    pub w1: u64,
    pub w2: u64,
    pub w3: u64,
}

impl Default for AccountId {
    /// The null handle.
    fn default() -> (d: AccountId)
        ensures
            d == (AccountId { w0: 0, w1: 0, w2: 0, w3: 0 }),
    {
        AccountId { w0: 0, w1: 0, w2: 0, w3: 0 }
    }
}

/// One deposited item: the staked collectible, its rarity id, an optional
/// companion item (null handle and rarity 0 mean "none"), and the deposit
/// time in seconds.
#[derive(Clone, Copy, Debug, PartialEq, Eq, Structural)]
pub struct StakedData {
    pub bear_mint: AccountId,
    pub bear_id: u64,
    pub box_mint: AccountId,
    pub box_id: u64,
    pub staked_time: i64,
}

impl Default for StakedData {
    /// An empty slot: null handles, rarity 0, time 0.
    fn default() -> (d: StakedData)
        ensures
            d == (StakedData {
                bear_mint: AccountId { w0: 0, w1: 0, w2: 0, w3: 0 },
                bear_id: 0,
                box_mint: AccountId { w0: 0, w1: 0, w2: 0, w3: 0 },
                box_id: 0,
                staked_time: 0,
            }),
    {
        StakedData {
            bear_mint: AccountId { w0: 0, w1: 0, w2: 0, w3: 0 },
            bear_id: 0,
            box_mint: AccountId { w0: 0, w1: 0, w2: 0, w3: 0 },
            box_id: 0,
            staked_time: 0,
        }
    }
}

/// The process-wide registry: the administrator identity and the total
/// number of records currently staked across all ledgers.
#[derive(Clone, Copy, Debug, PartialEq, Eq, Structural)]
pub struct GlobalPool {
    pub super_admin: AccountId,
    pub total_staked_count: u64,
}

impl Default for GlobalPool {
    /// The registry before initialization: null administrator, nothing staked.
    fn default() -> (d: GlobalPool)
        ensures
            d == (GlobalPool { super_admin: AccountId { w0: 0, w1: 0, w2: 0, w3: 0 }, total_staked_count: 0 }),
    {
        GlobalPool { super_admin: AccountId { w0: 0, w1: 0, w2: 0, w3: 0 }, total_staked_count: 0 }
    }
}

/// The abstract state of one participant's ledger: its scalar fields plus
/// the sequence of in-use staked records.
#[verifier::ext_equal]
pub struct PoolModel {
    pub owner: AccountId,
    pub last_claimed_time: i64,
    pub pending_reward: u64,
    pub mission_completed: bool,
    pub records: Seq<StakedData>,
}

/// One participant's ledger: identity, claim cycle state, the one-shot
/// mission flag, and the fixed-capacity record store.
pub struct UserPool {
    pub owner: AccountId,
    pub last_claimed_time: i64,
    pub pending_reward: u64,
    pub staked_count: u64,
    pub mission_completed: bool,
    pub staked_nfts: Vec<StakedData>,
}

impl Default for UserPool {
    /// A freshly allocated ledger: null owner, zeroed clock and counters,
    /// mission not yet completed, and every slot empty.
    fn default() -> (d: UserPool)
        ensures
            d.wf(),
            d@ == (PoolModel {
                owner: AccountId { w0: 0, w1: 0, w2: 0, w3: 0 },
                last_claimed_time: 0,
                pending_reward: 0,
                mission_completed: false,
                records: Seq::<StakedData>::empty(),
            }),
            d.staked_count == 0,
    {
        let mut staked_nfts: Vec<StakedData> = Vec::new();
        let mut i: usize = 0;
        while i < STAKE_MAX_COUNT
            invariant
                staked_nfts@.len() == i,
                i <= STAKE_MAX_COUNT,
            decreases STAKE_MAX_COUNT - i,
        {
            staked_nfts.push(StakedData::default());
            i = i + 1;
        }
        let d = UserPool {
            owner: AccountId { w0: 0, w1: 0, w2: 0, w3: 0 },
            last_claimed_time: 0,
            pending_reward: 0,
            staked_count: 0,
            mission_completed: false,
            staked_nfts,
        };
        proof {
            assert(d@.records =~= Seq::<StakedData>::empty());
            assert(d@ =~= (PoolModel {
                owner: AccountId { w0: 0, w1: 0, w2: 0, w3: 0 },
                last_claimed_time: 0,
                pending_reward: 0,
                mission_completed: false,
                records: Seq::<StakedData>::empty(),
            }));
        }
        d
    }
}

impl View for UserPool {
    type V = PoolModel;

    open spec fn view(&self) -> PoolModel {
        PoolModel {
            owner: self.owner,
            last_claimed_time: self.last_claimed_time,
            pending_reward: self.pending_reward,
            mission_completed: self.mission_completed,
            records: self.staked_nfts@.take(self.staked_count as int),
        }
    }
}

impl UserPool {
    /// Well-formedness: the buffer holds exactly the capacity's worth of
    /// slots, the in-use count fits the capacity, and every timestamp the
    /// ledger carries is non-negative (times are seconds since a fixed
    /// epoch).
    pub open spec fn wf(&self) -> bool {
        &&& self.staked_nfts@.len() == STAKE_MAX_COUNT
        &&& self.staked_count <= STAKE_MAX_COUNT
        &&& 0 <= self.last_claimed_time
        &&& forall|i: int|
            0 <= i < self.staked_count ==> 0 <= #[trigger] self.staked_nfts@[i].staked_time
    }

    /// Appends a record for the given item at the first unused slot, or
    /// fails with `CapacityExceeded` when every slot is in use.
    pub fn add_nft(
        &mut self,
        bear_nft: AccountId,
        bear_id: u64,
        box_nft: AccountId,
        box_id: u64,
        now: i64,
    ) -> (r: Result<(), StakingError>)
        requires
            old(self).wf(),
            0 <= now,
        ensures
            final(self).wf(),
            r is Ok <==> old(self).staked_count < STAKE_MAX_COUNT,
            r matches Err(e) ==> e == StakingError::CapacityExceeded && *final(self) == *old(self),
            r is Ok ==> final(self)@ == (PoolModel {
                records: old(self)@.records.push(StakedData {
                    bear_mint: bear_nft,
                    bear_id,
                    box_mint: box_nft,
                    box_id,
                    staked_time: now,
                }),
                ..old(self)@
            }),
            r is Ok ==> final(self).staked_count == old(self).staked_count + 1,
    {
        if self.staked_count >= STAKE_MAX_COUNT as u64 {
            return Err(StakingError::CapacityExceeded);
        }
        let idx: usize = self.staked_count as usize;
        let rec = StakedData { bear_mint: bear_nft, bear_id, box_mint: box_nft, box_id, staked_time: now };
        self.staked_nfts[idx] = rec;
        self.staked_count = self.staked_count + 1;
        proof {
            assert(self@.records =~= old(self)@.records.push(rec));
            assert(self@ =~= (PoolModel { records: old(self)@.records.push(rec), ..old(self)@ }));
        }
        Ok(())
    }

    /// Linear scan over the in-use records; returns the index of the first
    /// record staking the given item, if any.
    pub fn find_nft(&self, bear_nft: &AccountId) -> (r: Option<usize>)
        requires
            self.wf(),
        ensures
            r matches Some(i) ==> is_first_match(self@.records, *bear_nft, i as int),
            r is None ==> !has_mint(self@.records, *bear_nft),
    {
        let count: usize = self.staked_count as usize;
        let mut i: usize = 0;
        while i < count
            invariant
                self.wf(),
                count == self.staked_count,
                i <= count,
                forall|j: int| 0 <= j < i ==> self@.records[j].bear_mint != *bear_nft,
            decreases count - i,
        {
            if self.staked_nfts[i].bear_mint == *bear_nft {
                return Some(i);
            }
            i = i + 1;
        }
        None
    }
}

impl UserPool {
    /// Withdraws the first record staking the given item: folds the
    /// record's earned reward into `pending_reward`, swap-removes the
    /// record, and leaves everything else unchanged.  Fails with
    /// `RecordNotFound` when no record stakes the item and with
    /// `UnknownRarityTier` when the found record's rarity id lies in no
    /// tier; a failed call leaves the ledger unchanged.
    pub fn remove_nft(&mut self, bear_nft: AccountId, now: i64) -> (r: Result<(), StakingError>)
        requires
            old(self).wf(),
            old(self).last_claimed_time <= now,
            forall|i: int|
                0 <= i < old(self)@.records.len()
                    ==> #[trigger] old(self)@.records[i].staked_time <= now,
            forall|i: int|
                is_first_match(old(self)@.records, bear_nft, i)
                    ==> old(self).pending_reward + spec_accrued(
                    old(self)@.records[i],
                    old(self).last_claimed_time,
                    now,
                ) <= u64::MAX,
        ensures
            final(self).wf(),
            r is Ok <==> has_mint(old(self)@.records, bear_nft) && tier_defined(
                old(self)@.records[first_match_idx(old(self)@.records, bear_nft)].bear_id,
            ),
            r matches Err(e) ==> *final(self) == *old(self) && e == (
            if !has_mint(old(self)@.records, bear_nft) {
                StakingError::RecordNotFound
            } else {
                StakingError::UnknownRarityTier
            }),
            r is Ok ==> final(self)@ == spec_withdraw_at(
                old(self)@,
                first_match_idx(old(self)@.records, bear_nft),
                now,
            ),
            r is Ok ==> final(self).staked_count == old(self).staked_count - 1,
    {
        let index: usize = match self.find_nft(&bear_nft) {
            Some(i) => i,
            None => {
                return Err(StakingError::RecordNotFound);
            },
        };
        proof {
            lemma_first_match_unique(self@.records, bear_nft, index as int);
        }
        let rec = self.staked_nfts[index];
        let reward: u64 = match accrued_reward(&rec, self.last_claimed_time, now) {
            Ok(v) => v,
            Err(e) => {
                return Err(e);
            },
        };
        self.pending_reward = self.pending_reward + reward;
        let last_idx: usize = (self.staked_count - 1) as usize;
        if index != last_idx {
            let last_rec = self.staked_nfts[last_idx];
            self.staked_nfts[index] = last_rec;
        }
        self.staked_count = self.staked_count - 1;
        proof {
            assert(self@.records =~= spec_swap_remove(old(self)@.records, index as int));
            assert(self@ =~= spec_withdraw_at(old(self)@, index as int, now));
        }
        Ok(())
    }
}

/// Index `i` holds the first record in `records` staking the item `mint`.
pub open spec fn is_first_match(records: Seq<StakedData>, mint: AccountId, i: int) -> bool {
    &&& 0 <= i < records.len()
    &&& records[i].bear_mint == mint
    &&& forall|j: int| 0 <= j < i ==> records[j].bear_mint != mint
}

/// Some in-use record stakes the item `mint`.
pub open spec fn has_mint(records: Seq<StakedData>, mint: AccountId) -> bool {
    exists|i: int| 0 <= i < records.len() && records[i].bear_mint == mint
}

/// The index of the first record staking `mint`; meaningful only when
/// `has_mint` holds.
pub open spec fn first_match_idx(records: Seq<StakedData>, mint: AccountId) -> int {
    choose|i: int| is_first_match(records, mint, i)
}

/// A sequence has at most one first match, so `first_match_idx` names the
/// index that any search finds.
pub proof fn lemma_first_match_unique(records: Seq<StakedData>, mint: AccountId, i: int)
    requires
        is_first_match(records, mint, i),
    ensures
        has_mint(records, mint),
        first_match_idx(records, mint) == i,
{
    assert(has_mint(records, mint));
    let k = first_match_idx(records, mint);
    assert(is_first_match(records, mint, k));
    if k < i {
        assert(records[k].bear_mint != mint);
    } else if i < k {
        assert(records[i].bear_mint != mint);
    }
}

/// The record sequence after a swap-remove at index `i`: the last record
/// relocates into slot `i` and the length shrinks by one.
pub open spec fn spec_swap_remove(s: Seq<StakedData>, i: int) -> Seq<StakedData> {
    s.update(i, s.last()).drop_last()
}

/// The ledger after a successful deposit of `rec`: the record is appended,
/// the one-shot mission flag is set, and everything else keeps its value.
pub open spec fn spec_deposit(m: PoolModel, rec: StakedData) -> PoolModel {
    PoolModel { mission_completed: true, records: m.records.push(rec), ..m }
}

/// The ledger after a successful withdraw of the record at index `i`: its
/// earned reward moves into `pending_reward` and the record is
/// swap-removed.
pub open spec fn spec_withdraw_at(m: PoolModel, i: int, now: i64) -> PoolModel {
    PoolModel {
        pending_reward: (m.pending_reward + spec_accrued(m.records[i], m.last_claimed_time, now)) as u64,
        records: spec_swap_remove(m.records, i),
        ..m
    }
}

/// The ledger after a successful claim at `now`: the claim clock restarts,
/// the carried pending reward is paid out and zeroed, and the staked
/// records themselves stay untouched.
pub open spec fn spec_claim(m: PoolModel, now: i64) -> PoolModel {
    PoolModel { last_claimed_time: now, pending_reward: 0, ..m }
}

} // verus!
