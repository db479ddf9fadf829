//! Laws of the ledger: properties that relate several operations, proved
//! over the abstract [`PoolModel`] transitions that the operations'
//! contracts are stated with.

use vstd::prelude::*;

use crate::account::{
    first_match_idx, has_mint, is_first_match, lemma_first_match_unique, spec_claim, spec_deposit,
    spec_swap_remove, spec_withdraw_at, AccountId, PoolModel, StakedData,
};
use crate::accrual::{spec_accrued, spec_baseline, spec_elapsed_days};

verus! {

/// Withdrawing a ledger's only record of an item removes that item for
/// good: after the swap-remove, no lookup of the item's mint finds a
/// record.
pub proof fn lemma_withdraw_removes_mint(records: Seq<StakedData>, mint: AccountId, i: int)
    requires
        0 <= i < records.len(),
        records[i].bear_mint == mint,
        forall|j: int|
            0 <= j < records.len() && j != i ==> #[trigger] records[j].bear_mint != mint,
    ensures
        !has_mint(spec_swap_remove(records, i), mint),
{
    let s = spec_swap_remove(records, i);
    assert forall|j: int| 0 <= j < s.len() implies #[trigger] s[j].bear_mint != mint by {
        if j == i {
            assert(s[j] == records[records.len() - 1]);
        } else {
            assert(s[j] == records[j]);
        }
    }
}

/// Round trip: depositing a fresh item and withdrawing it at the same
/// instant accrues nothing — the elapsed day count is zero, the pending
/// reward carries over unchanged, and the record store returns to exactly
/// its old contents (only the one-shot mission flag may have flipped to
/// true).
pub proof fn lemma_deposit_withdraw_round_trip(m: PoolModel, rec: StakedData, now: i64)
    requires
        m.last_claimed_time <= now,
        rec.staked_time == now,
        !has_mint(m.records, rec.bear_mint),
    ensures
        spec_elapsed_days(rec, m.last_claimed_time, now) == 0,
        spec_accrued(rec, m.last_claimed_time, now) == 0,
        first_match_idx(spec_deposit(m, rec).records, rec.bear_mint) == m.records.len(),
        spec_withdraw_at(spec_deposit(m, rec), m.records.len() as int, now) == (PoolModel {
            mission_completed: true,
            ..m
        }),
{
    assert(spec_baseline(m.last_claimed_time, rec.staked_time) == now);
    assert(spec_elapsed_days(rec, m.last_claimed_time, now) == 0);
    let pushed = m.records.push(rec);
    let n = m.records.len() as int;
    assert(is_first_match(pushed, rec.bear_mint, n));
    lemma_first_match_unique(pushed, rec.bear_mint, n);
    assert(spec_swap_remove(pushed, n) =~= m.records);
    assert(spec_withdraw_at(spec_deposit(m, rec), n, now) =~= (PoolModel {
        mission_completed: true,
        ..m
    }));
}

/// The mission bonus fires exactly once: a deposit pays the bonus exactly
/// when the one-shot flag is still clear, every deposit sets the flag, and
/// no withdraw or claim ever clears it — so across any sequence of
/// operations the bonus is paid at most on the participant's first-ever
/// deposit, even after every item is withdrawn and re-deposited.
pub proof fn lemma_mission_flag_permanent(m: PoolModel, rec: StakedData, i: int, now: i64)
    ensures
        spec_deposit(m, rec).mission_completed,
        spec_withdraw_at(m, i, now).mission_completed == m.mission_completed,
        spec_claim(m, now).mission_completed == m.mission_completed,
{
}

/// Three deposits by a fresh participant, then a withdraw of each item and
/// a re-deposit: a deposit pays the bonus exactly when the flag is still
/// clear, so only the very first one pays, and the flag stays set through
/// every later operation.
pub proof fn lemma_mission_bonus_fires_once(
    m: PoolModel,
    r1: StakedData,
    r2: StakedData,
    r3: StakedData,
    i1: int,
    i2: int,
    i3: int,
    now: i64,
    r4: StakedData,
)
    requires
        !m.mission_completed,
    ensures
        ({
            let m1 = spec_deposit(m, r1);
            let m2 = spec_deposit(m1, r2);
            let m3 = spec_deposit(m2, r3);
            let m4 = spec_withdraw_at(m3, i1, now);
            let m5 = spec_withdraw_at(m4, i2, now);
            let m6 = spec_withdraw_at(m5, i3, now);
            // the flag is clear only before the first deposit, so the
            // bonus (paid exactly when the flag is clear) fires once
            &&& !m.mission_completed
            &&& m1.mission_completed
            &&& m2.mission_completed
            &&& m3.mission_completed
            &&& m6.mission_completed
            &&& spec_deposit(m6, r4).mission_completed
        }),
{
}

} // verus!
