//! The mathematical model of the ledger and the read projections over it.
//!
//! A `SignalsState` is viewed as a `StateView`: the bets as a sequence in
//! insertion order, and the column pools as a total map from timestamp to
//! accumulated stake (zero for columns nobody has bet on).

use vstd::prelude::*;

use crate::{BetId, BetInfo, SignalsState};

verus! {

/// The abstract value of a `SignalsState`.
#[verifier::ext_equal]
pub struct StateView {
    pub market_id: Seq<char>,
    pub target_price: u64,
    pub end_time: u64,
    pub is_closed: bool,
    pub final_price: Option<u64>,
    pub bets: Seq<BetInfo>,
    pub pools: Map<u64, u64>,
}

/// The identifier a bet for `(owner, price_level, timestamp)` carries.
pub open spec fn id_of(owner: u64, price_level: u64, timestamp: u64) -> BetId {
    BetId { owner, price_level, timestamp }
}

/// Whether some bet in `bets` carries the identifier `id`.
pub open spec fn has_bet(bets: Seq<BetInfo>, id: BetId) -> bool {
    exists|i: int| 0 <= i < bets.len() && bets[i].bet_id == id
}

/// The bet in `bets` that carries `id` (meaningful when `has_bet` holds and
/// identifiers are unique).
pub open spec fn bet_at(bets: Seq<BetInfo>, id: BetId) -> BetInfo {
    bets[choose|i: int| 0 <= i < bets.len() && bets[i].bet_id == id]
}

/// The bet with identifier `id`, if any.
pub open spec fn spec_get_bet(bets: Seq<BetInfo>, id: BetId) -> Option<BetInfo> {
    if has_bet(bets, id) {
        Some(bet_at(bets, id))
    } else {
        None
    }
}

/// No two bets share an identifier.
pub open spec fn ids_unique(bets: Seq<BetInfo>) -> bool {
    forall|i: int, j: int|
        0 <= i < j < bets.len() ==> bets[i].bet_id != bets[j].bet_id
}

/// Every bet's identifier is the one derived from its own fields.
pub open spec fn ids_consistent(bets: Seq<BetInfo>) -> bool {
    forall|i: int|
        0 <= i < bets.len() ==> bets[i].bet_id == id_of(
            bets[i].owner,
            bets[i].price_level,
            bets[i].timestamp,
        )
}

/// The total stake of the column `t`: the sum of `amount` over all bets
/// with that timestamp, claimed or not.
pub open spec fn column_sum(bets: Seq<BetInfo>, t: u64) -> int
    decreases bets.len(),
{
    if bets.len() == 0 {
        0
    } else {
        column_sum(bets.drop_last(), t) + if bets.last().timestamp == t {
            bets.last().amount as int
        } else {
            0
        }
    }
}

/// Whether `b` counts as a winner for `(price_level, timestamp)`: an
/// unclaimed bet at exactly that coordinate.
pub open spec fn is_winner(b: BetInfo, price_level: u64, timestamp: u64) -> bool {
    b.price_level == price_level && b.timestamp == timestamp && !b.claimed
}

/// The number of unclaimed bets at `(price_level, timestamp)`.
pub open spec fn spec_winner_count(bets: Seq<BetInfo>, price_level: u64, timestamp: u64) -> int
    decreases bets.len(),
{
    if bets.len() == 0 {
        0
    } else {
        spec_winner_count(bets.drop_last(), price_level, timestamp) + if is_winner(
            bets.last(),
            price_level,
            timestamp,
        ) {
            1int
        } else {
            0int
        }
    }
}

/// The pool recorded for timestamp `t` in the entry list, or zero when no
/// entry carries that key.
pub open spec fn pool_of(pools: Seq<(u64, u64)>, t: u64) -> u64
    decreases pools.len(),
{
    if pools.len() == 0 {
        0
    } else if pools.last().0 == t {
        pools.last().1
    } else {
        pool_of(pools.drop_last(), t)
    }
}

/// No two pool entries share a timestamp key.
pub open spec fn pool_keys_unique(pools: Seq<(u64, u64)>) -> bool {
    forall|i: int, j: int| 0 <= i < j < pools.len() ==> pools[i].0 != pools[j].0
}

impl StateView {
    /// Well-formedness of the abstract state: bet identifiers are unique and
    /// derived from the bets' own fields, and every column pool equals the
    /// total ever staked on that column.
    pub open spec fn wf(self) -> bool {
        &&& ids_unique(self.bets)
        &&& ids_consistent(self.bets)
        &&& forall|t: u64| #![trigger self.pools[t]]
            self.pools.dom().contains(t) && self.pools[t] == column_sum(self.bets, t)
    }
}

impl View for SignalsState {
    type V = StateView;

    open spec fn view(&self) -> StateView {
        StateView {
            market_id: self.market_id@,
            target_price: self.target_price,
            end_time: self.end_time,
            is_closed: self.is_closed,
            final_price: self.final_price,
            bets: self.bets@,
            pools: Map::new(|t: u64| true, |t: u64| pool_of(self.column_pools@, t)),
        }
    }
}

impl SignalsState {
    /// Well-formedness of the concrete state: the abstract state is well
    /// formed and the pool entry list keeps one entry per timestamp.
    pub open spec fn wf(self) -> bool {
        &&& pool_keys_unique(self.column_pools@)
        &&& self@.wf()
    }
}

/// Pool conservation: in a well-formed state, every column pool equals the
/// sum of `amount` over the bets with that timestamp.
pub proof fn lemma_pool_conservation(v: StateView, t: u64)
    requires
        v.wf(),
    ensures
        v.pools[t] == column_sum(v.bets, t),
{
}

/// A sequence without an entry keyed `t` records no pool for `t`.
pub(crate) proof fn lemma_pool_of_absent(pools: Seq<(u64, u64)>, t: u64)
    requires
        forall|j: int| 0 <= j < pools.len() ==> pools[j].0 != t,
    ensures
        pool_of(pools, t) == 0,
    decreases pools.len(),
{
    if pools.len() > 0 {
        lemma_pool_of_absent(pools.drop_last(), t);
    }
}

/// With unique keys, the entry at `i` keyed `t` is the pool of `t`.
pub(crate) proof fn lemma_pool_of_found(pools: Seq<(u64, u64)>, t: u64, i: int)
    requires
        pool_keys_unique(pools),
        0 <= i < pools.len(),
        pools[i].0 == t,
    ensures
        pool_of(pools, t) == pools[i].1,
    decreases pools.len(),
{
    if i < pools.len() - 1 {
        lemma_pool_of_found(pools.drop_last(), t, i);
    }
}

/// Overwriting the entry keyed `t` changes the pool of `t` and no other.
pub(crate) proof fn lemma_pool_of_update(pools: Seq<(u64, u64)>, i: int, t: u64, v: u64)
    requires
        pool_keys_unique(pools),
        0 <= i < pools.len(),
        pools[i].0 == t,
    ensures
        pool_keys_unique(pools.update(i, (t, v))),
        pool_of(pools.update(i, (t, v)), t) == v,
        forall|u: u64| u != t ==> pool_of(pools.update(i, (t, v)), u) == pool_of(pools, u),
    decreases pools.len(),
{
    let q = pools.update(i, (t, v));
    assert(forall|j: int| 0 <= j < q.len() ==> q[j].0 == pools[j].0);
    if i == pools.len() - 1 {
        assert(q.drop_last() =~= pools.drop_last());
        assert forall|u: u64| u != t implies pool_of(q, u) == pool_of(pools, u) by {
            assert(pool_of(q, u) == pool_of(q.drop_last(), u));
            assert(pool_of(pools, u) == pool_of(pools.drop_last(), u));
        }
    } else {
        lemma_pool_of_update(pools.drop_last(), i, t, v);
        assert(q.drop_last() =~= pools.drop_last().update(i, (t, v)));
        assert(pools[i].0 != pools[pools.len() - 1].0);
        assert(q.last() == pools.last());
        assert(pool_of(q, t) == v);
        assert forall|u: u64| u != t implies pool_of(q, u) == pool_of(pools, u) by {
            if pools.last().0 != u {
                assert(pool_of(q, u) == pool_of(q.drop_last(), u));
                assert(pool_of(pools, u) == pool_of(pools.drop_last(), u));
            }
        }
    }
}

/// Sequences of bets that agree on timestamps and amounts have the same
/// column sums.
pub(crate) proof fn lemma_column_sum_congruent(a: Seq<BetInfo>, b: Seq<BetInfo>, t: u64)
    requires
        a.len() == b.len(),
        forall|i: int|
            0 <= i < a.len() ==> a[i].timestamp == b[i].timestamp && a[i].amount == b[i].amount,
    ensures
        column_sum(a, t) == column_sum(b, t),
    decreases a.len(),
{
    if a.len() > 0 {
        lemma_column_sum_congruent(a.drop_last(), b.drop_last(), t);
    }
}

/// With unique identifiers, the bet found at an index is the bet its
/// identifier selects.
pub(crate) proof fn lemma_bet_at_index(bets: Seq<BetInfo>, i: int)
    requires
        ids_unique(bets),
        0 <= i < bets.len(),
    ensures
        has_bet(bets, bets[i].bet_id),
        bet_at(bets, bets[i].bet_id) == bets[i],
{
    let id = bets[i].bet_id;
    assert(has_bet(bets, id));
    let j = choose|j: int| 0 <= j < bets.len() && bets[j].bet_id == id;
    if j < i {
        assert(bets[j].bet_id != bets[i].bet_id);
    } else if i < j {
        assert(bets[i].bet_id != bets[j].bet_id);
    }
}

/// The index of the bet carrying `bet_id`, if any.
pub(crate) fn find_bet_index(bets: &Vec<BetInfo>, bet_id: BetId) -> (r: Option<usize>)
    ensures
        match r {
            Some(i) => i < bets@.len() && bets@[i as int].bet_id == bet_id,
            None => !has_bet(bets@, bet_id),
        },
{
    let mut i: usize = 0;
    while i < bets.len()
        invariant
            i <= bets@.len(),
            forall|j: int| 0 <= j < i ==> bets@[j].bet_id != bet_id,
        decreases bets@.len() - i,
    {
        if bets[i].bet_id == bet_id {
            return Some(i);
        }
        i += 1;
    }
    None
}

/// The index of the pool entry keyed `timestamp`, if any.
pub(crate) fn find_pool_index(pools: &Vec<(u64, u64)>, timestamp: u64) -> (r: Option<usize>)
    ensures
        match r {
            Some(i) => i < pools@.len() && pools@[i as int].0 == timestamp,
            None => forall|j: int| 0 <= j < pools@.len() ==> pools@[j].0 != timestamp,
        },
{
    let mut i: usize = 0;
    while i < pools.len()
        invariant
            i <= pools@.len(),
            forall|j: int| 0 <= j < i ==> pools@[j].0 != timestamp,
        decreases pools@.len() - i,
    {
        if pools[i].0 == timestamp {
            return Some(i);
        }
        i += 1;
    }
    None
}

/// Adds `amount` to the pool entry keyed `timestamp`, creating the entry
/// when the column has no stake yet.
pub(crate) fn bump_pool(pools: &mut Vec<(u64, u64)>, timestamp: u64, amount: u64)
    requires
        pool_keys_unique(old(pools)@),
        pool_of(old(pools)@, timestamp) + amount <= u64::MAX,
    ensures
        pool_keys_unique(final(pools)@),
        forall|t: u64|
            pool_of(final(pools)@, t) == (if t == timestamp {
                (pool_of(old(pools)@, timestamp) + amount) as u64
            } else {
                pool_of(old(pools)@, t)
            }),
{
    match find_pool_index(pools, timestamp) {
        Some(i) => {
            proof {
                lemma_pool_of_found(pools@, timestamp, i as int);
            }
            let total = pools[i].1 + amount;
            let ghost before = pools@;
            pools.remove(i);
            pools.insert(i, (timestamp, total));
            proof {
                assert(pools@ =~= before.update(i as int, (timestamp, total)));
                lemma_pool_of_update(before, i as int, timestamp, total);
            }
        },
        None => {
            let ghost before = pools@;
            proof {
                lemma_pool_of_absent(before, timestamp);
            }
            pools.push((timestamp, amount));
            proof {
                assert(pools@.drop_last() =~= before);
                assert(forall|j: int|
                    0 <= j < pools@.len() - 1 ==> pools@[j].0 == before[j].0);
            }
        },
    }
}

/// Looks a bet up by its identifier.
pub fn get_bet_by_id(state: &SignalsState, bet_id: BetId) -> (r: Option<BetInfo>)
    requires
        state.wf(),
    ensures
        r == spec_get_bet(state@.bets, bet_id),
{
    match find_bet_index(&state.bets, bet_id) {
        Some(i) => {
            proof {
                lemma_bet_at_index(state.bets@, i as int);
            }
            Some(state.bets[i])
        },
        None => None,
    }
}

/// Returns the column pool for a timestamp, zero when no bet was ever
/// placed on that column.
pub fn get_column_pool(state: &SignalsState, timestamp: u64) -> (r: u64)
    requires
        state.wf(),
    ensures
        r == state@.pools[timestamp],
{
    match find_pool_index(&state.column_pools, timestamp) {
        Some(i) => {
            proof {
                lemma_pool_of_found(state.column_pools@, timestamp, i as int);
            }
            state.column_pools[i].1
        },
        None => {
            proof {
                lemma_pool_of_absent(state.column_pools@, timestamp);
            }
            0
        },
    }
}

/// Counts the unclaimed bets at `(price_level, timestamp)`.
pub fn count_winners(state: &SignalsState, price_level: u64, timestamp: u64) -> (r: u64)
    ensures
        r as int == spec_winner_count(state@.bets, price_level, timestamp),
{
    let mut count: u64 = 0;
    let mut i: usize = 0;
    while i < state.bets.len()
        invariant
            i <= state.bets@.len(),
            count as int <= i as int,
            count as int == spec_winner_count(
                state.bets@.subrange(0, i as int),
                price_level,
                timestamp,
            ),
        decreases state.bets@.len() - i,
    {
        let b = state.bets[i];
        proof {
            assert(state.bets@.subrange(0, (i + 1) as int).drop_last() =~= state.bets@.subrange(
                0,
                i as int,
            ));
            assert(state.bets@.subrange(0, (i + 1) as int).last() == state.bets@[i as int]);
        }
        if b.price_level == price_level && b.timestamp == timestamp && !b.claimed {
            count = count + 1;
        }
        i += 1;
    }
    proof {
        assert(state.bets@.subrange(0, state.bets@.len() as int) =~= state.bets@);
    }
    count
}

/// The reward a winner at `(price_level, timestamp)` would receive, or
/// `None` when the column has no winners or no stake.
pub open spec fn spec_calculate_reward(v: StateView, price_level: u64, timestamp: u64) -> Option<u64> {
    let w = spec_winner_count(v.bets, price_level, timestamp);
    if w == 0 || v.pools[timestamp] == 0 {
        None
    } else {
        Some((v.pools[timestamp] as int / w) as u64)
    }
}

/// Divides the column pool equally among the current winners.
pub fn calculate_reward(state: &SignalsState, price_level: u64, timestamp: u64) -> (r: Option<u64>)
    requires
        state.wf(),
    ensures
        r == spec_calculate_reward(state@, price_level, timestamp),
{
    let column_pool = get_column_pool(state, timestamp);
    let winners_count = count_winners(state, price_level, timestamp);
    if winners_count == 0 || column_pool == 0 {
        return None;
    }
    Some(column_pool / winners_count)
}

} // verus!
