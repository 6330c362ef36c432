//! The betting and settlement engine: bet admission, market closing, and
//! reward claiming.
//!
//! Each operation is a single-shot step over the owned ledger state. The
//! host supplies the caller's identity, the current wall-clock time, and the
//! outcome of the one fund transfer an operation may ask for; a transfer
//! either fully succeeds or fully fails. The two-step pairs
//! (`check_place_bet` / `record_bet` and `check_claim_reward` /
//! `record_claim`) let the host validate first, transfer funds only for an
//! admitted operation, and commit the ledger writes only when the transfer
//! succeeded, so that a failed transfer never leaves a partial commit.

use vstd::prelude::*;

use crate::state::{
    bump_pool, column_sum, find_bet_index, has_bet, id_of, ids_unique, lemma_bet_at_index,
    lemma_column_sum_congruent, lemma_pool_conservation, spec_get_bet, spec_winner_count,
    StateView, count_winners, get_column_pool,
};
use crate::{BetId, BetInfo, Error, InitializationArgument, Operation, SignalsApp, SignalsState};

verus! {

/// The state a fresh market starts in: open, unresolved, no bets, all
/// column pools empty.
pub open spec fn spec_init(market_id: Seq<char>, target_price: u64, end_time: u64) -> StateView {
    StateView {
        market_id,
        target_price,
        end_time,
        is_closed: false,
        final_price: None,
        bets: Seq::empty(),
        pools: Map::new(|t: u64| true, |t: u64| 0u64),
    }
}

/// The closing transition: terminal, idempotent, and the only change it
/// makes besides the resolved price.
pub open spec fn spec_close(v: StateView, final_price: Option<u64>) -> StateView {
    StateView { is_closed: true, final_price, ..v }
}

/// The time-based auto-close: the same terminal transition, without a
/// resolved price.
pub open spec fn spec_expire(v: StateView) -> StateView {
    StateView { is_closed: true, ..v }
}

/// The record `place_bet` inserts for an admitted bet.
pub open spec fn spec_new_bet(owner: u64, price_level: u64, timestamp: u64, amount: u64) -> BetInfo {
    BetInfo {
        bet_id: id_of(owner, price_level, timestamp),
        owner,
        price_level,
        timestamp,
        amount,
        claimed: false,
    }
}

/// Admission control for a new bet, checks in order: the market must not be
/// closed, the deadline must not have passed, the identifier derived from
/// `(owner, price_level, timestamp)` must be fresh, and the stake must be a
/// positive transferable quantity.
pub open spec fn spec_check_place(
    v: StateView,
    owner: u64,
    price_level: u64,
    timestamp: u64,
    amount: u64,
    now: u64,
) -> Result<BetId, Error> {
    if v.is_closed {
        Err(Error::MarketClosed)
    } else if now >= v.end_time {
        Err(Error::MarketExpired)
    } else if has_bet(v.bets, id_of(owner, price_level, timestamp)) {
        Err(Error::DuplicateBet)
    } else if amount == 0 {
        Err(Error::TransferFailed)
    } else {
        Ok(id_of(owner, price_level, timestamp))
    }
}

/// The ledger writes of a successful `place_bet`: the new unclaimed bet is
/// appended and its stake is added to its timestamp's column pool.
pub open spec fn spec_place_effect(
    v: StateView,
    owner: u64,
    price_level: u64,
    timestamp: u64,
    amount: u64,
) -> StateView {
    StateView {
        bets: v.bets.push(spec_new_bet(owner, price_level, timestamp, amount)),
        pools: v.pools.insert(timestamp, (v.pools[timestamp] + amount) as u64),
        ..v
    }
}

/// Validation of a claim, checks in order: the bet must exist and be
/// unclaimed, the caller must own it, the market must be closed, the
/// column must have a winner, and the floor-divided reward must not be
/// zero. On success the reward is the bet's column pool divided by the
/// number of currently unclaimed bets at the bet's exact
/// `(price_level, timestamp)` pair, the claiming bet included.
pub open spec fn spec_check_claim(v: StateView, caller: u64, bet_id: BetId) -> Result<u64, Error> {
    match spec_get_bet(v.bets, bet_id) {
        Option::None => Err(Error::BetNotFound),
        Option::Some(bet) => {
            if bet.claimed {
                Err(Error::AlreadyClaimed)
            } else if bet.owner != caller {
                Err(Error::NotOwner)
            } else if !v.is_closed {
                Err(Error::MarketNotClosed)
            } else {
                let winners = spec_winner_count(v.bets, bet.price_level, bet.timestamp);
                if winners == 0 {
                    Err(Error::NoWinners)
                } else {
                    let reward = v.pools[bet.timestamp] as int / winners;
                    if reward == 0 {
                        Err(Error::ZeroReward)
                    } else {
                        Ok(reward as u64)
                    }
                }
            }
        },
    }
}

/// The claimed copy of a bet.
pub open spec fn spec_mark_claimed(b: BetInfo) -> BetInfo {
    BetInfo { claimed: true, ..b }
}

/// The ledger write of a successful `claim_reward`: the bet is marked
/// claimed; the column pools stay exactly as they are.
pub open spec fn spec_claim_effect(v: StateView, bet_id: BetId) -> StateView {
    StateView {
        bets: v.bets.map(
            |i: int, b: BetInfo|
                if b.bet_id == bet_id {
                    spec_mark_claimed(b)
                } else {
                    b
                },
        ),
        ..v
    }
}

impl SignalsApp {
    /// Establishes the market: runs exactly once, before any bet operation.
    pub fn initialize(argument: InitializationArgument) -> (app: SignalsApp)
        ensures
            app.state.wf(),
            app.state@ == spec_init(argument.market_id@, argument.target_price, argument.end_time),
    {
        let state = SignalsState {
            market_id: argument.market_id,
            target_price: argument.target_price,
            end_time: argument.end_time,
            is_closed: false,
            final_price: None,
            bets: Vec::new(),
            column_pools: Vec::new(),
        };
        proof {
            assert(state@ =~= spec_init(state.market_id@, state.target_price, state.end_time));
        }
        SignalsApp { state }
    }

    /// The explicit closing action; it may also resolve the final price.
    /// Closing an already closed market is a no-op but for the price.
    pub fn close_market(&mut self, final_price: Option<u64>)
        requires
            old(self).state.wf(),
        ensures
            final(self).state.wf(),
            final(self).state@ == spec_close(old(self).state@, final_price),
    {
        self.state.is_closed = true;
        self.state.final_price = final_price;
        proof {
            assert(self.state@ =~= spec_close(old(self).state@, final_price));
        }
    }

    /// The idempotent time-based close: once the deadline has passed, any
    /// call flips the market to closed; it never reopens it.
    pub fn evaluate_expiry(&mut self, now: u64) -> (closed: bool)
        requires
            old(self).state.wf(),
        ensures
            final(self).state.wf(),
            closed == final(self).state.is_closed,
            final(self).state.is_closed == (old(self).state.is_closed
                || now >= old(self).state.end_time),
            final(self).state@ == (if !old(self).state.is_closed && now >= old(self).state.end_time {
                spec_expire(old(self).state@)
            } else {
                old(self).state@
            }),
    {
        if now >= self.state.end_time {
            self.state.is_closed = true;
            proof {
                if !old(self).state.is_closed {
                    assert(self.state@ =~= spec_expire(old(self).state@));
                } else {
                    assert(self.state@ =~= old(self).state@);
                }
            }
        }
        self.state.is_closed
    }

    /// Admission control for `place_bet`: validates without writing, except
    /// for the time-based auto-close, which commits even though the call
    /// fails. `Ok` hands back the new bet's identifier and means the host
    /// should now transfer the stake into escrow and, if that succeeds,
    /// commit with `record_bet`.
    pub fn check_place_bet(
        &mut self,
        owner: u64,
        price_level: u64,
        timestamp: u64,
        amount: u64,
        now: u64,
    ) -> (r: Result<BetId, Error>)
        requires
            old(self).state.wf(),
        ensures
            final(self).state.wf(),
            r == spec_check_place(old(self).state@, owner, price_level, timestamp, amount, now),
            final(self).state@ == (if !old(self).state.is_closed && now >= old(self).state.end_time {
                spec_expire(old(self).state@)
            } else {
                old(self).state@
            }),
    {
        if self.state.is_closed {
            return Err(Error::MarketClosed);
        }
        if now >= self.state.end_time {
            self.state.is_closed = true;
            proof {
                assert(self.state@ =~= spec_expire(old(self).state@));
            }
            return Err(Error::MarketExpired);
        }
        let bet_id = BetId { owner, price_level, timestamp };
        if find_bet_index(&self.state.bets, bet_id).is_some() {
            return Err(Error::DuplicateBet);
        }
        if amount == 0 {
            return Err(Error::TransferFailed);
        }
        Ok(bet_id)
    }

    /// Commits an admitted bet once its stake has reached escrow: inserts
    /// the unclaimed bet and adds the stake to its column pool.
    pub fn record_bet(&mut self, owner: u64, price_level: u64, timestamp: u64, amount: u64)
        requires
            old(self).state.wf(),
            !has_bet(old(self).state@.bets, id_of(owner, price_level, timestamp)),
            old(self).state@.pools[timestamp] + amount <= u64::MAX,
        ensures
            final(self).state.wf(),
            final(self).state@ == spec_place_effect(
                old(self).state@,
                owner,
                price_level,
                timestamp,
                amount,
            ),
    {
        let bet = BetInfo {
            bet_id: BetId { owner, price_level, timestamp },
            owner,
            price_level,
            timestamp,
            amount,
            claimed: false,
        };
        self.state.bets.push(bet);
        proof {
            lemma_pool_conservation(old(self).state@, timestamp);
        }
        bump_pool(&mut self.state.column_pools, timestamp, amount);
        proof {
            let pre = old(self).state@;
            let post = spec_place_effect(pre, owner, price_level, timestamp, amount);
            assert(self.state.bets@.drop_last() =~= pre.bets);
            assert(self.state@ =~= post) by {
                assert forall|t: u64| #[trigger] self.state@.pools[t] == post.pools[t] by {
                    lemma_pool_conservation(pre, t);
                }
            }
            assert forall|t: u64| #[trigger] post.pools[t] == column_sum(post.bets, t) by {
                lemma_pool_conservation(pre, t);
                assert(post.bets.drop_last() =~= pre.bets);
            }
            assert(ids_unique(post.bets)) by {
                assert(forall|i: int|
                    0 <= i < pre.bets.len() ==> pre.bets[i].bet_id != id_of(
                        owner,
                        price_level,
                        timestamp,
                    ));
            }
        }
    }

    /// Place a bet on a price level at a specific timestamp. `transfer_ok`
    /// is the outcome of the stake transfer from the caller to escrow; it
    /// is consulted only once the bet is admitted, and a failed transfer
    /// commits nothing.
    pub fn place_bet(
        &mut self,
        owner: u64,
        price_level: u64,
        timestamp: u64,
        amount: u64,
        now: u64,
        transfer_ok: bool,
    ) -> (r: Result<(), Error>)
        requires
            old(self).state.wf(),
            spec_check_place(old(self).state@, owner, price_level, timestamp, amount, now) is Ok
                && transfer_ok ==> old(self).state@.pools[timestamp] + amount <= u64::MAX,
        ensures
            final(self).state.wf(),
            r == (match spec_check_place(
                old(self).state@,
                owner,
                price_level,
                timestamp,
                amount,
                now,
            ) {
                Result::Ok(_) => if transfer_ok {
                    Result::<(), Error>::Ok(())
                } else {
                    Result::<(), Error>::Err(Error::TransferFailed)
                },
                Result::Err(e) => Result::<(), Error>::Err(e),
            }),
            final(self).state@ == (if spec_check_place(
                old(self).state@,
                owner,
                price_level,
                timestamp,
                amount,
                now,
            ) is Ok && transfer_ok {
                spec_place_effect(old(self).state@, owner, price_level, timestamp, amount)
            } else if !old(self).state.is_closed && now >= old(self).state.end_time {
                spec_expire(old(self).state@)
            } else {
                old(self).state@
            }),
    {
        match self.check_place_bet(owner, price_level, timestamp, amount, now) {
            Err(e) => Err(e),
            Ok(_) => {
                if !transfer_ok {
                    return Err(Error::TransferFailed);
                }
                self.record_bet(owner, price_level, timestamp, amount);
                Ok(())
            },
        }
    }

    /// Validation of a claim, without writing: on `Ok` it hands back the
    /// reward the caller is owed, and the host should now transfer that
    /// reward out of escrow and, if that succeeds, commit with
    /// `record_claim`.
    pub fn check_claim_reward(&self, caller: u64, bet_id: BetId) -> (r: Result<u64, Error>)
        requires
            self.state.wf(),
        ensures
            r == spec_check_claim(self.state@, caller, bet_id),
    {
        let i = match find_bet_index(&self.state.bets, bet_id) {
            Some(i) => i,
            None => {
                return Err(Error::BetNotFound);
            },
        };
        proof {
            lemma_bet_at_index(self.state.bets@, i as int);
        }
        let bet = self.state.bets[i];
        if bet.claimed {
            return Err(Error::AlreadyClaimed);
        }
        if bet.owner != caller {
            return Err(Error::NotOwner);
        }
        if !self.state.is_closed {
            return Err(Error::MarketNotClosed);
        }
        let winners = count_winners(&self.state, bet.price_level, bet.timestamp);
        if winners == 0 {
            return Err(Error::NoWinners);
        }
        let pool = get_column_pool(&self.state, bet.timestamp);
        let reward = pool / winners;
        if reward == 0 {
            return Err(Error::ZeroReward);
        }
        Ok(reward)
    }

    /// Commits a validated claim once the reward has left escrow: marks the
    /// bet claimed and touches nothing else; the column pool is not reduced.
    pub fn record_claim(&mut self, bet_id: BetId)
        requires
            old(self).state.wf(),
            has_bet(old(self).state@.bets, bet_id),
        ensures
            final(self).state.wf(),
            final(self).state@ == spec_claim_effect(old(self).state@, bet_id),
    {
        match find_bet_index(&self.state.bets, bet_id) {
            Some(i) => {
                let mut bet = self.state.bets[i];
                bet.claimed = true;
                let ghost pre = old(self).state@;
                self.state.bets.remove(i);
                self.state.bets.insert(i, bet);
                proof {
                    let post = spec_claim_effect(pre, bet_id);
                    assert(self.state.bets@ =~= pre.bets.update(i as int, bet));
                    assert forall|k: int|
                        0 <= k < pre.bets.len() implies self.state.bets@[k] == post.bets[k] by {
                        if k != i {
                            assert(pre.bets[k].bet_id != pre.bets[i as int].bet_id);
                        }
                    }
                    assert(self.state@ =~= post);
                    assert forall|t: u64| #[trigger] post.pools[t] == column_sum(post.bets, t) by {
                        lemma_pool_conservation(pre, t);
                        lemma_column_sum_congruent(post.bets, pre.bets, t);
                    }
                }
            },
            None => {
                proof {
                    assert(false);
                }
            },
        }
    }

    /// Claim the reward for a winning bet. `transfer_ok` is the outcome of
    /// the reward transfer from escrow to the caller; it is consulted only
    /// once the claim is validated, and a failed transfer commits nothing.
    /// On success the reward paid is returned.
    ///
    /// The winner count is recomputed from the currently unclaimed bets at
    /// every call while the column pool never shrinks, so the rewards of a
    /// column depend on the order in which its winners claim, and their sum
    /// can exceed the column's stake. That is the market's settlement rule
    /// as it stands; whether the pool should instead be split once at
    /// closing time is an open question, left to the escrow's funder.
    pub fn claim_reward(&mut self, caller: u64, bet_id: BetId, transfer_ok: bool) -> (r: Result<
        u64,
        Error,
    >)
        requires
            old(self).state.wf(),
        ensures
            final(self).state.wf(),
            r == (match spec_check_claim(old(self).state@, caller, bet_id) {
                Result::Ok(reward) => if transfer_ok {
                    Result::<u64, Error>::Ok(reward)
                } else {
                    Result::<u64, Error>::Err(Error::TransferFailed)
                },
                Result::Err(e) => Result::<u64, Error>::Err(e),
            }),
            final(self).state@ == (if spec_check_claim(old(self).state@, caller, bet_id) is Ok
                && transfer_ok {
                spec_claim_effect(old(self).state@, bet_id)
            } else {
                old(self).state@
            }),
    {
        let reward = match self.check_claim_reward(caller, bet_id) {
            Err(e) => {
                return Err(e);
            },
            Ok(reward) => reward,
        };
        if !transfer_ok {
            return Err(Error::TransferFailed);
        }
        self.record_claim(bet_id);
        Ok(reward)
    }

    /// Executes one operation sent to the application: dispatches to
    /// `place_bet` or `claim_reward` with the caller's identity, the
    /// current time and the transfer outcome supplied by the host.
    pub fn execute_operation(
        &mut self,
        caller: u64,
        operation: Operation,
        now: u64,
        transfer_ok: bool,
    ) -> (r: Result<(), Error>)
        requires
            old(self).state.wf(),
            operation matches Operation::PlaceBet { price_level, timestamp, amount } ==> (
            spec_check_place(old(self).state@, caller, price_level, timestamp, amount, now) is Ok
                && transfer_ok ==> old(self).state@.pools[timestamp] + amount <= u64::MAX),
        ensures
            final(self).state.wf(),
            r == (match operation {
                Operation::PlaceBet { price_level, timestamp, amount } => match spec_check_place(
                    old(self).state@,
                    caller,
                    price_level,
                    timestamp,
                    amount,
                    now,
                ) {
                    Result::Ok(_) => if transfer_ok {
                        Result::<(), Error>::Ok(())
                    } else {
                        Result::<(), Error>::Err(Error::TransferFailed)
                    },
                    Result::Err(e) => Result::<(), Error>::Err(e),
                },
                Operation::ClaimReward { bet_id } => match spec_check_claim(
                    old(self).state@,
                    caller,
                    bet_id,
                ) {
                    Result::Ok(_) => if transfer_ok {
                        Result::<(), Error>::Ok(())
                    } else {
                        Result::<(), Error>::Err(Error::TransferFailed)
                    },
                    Result::Err(e) => Result::<(), Error>::Err(e),
                },
            }),
            final(self).state@ == (match operation {
                Operation::PlaceBet { price_level, timestamp, amount } => if spec_check_place(
                    old(self).state@,
                    caller,
                    price_level,
                    timestamp,
                    amount,
                    now,
                ) is Ok && transfer_ok {
                    spec_place_effect(old(self).state@, caller, price_level, timestamp, amount)
                } else if !old(self).state.is_closed && now >= old(self).state.end_time {
                    spec_expire(old(self).state@)
                } else {
                    old(self).state@
                },
                Operation::ClaimReward { bet_id } => if spec_check_claim(
                    old(self).state@,
                    caller,
                    bet_id,
                ) is Ok && transfer_ok {
                    spec_claim_effect(old(self).state@, bet_id)
                } else {
                    old(self).state@
                },
            }),
    {
        match operation {
            Operation::PlaceBet { price_level, timestamp, amount } => self.place_bet(
                caller,
                price_level,
                timestamp,
                amount,
                now,
                transfer_ok,
            ),
            Operation::ClaimReward { bet_id } => {
                match self.claim_reward(caller, bet_id, transfer_ok) {
                    Ok(_) => Ok(()),
                    Err(e) => Err(e),
                }
            },
        }
    }
}

/// Idempotent claim: once a claim has succeeded, a second claim of the same
/// bet fails with `AlreadyClaimed`, whoever the second caller is.
pub proof fn lemma_claim_idempotent(v: StateView, caller: u64, second_caller: u64, bet_id: BetId)
    requires
        v.wf(),
        spec_check_claim(v, caller, bet_id) is Ok,
    ensures
        spec_check_claim(spec_claim_effect(v, bet_id), second_caller, bet_id) == Result::<
            u64,
            Error,
        >::Err(Error::AlreadyClaimed),
{
    let w = spec_claim_effect(v, bet_id);
    let i = choose|i: int| 0 <= i < v.bets.len() && v.bets[i].bet_id == bet_id;
    assert(w.bets[i].bet_id == bet_id);
    assert(has_bet(w.bets, bet_id));
    let j = choose|j: int| 0 <= j < w.bets.len() && w.bets[j].bet_id == bet_id;
    assert(v.bets[j].bet_id == bet_id);
    assert(w.bets[j].claimed);
}

/// Duplicate rejection: once a bet for `(owner, price_level, timestamp)` is
/// recorded, a second `place_bet` for the same triple before the deadline
/// fails with `DuplicateBet`, whatever its amount.
pub proof fn lemma_duplicate_rejected(
    v: StateView,
    owner: u64,
    price_level: u64,
    timestamp: u64,
    amount: u64,
    now: u64,
    amount2: u64,
    now2: u64,
)
    requires
        v.wf(),
        spec_check_place(v, owner, price_level, timestamp, amount, now) is Ok,
        now2 < v.end_time,
    ensures
        spec_check_place(
            spec_place_effect(v, owner, price_level, timestamp, amount),
            owner,
            price_level,
            timestamp,
            amount2,
            now2,
        ) == Result::<BetId, Error>::Err(Error::DuplicateBet),
{
    let w = spec_place_effect(v, owner, price_level, timestamp, amount);
    assert(w.bets[v.bets.len() as int].bet_id == id_of(owner, price_level, timestamp));
    assert(has_bet(w.bets, id_of(owner, price_level, timestamp)));
}

/// No late bets: in an open market whose deadline has passed, a bet is
/// rejected with `MarketExpired`, and the auto-close it triggers flips the
/// market to closed without touching the bets or the pools.
pub proof fn lemma_no_late_bets(
    v: StateView,
    owner: u64,
    price_level: u64,
    timestamp: u64,
    amount: u64,
    now: u64,
)
    requires
        !v.is_closed,
        now >= v.end_time,
    ensures
        spec_check_place(v, owner, price_level, timestamp, amount, now) == Result::<
            BetId,
            Error,
        >::Err(Error::MarketExpired),
        spec_expire(v).is_closed,
        spec_expire(v).bets == v.bets,
        spec_expire(v).pools == v.pools,
{
}

/// Authorization: a claim of an existing, still unclaimed bet by anyone but
/// its owner fails with `NotOwner`.
pub proof fn lemma_claim_requires_owner(v: StateView, caller: u64, bet_id: BetId)
    requires
        spec_get_bet(v.bets, bet_id) matches Some(bet) && !bet.claimed && bet.owner != caller,
    ensures
        spec_check_claim(v, caller, bet_id) == Result::<u64, Error>::Err(Error::NotOwner),
{
}

/// Zero-reward guard: when the column pool divided by the winner count
/// floors to zero, an otherwise valid claim fails with `ZeroReward`.
pub proof fn lemma_zero_reward_guard(v: StateView, caller: u64, bet_id: BetId)
    requires
        v.is_closed,
        spec_get_bet(v.bets, bet_id) matches Some(bet) && !bet.claimed && bet.owner == caller
            && spec_winner_count(v.bets, bet.price_level, bet.timestamp) > 0
            && v.pools[bet.timestamp] as int / spec_winner_count(
            v.bets,
            bet.price_level,
            bet.timestamp,
        ) == 0,
    ensures
        spec_check_claim(v, caller, bet_id) == Result::<u64, Error>::Err(Error::ZeroReward),
{
}

/// A claim never changes any column pool.
pub proof fn lemma_claim_preserves_pools(v: StateView, bet_id: BetId)
    ensures
        spec_claim_effect(v, bet_id).pools == v.pools,
{
}

/// A recorded bet raises its own column pool by its amount and leaves every
/// other pool unchanged, so no pool ever decreases.
pub proof fn lemma_place_raises_pool(
    v: StateView,
    owner: u64,
    price_level: u64,
    timestamp: u64,
    amount: u64,
    t: u64,
)
    requires
        v.pools[timestamp] + amount <= u64::MAX,
    ensures
        spec_place_effect(v, owner, price_level, timestamp, amount).pools[timestamp]
            == v.pools[timestamp] + amount,
        t != timestamp ==> spec_place_effect(v, owner, price_level, timestamp, amount).pools[t]
            == v.pools[t],
        spec_place_effect(v, owner, price_level, timestamp, amount).pools[t] >= v.pools[t],
{
}

} // verus!
