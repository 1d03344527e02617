//! Leverage manager: price-context derivation and its supporting math.
//!
//! The leveraged price is derived from the opening baseline by applying the
//! leverage factor to the percentage move of the underlying asset price. All
//! arithmetic is fixed-point over [`crate::PRECISION`] with floor division,
//! checked: overflow, underflow and division by zero surface as
//! [`ContractError::ArithmeticError`].
use vstd::prelude::*;
use crate::PRECISION;
use crate::error::ContractError;
use crate::addr::Addr;
use crate::ledger::Ledger;
use crate::pool::{Hyperparameters, MinterPosition, PoolState, PriceContext, PriceSnapshot, ProviderPosition, multiply_ratio, multiply_ratio_fits, spec_multiply_ratio};

verus! {

/// A new historic price sample is retained about every 15 minutes.
pub const PRICE_DATA_EXPIRY: u64 = 15 * 60;

/// The leverage baseline is reset after 24 hours.
pub const LEVERAGE_EXPIRY: u64 = 24 * 60 * 60;

/// Keep 90 days of price data at the 15-minute resolution.
pub const PRICE_DATA_N: usize = 90 * 24 * 4;

/// The leveraged price that follows from an asset-price move, or `None`
/// where 128-bit checked arithmetic cannot produce it: an intermediate
/// product overflows, the baseline price is zero (the percentage move is
/// undefined), or a downward move is so large that the leveraged price
/// would drop below zero.
pub open spec fn spec_leveraged_price(
    start_asset: int,
    cur_asset: int,
    lev: int,
    start_lev: int,
) -> Option<int> {
    let p = PRECISION as int;
    let max = u128::MAX as int;
    if start_asset == cur_asset {
        Some(start_lev)
    } else if start_asset == 0 {
        None
    } else if start_asset < cur_asset {
        let diff = cur_asset - start_asset;
        if p * diff > max {
            None
        } else {
            let pc = p * diff / start_asset;
            if lev * pc > max {
                None
            } else {
                let lf = p + lev * pc / p;
                if lf > max || start_lev * lf > max {
                    None
                } else {
                    Some(start_lev * lf / p)
                }
            }
        }
    } else {
        let diff = start_asset - cur_asset;
        if p * diff > max {
            None
        } else {
            let pc = p * diff / start_asset;
            if lev * pc > max {
                None
            } else {
                let red = lev * pc / p;
                if red > p {
                    None
                } else {
                    let lf = p - red;
                    if start_lev * lf > max {
                        None
                    } else {
                        Some(start_lev * lf / p)
                    }
                }
            }
        }
    }
}

/// Derive the current leveraged price from the opening baseline.
///
/// Piecewise: an unchanged asset price leaves the leveraged price unchanged;
/// a move of d% scales the starting leveraged price by `1 ± leverage * d%`,
/// fixed-point and floored at each step.
pub fn get_leveraged_price(
    start_asset_price: u128,
    current_asset_price: u128,
    leverage_amount: u128,
    starting_leverage_price: u128,
) -> (r: Result<u128, ContractError>)
    ensures
        (r is Ok) == (spec_leveraged_price(
            start_asset_price as int,
            current_asset_price as int,
            leverage_amount as int,
            starting_leverage_price as int,
        ) is Some),
        r matches Ok(v) ==> spec_leveraged_price(
            start_asset_price as int,
            current_asset_price as int,
            leverage_amount as int,
            starting_leverage_price as int,
        ) == Some(v as int),
        r is Err ==> r == Err::<u128, ContractError>(ContractError::ArithmeticError),
{
    if start_asset_price == current_asset_price {
        return Ok(starting_leverage_price);
    }
    if start_asset_price == 0 {
        return Err(ContractError::ArithmeticError);
    }
    if start_asset_price < current_asset_price {
        let absolute_change = current_asset_price - start_asset_price;
        let scaled = match PRECISION.checked_mul(absolute_change) {
            Some(s) => s,
            None => return Err(ContractError::ArithmeticError),
        };
        let percent_change = scaled / start_asset_price;
        let lev_scaled = match leverage_amount.checked_mul(percent_change) {
            Some(s) => s,
            None => return Err(ContractError::ArithmeticError),
        };
        let leverage_percent_change = match PRECISION.checked_add(lev_scaled / PRECISION) {
            Some(s) => s,
            None => return Err(ContractError::ArithmeticError),
        };
        let price_scaled = match starting_leverage_price.checked_mul(leverage_percent_change) {
            Some(s) => s,
            None => return Err(ContractError::ArithmeticError),
        };
        Ok(price_scaled / PRECISION)
    } else {
        let absolute_change = start_asset_price - current_asset_price;
        let scaled = match PRECISION.checked_mul(absolute_change) {
            Some(s) => s,
            None => return Err(ContractError::ArithmeticError),
        };
        let percent_change = scaled / start_asset_price;
        let lev_scaled = match leverage_amount.checked_mul(percent_change) {
            Some(s) => s,
            None => return Err(ContractError::ArithmeticError),
        };
        let reduction = lev_scaled / PRECISION;
        if reduction > PRECISION {
            return Err(ContractError::ArithmeticError);
        }
        let leverage_percent_change = PRECISION - reduction;
        let price_scaled = match starting_leverage_price.checked_mul(leverage_percent_change) {
            Some(s) => s,
            None => return Err(ContractError::ArithmeticError),
        };
        Ok(price_scaled / PRECISION)
    }
}

/// Law: deriving the leveraged price with identical start and current asset
/// price returns the unchanged starting leveraged price, for any leverage
/// factor.
pub proof fn lemma_leveraged_price_no_change(price: int, lev: int, start_lev: int)
    ensures
        spec_leveraged_price(price, price, lev, start_lev) == Some(start_lev),
{
}

/// What a valid pool configuration is: the minimum protocol ratio must not
/// exceed the rebalance threshold, premiums are bounded (the mint premium by
/// 100%, the rebalance premium by 10%), and leverage is at least 1x.
pub open spec fn spec_hyperparameters_valid(h: Hyperparameters) -> bool {
    &&& h.minimum_protocol_ratio <= h.rebalance_ratio
    &&& h.mint_premium <= PRECISION
    &&& h.rebalance_premium <= 100_000
    &&& h.leverage_amount >= PRECISION
}

/// Check a pool configuration. Returns true exactly when the parameters are
/// valid; creation rejects on false.
pub fn hyperparameters_is_valid(hyperparms: &Hyperparameters) -> (r: bool)
    ensures
        r == spec_hyperparameters_valid(*hyperparms),
{
    if hyperparms.minimum_protocol_ratio > hyperparms.rebalance_ratio {
        return false;
    }
    if hyperparms.mint_premium > PRECISION {
        return false;
    }
    if hyperparms.rebalance_premium > 100_000 {
        return false;
    }
    if hyperparms.leverage_amount < PRECISION {
        return false;
    }
    true
}

/// Whether a retained snapshot is old enough that a new historic sample is
/// due.
pub open spec fn spec_price_timestamp_is_expired(timestamp: u64, now: u64) -> bool {
    now > timestamp && now - timestamp >= PRICE_DATA_EXPIRY
}

/// Whether the opening baseline is old enough that leverage must be reset.
pub open spec fn spec_leverage_is_expired(timestamp: u64, now: u64) -> bool {
    now > timestamp && now - timestamp >= LEVERAGE_EXPIRY
}

/// True when at least `PRICE_DATA_EXPIRY` seconds have passed since
/// `snapshot` was taken.
pub fn price_timestamp_is_expired(snapshot: &PriceSnapshot, now: u64) -> (r: bool)
    ensures
        r == spec_price_timestamp_is_expired(snapshot.timestamp, now),
{
    now > snapshot.timestamp && now - snapshot.timestamp >= PRICE_DATA_EXPIRY
}

/// True when at least `LEVERAGE_EXPIRY` seconds have passed since the
/// opening snapshot was taken.
pub fn leverage_is_expired(open: &PriceSnapshot, now: u64) -> (r: bool)
    ensures
        r == spec_leverage_is_expired(open.timestamp, now),
{
    now > open.timestamp && now - open.timestamp >= LEVERAGE_EXPIRY
}

/// The retained history after appending one sample to a capacity-bounded
/// log: the `max` most recent elements, in order.
pub open spec fn push_drain_spec<T>(s: Seq<T>, append: T, max: int) -> Seq<T> {
    let full = s.push(append);
    if full.len() > max {
        full.subrange(full.len() - max, full.len() as int)
    } else {
        full
    }
}

/// Push an element onto the end of a vector and drop elements off the front
/// so that at most `max` remain: exactly the `max` most recent, in order.
pub fn push_drain<T>(v: &mut Vec<T>, append: T, max: usize)
    ensures
        final(v)@ == push_drain_spec(old(v)@, append, max as int),
{
    v.push(append);
    let ghost full = v@;
    while v.len() > max
        invariant
            v@.len() <= full.len(),
            v@.len() >= max || v@.len() == full.len(),
            v@ =~= full.subrange(full.len() - v@.len(), full.len() as int),
        decreases v@.len(),
    {
        v.remove(0);
    }
    assert(v@ =~= push_drain_spec(old(v)@, append, max as int));
}

/// The protocol ratio as a mathematical integer:
/// `(assets x asset price x PRECISION) / (leveraged assets x leveraged price)`.
pub open spec fn spec_pr(assets: int, asset_price: int, lev_assets: int, lev_price: int) -> int {
    spec_multiply_ratio(assets * asset_price, PRECISION as int, lev_assets * lev_price)
}

/// Whether the protocol ratio can be computed in 128-bit checked arithmetic:
/// both values fit, the scaled collateral value fits, and the minted value
/// is nonzero.
pub open spec fn spec_pr_fits(assets: int, asset_price: int, lev_assets: int, lev_price: int) -> bool {
    &&& lev_assets * lev_price <= u128::MAX
    &&& assets * asset_price <= u128::MAX
    &&& multiply_ratio_fits(assets * asset_price, PRECISION as int, lev_assets * lev_price)
}

/// Compute the protocol ratio of `total_assets` backing assets against
/// `total_leveraged_assets` minted assets at the prices of `snapshot`,
/// scaled by `PRECISION`.
pub fn calculate_pr(
    total_assets: u128,
    total_leveraged_assets: u128,
    snapshot: &PriceSnapshot,
) -> (r: Result<u128, ContractError>)
    ensures
        (r is Ok) == spec_pr_fits(
            total_assets as int,
            snapshot.asset_price as int,
            total_leveraged_assets as int,
            snapshot.leveraged_price as int,
        ),
        r matches Ok(v) ==> v == spec_pr(
            total_assets as int,
            snapshot.asset_price as int,
            total_leveraged_assets as int,
            snapshot.leveraged_price as int,
        ),
        r is Err ==> r == Err::<u128, ContractError>(ContractError::ArithmeticError),
{
    let total_minted_value = match total_leveraged_assets.checked_mul(snapshot.leveraged_price) {
        Some(v) => v,
        None => return Err(ContractError::ArithmeticError),
    };
    let air_value = match total_assets.checked_mul(snapshot.asset_price) {
        Some(v) => v,
        None => return Err(ContractError::ArithmeticError),
    };
    multiply_ratio(air_value, PRECISION, total_minted_value)
}

/// Whether a projected state is healthy at the prices of a snapshot: the
/// guard is trivially satisfied while no leveraged share is outstanding,
/// and otherwise demands a computable protocol ratio at or above the
/// threshold.
pub open spec fn spec_health_ok(
    assets: int,
    lev_share: int,
    snapshot: PriceSnapshot,
    threshold: int,
) -> bool {
    ||| lev_share == 0
    ||| {
        &&& spec_pr_fits(assets, snapshot.asset_price as int, lev_share, snapshot.leveraged_price as int)
        &&& spec_pr(assets, snapshot.asset_price as int, lev_share, snapshot.leveraged_price as int) >= threshold
    }
}

/// Law: any state the health guard accepts with leveraged share outstanding
/// has a computable protocol ratio at or above the threshold. Together with
/// the guard running before every mint, burn and withdrawal commits, this
/// bounds the protocol ratio of every committed state at the prices the
/// transition was evaluated under.
pub proof fn lemma_health_guard_bounds_pr(
    assets: int,
    lev_share: int,
    snapshot: PriceSnapshot,
    threshold: int,
)
    requires
        spec_health_ok(assets, lev_share, snapshot, threshold),
        lev_share > 0,
    ensures
        spec_pr_fits(assets, snapshot.asset_price as int, lev_share, snapshot.leveraged_price as int),
        spec_pr(assets, snapshot.asset_price as int, lev_share, snapshot.leveraged_price as int)
            >= threshold,
{
}

/// Law: adding backing assets never lowers the protocol ratio. This is why
/// deposits of liquidity run without a health guard.
pub proof fn lemma_pr_monotonic_in_assets(a1: int, a2: int, ap: int, lev_share: int, lp: int)
    requires
        0 <= a1 <= a2,
        0 <= ap,
        lev_share * lp > 0,
    ensures
        spec_pr(a1, ap, lev_share, lp) <= spec_pr(a2, ap, lev_share, lp),
{
    vstd::arithmetic::mul::lemma_mul_inequality(a1, a2, ap);
    vstd::arithmetic::mul::lemma_mul_inequality(a1 * ap, a2 * ap, PRECISION as int);
    vstd::arithmetic::div_mod::lemma_div_is_ordered(
        (a1 * ap) * (PRECISION as int),
        (a2 * ap) * (PRECISION as int),
        lev_share * lp,
    );
}

/// Guard a projected post-operation state: reject any transition whose
/// protocol ratio at the prices of `snapshot` would fall below `threshold`.
/// The projection is the caller's; on rejection it must be discarded with
/// no side effects.
pub fn assert_health(
    proposed_assets: u128,
    proposed_leveraged_share: u128,
    snapshot: &PriceSnapshot,
    threshold: u128,
) -> (r: Result<(), ContractError>)
    ensures
        (r is Ok) == spec_health_ok(
            proposed_assets as int,
            proposed_leveraged_share as int,
            *snapshot,
            threshold as int,
        ),
        r == Err::<(), ContractError>(ContractError::WouldViolatePoolHealth) <==> {
            &&& proposed_leveraged_share > 0
            &&& spec_pr_fits(
                proposed_assets as int,
                snapshot.asset_price as int,
                proposed_leveraged_share as int,
                snapshot.leveraged_price as int,
            )
            &&& spec_pr(
                proposed_assets as int,
                snapshot.asset_price as int,
                proposed_leveraged_share as int,
                snapshot.leveraged_price as int,
            ) < threshold
        },
        r == Err::<(), ContractError>(ContractError::ArithmeticError) <==> {
            &&& proposed_leveraged_share > 0
            &&& !spec_pr_fits(
                proposed_assets as int,
                snapshot.asset_price as int,
                proposed_leveraged_share as int,
                snapshot.leveraged_price as int,
            )
        },
{
    if proposed_leveraged_share == 0 {
        return Ok(());
    }
    match calculate_pr(proposed_assets, proposed_leveraged_share, snapshot) {
        Ok(pr) => {
            if pr < threshold {
                Err(ContractError::WouldViolatePoolHealth)
            } else {
                Ok(())
            }
        },
        Err(e) => Err(e),
    }
}

/// Timestamps never decrease along the history.
pub open spec fn chronological(s: Seq<PriceSnapshot>) -> bool {
    forall|i: int, j: int| 0 <= i <= j < s.len() ==> s[i].timestamp <= s[j].timestamp
}

/// Appending a sample no older than the newest retained one and trimming the
/// front keeps the history chronological, bounded and nonempty, with the new
/// sample last.
pub proof fn lemma_push_drain_keeps_chronology(h: Seq<PriceSnapshot>, e: PriceSnapshot, max: int)
    requires
        max >= 1,
        h.len() >= 1,
        chronological(h),
        h.last().timestamp <= e.timestamp,
    ensures
        chronological(push_drain_spec(h, e, max)),
        push_drain_spec(h, e, max).len() == if h.len() + 1 > max {
            max as int
        } else {
            h.len() + 1 as int
        },
        push_drain_spec(h, e, max).last() == e,
{
    let full = h.push(e);
    assert(forall|i: int| 0 <= i < h.len() ==> h[i].timestamp <= h.last().timestamp);
    assert(forall|i: int| 0 <= i < full.len() ==> full[i].timestamp <= e.timestamp);
    assert(chronological(full));
    let r = push_drain_spec(h, e, max);
    if full.len() > max {
        assert(forall|i: int| 0 <= i < r.len() ==> r[i] == full[i + full.len() - max]);
    }
}

/// The whole pool: configuration, aggregates, retained price history and the
/// two per-address ledgers. Owned exclusively by the engine; mutated only
/// through the guarded operations of this crate.
pub struct Pool {
    /// Immutable configuration.
    pub hyper: Hyperparameters,
    /// Pool-wide aggregates and the two working snapshots.
    pub state: PoolState,
    /// Ordered, capacity-bounded historic price samples.
    pub price_history: Vec<PriceSnapshot>,
    /// Minted leveraged share per address.
    pub minted: Ledger,
    /// Liquidity-provider share per address.
    pub provided: Ledger,
}

impl Pool {
    /// Well-formedness, established at creation and preserved by every
    /// operation: the ledgers have unique addresses, the per-address minter
    /// shares sum to `total_leveraged_pool_share` and the per-address
    /// provider shares sum to `total_asset_pool_share`; the legacy duplicate
    /// aggregate stays equal to the leveraged share; the history is
    /// nonempty, capacity-bounded, chronological, and ends in the latest
    /// historic snapshot.
    pub open spec fn wf(&self) -> bool {
        &&& self.minted.wf()
        &&& self.provided.wf()
        &&& self.minted.total() == self.state.total_leveraged_pool_share
        &&& self.provided.total() == self.state.total_asset_pool_share
        &&& self.state.total_leveraged_assets == self.state.total_leveraged_pool_share
        &&& 1 <= self.price_history@.len() <= PRICE_DATA_N
        &&& chronological(self.price_history@)
        &&& self.price_history@.last() == self.state.latest_historic_snapshot
    }

    /// Decide well-formedness at run time. The boundary layer rebuilds the
    /// pool from its persisted records and must refuse a corrupted store
    /// before it calls any operation; this is the test it runs.
    pub fn check_wf(&self) -> (r: bool)
        ensures
            r == self.wf(),
    {
        if !self.minted.is_unique() {
            return false;
        }
        if !self.provided.is_unique() {
            return false;
        }
        let minted_total = match self.minted.total_shares() {
            Some(t) => t,
            None => return false,
        };
        if minted_total != self.state.total_leveraged_pool_share {
            return false;
        }
        let provided_total = match self.provided.total_shares() {
            Some(t) => t,
            None => return false,
        };
        if provided_total != self.state.total_asset_pool_share {
            return false;
        }
        if self.state.total_leveraged_assets != self.state.total_leveraged_pool_share {
            return false;
        }
        let n = self.price_history.len();
        if n < 1 || n > PRICE_DATA_N {
            return false;
        }
        let mut i: usize = 1;
        while i < n
            invariant
                n == self.price_history@.len(),
                1 <= i <= n,
                chronological(self.price_history@.take(i as int)),
            decreases n - i,
        {
            if self.price_history[i - 1].timestamp > self.price_history[i].timestamp {
                assert(!chronological(self.price_history@));
                return false;
            }
            proof {
                let h = self.price_history@;
                assert forall|x: int, y: int| 0 <= x <= y < i + 1 implies #[trigger] h.take(
                    i + 1,
                )[x].timestamp <= #[trigger] h.take(i + 1)[y].timestamp by {
                    if y < i {
                        assert(h.take(i as int)[x].timestamp <= h.take(i as int)[y].timestamp);
                    } else if x < i {
                        assert(h.take(i as int)[x].timestamp <= h.take(
                            i as int,
                        )[i - 1].timestamp);
                    }
                }
            }
            i = i + 1;
        }
        proof {
            assert(self.price_history@.take(n as int) =~= self.price_history@);
        }
        if self.price_history[n - 1] != self.state.latest_historic_snapshot {
            return false;
        }
        true
    }
}

/// Law: in a well-formed pool the per-address minter shares sum exactly to
/// the total leveraged pool share, and the per-address provider shares to
/// the total asset pool share. Every operation of this crate requires a
/// well-formed pool and returns one, so the ledgers and the aggregates never
/// drift apart.
pub proof fn lemma_ledger_sums_match_aggregates(p: &Pool)
    requires
        p.wf(),
    ensures
        crate::ledger::spec_total(p.minted@) == p.state.total_leveraged_pool_share,
        crate::ledger::spec_total(p.provided@) == p.state.total_asset_pool_share,
{
}

/// The price context an operation at time `now` works from, given the oracle
/// spot price: the opening baseline unchanged, and a current snapshot whose
/// leveraged price follows from the baseline by the piecewise leverage rule.
/// `None` where that derivation is not computable.
pub open spec fn spec_price_context(
    state: PoolState,
    hyper: Hyperparameters,
    oracle_price: u128,
    now: u64,
) -> Option<PriceContext> {
    let opening = state.latest_reset_snapshot;
    match spec_leveraged_price(
        opening.asset_price as int,
        oracle_price as int,
        hyper.leverage_amount as int,
        opening.leveraged_price as int,
    ) {
        Some(lp) => Some(
            PriceContext {
                opening_snapshot: opening,
                current_snapshot: PriceSnapshot {
                    asset_price: oracle_price,
                    leveraged_price: lp as u128,
                    timestamp: now,
                },
            },
        ),
        None => None,
    }
}

/// Build the price context for an operation at time `now` from the oracle
/// spot price: the stored opening baseline plus the current snapshot with
/// its derived leveraged price.
pub fn get_price_context(pool: &Pool, oracle_price: u128, now: u64) -> (r: Result<
    PriceContext,
    ContractError,
>)
    ensures
        (r is Ok) == (spec_price_context(pool.state, pool.hyper, oracle_price, now) is Some),
        r matches Ok(ctx) ==> spec_price_context(pool.state, pool.hyper, oracle_price, now)
            == Some(ctx),
        r is Err ==> r == Err::<PriceContext, ContractError>(ContractError::ArithmeticError),
{
    let opening = pool.state.latest_reset_snapshot;
    let current_leveraged_price = match get_leveraged_price(
        opening.asset_price,
        oracle_price,
        pool.hyper.leverage_amount,
        opening.leveraged_price,
    ) {
        Ok(lp) => lp,
        Err(e) => return Err(e),
    };
    Ok(PriceContext {
        opening_snapshot: opening,
        current_snapshot: PriceSnapshot {
            asset_price: oracle_price,
            leveraged_price: current_leveraged_price,
            timestamp: now,
        },
    })
}

/// The history after maintenance at time `now`: the current snapshot is
/// appended (evicting the oldest entries beyond capacity) exactly when the
/// newest retained sample, taken at `last_ts`, has expired.
pub open spec fn spec_maintained_history(
    h: Seq<PriceSnapshot>,
    last_ts: u64,
    current: PriceSnapshot,
    now: u64,
) -> Seq<PriceSnapshot> {
    if spec_price_timestamp_is_expired(last_ts, now) {
        push_drain_spec(h, current, PRICE_DATA_N as int)
    } else {
        h
    }
}

/// The state after maintenance at time `now`: the latest historic snapshot
/// advances exactly when the previous one has expired, the opening baseline
/// advances exactly when the leverage window has expired, and nothing else
/// changes.
pub open spec fn spec_maintained_state(st: PoolState, current: PriceSnapshot, now: u64) -> PoolState {
    PoolState {
        latest_historic_snapshot: if spec_price_timestamp_is_expired(
            st.latest_historic_snapshot.timestamp,
            now,
        ) {
            current
        } else {
            st.latest_historic_snapshot
        },
        latest_reset_snapshot: if spec_leverage_is_expired(st.latest_reset_snapshot.timestamp, now) {
            current
        } else {
            st.latest_reset_snapshot
        },
        assets_in_reserve: st.assets_in_reserve,
        total_asset_pool_share: st.total_asset_pool_share,
        total_leveraged_assets: st.total_leveraged_assets,
        total_leveraged_pool_share: st.total_leveraged_pool_share,
    }
}

/// Trailing maintenance step of the liquidity operations, applied after the
/// operation has committed: retain the current snapshot in the history when
/// the previous sample has expired, and rebase the opening baseline when the
/// leverage window has expired.
pub(crate) fn apply_maintenance(pool: &mut Pool, current: PriceSnapshot, now: u64)
    requires
        old(pool).wf(),
        current.timestamp == now,
    ensures
        final(pool).wf(),
        final(pool).price_history@ == spec_maintained_history(
            old(pool).price_history@,
            old(pool).state.latest_historic_snapshot.timestamp,
            current,
            now,
        ),
        final(pool).state == spec_maintained_state(old(pool).state, current, now),
        final(pool).minted == old(pool).minted,
        final(pool).provided == old(pool).provided,
        final(pool).hyper == old(pool).hyper,
{
    let latest_historic = pool.state.latest_historic_snapshot;
    if price_timestamp_is_expired(&latest_historic, now) {
        proof {
            lemma_push_drain_keeps_chronology(pool.price_history@, current, PRICE_DATA_N as int);
        }
        push_drain(&mut pool.price_history, current, PRICE_DATA_N);
        pool.state.latest_historic_snapshot = current;
    }
    let latest_reset = pool.state.latest_reset_snapshot;
    if leverage_is_expired(&latest_reset, now) {
        pool.state.latest_reset_snapshot = current;
    }
}

/// Update the historic price data and reset the leverage baseline where due,
/// against the context derived from the current oracle price. Invoked as a
/// trailing effect of every liquidity operation; exposed for the host to
/// trigger directly as well.
pub fn check_reset_leverage(pool: &mut Pool, oracle_price: u128, now: u64) -> (r: Result<
    (),
    ContractError,
>)
    requires
        old(pool).wf(),
    ensures
        final(pool).wf(),
        (r is Ok) == (spec_price_context(old(pool).state, old(pool).hyper, oracle_price, now)
            is Some),
        r is Err ==> *final(pool) == *old(pool) && r == Err::<(), ContractError>(
            ContractError::ArithmeticError,
        ),
        r is Ok ==> {
            let current = spec_price_context(
                old(pool).state,
                old(pool).hyper,
                oracle_price,
                now,
            ).unwrap().current_snapshot;
            &&& final(pool).price_history@ == spec_maintained_history(
                old(pool).price_history@,
                old(pool).state.latest_historic_snapshot.timestamp,
                current,
                now,
            )
            &&& final(pool).state == spec_maintained_state(old(pool).state, current, now)
            &&& final(pool).minted == old(pool).minted
            &&& final(pool).provided == old(pool).provided
            &&& final(pool).hyper == old(pool).hyper
        },
{
    let ctx = match get_price_context(pool, oracle_price, now) {
        Ok(c) => c,
        Err(e) => return Err(e),
    };
    apply_maintenance(pool, ctx.current_snapshot, now);
    Ok(())
}

/// Create a pool from validated hyperparameters and a freshly fetched
/// genesis oracle price: empty ledgers, zero aggregates, and a one-entry
/// price history whose leveraged price equals the asset price. Rejects
/// out-of-bounds hyperparameters with `InvalidPoolParams`.
pub fn init(hyper: Hyperparameters, opening_price: u128, now: u64) -> (r: Result<
    Pool,
    ContractError,
>)
    ensures
        (r is Ok) == spec_hyperparameters_valid(hyper),
        r is Err ==> r == Err::<Pool, ContractError>(ContractError::InvalidPoolParams),
        r matches Ok(p) ==> {
            let genesis = (PriceSnapshot {
                asset_price: opening_price,
                leveraged_price: opening_price,
                timestamp: now,
            });
            &&& p.wf()
            &&& p.hyper == hyper
            &&& p.state == (PoolState {
                latest_reset_snapshot: genesis,
                latest_historic_snapshot: genesis,
                assets_in_reserve: 0,
                total_asset_pool_share: 0,
                total_leveraged_assets: 0,
                total_leveraged_pool_share: 0,
            })
            &&& p.price_history@ == seq![genesis]
            &&& forall|a: Seq<u8>| p.minted.share_of(a) == 0 && p.provided.share_of(a) == 0
        },
{
    if !hyperparameters_is_valid(&hyper) {
        return Err(ContractError::InvalidPoolParams);
    }
    let genesis_snapshot = PriceSnapshot {
        asset_price: opening_price,
        leveraged_price: opening_price,
        timestamp: now,
    };
    let mut history: Vec<PriceSnapshot> = Vec::new();
    history.push(genesis_snapshot);
    proof {
        assert(history@ =~= seq![genesis_snapshot]);
    }
    Ok(Pool {
        hyper,
        state: PoolState {
            latest_reset_snapshot: genesis_snapshot,
            latest_historic_snapshot: genesis_snapshot,
            assets_in_reserve: 0,
            total_asset_pool_share: 0,
            total_leveraged_assets: 0,
            total_leveraged_pool_share: 0,
        },
        price_history: history,
        minted: Ledger::new(),
        provided: Ledger::new(),
    })
}

/// Commit an approved mint: credit the sender's minted share and raise the
/// aggregates. The health guard has already approved these values; the
/// bounds are the caller's checked projections.
pub fn create_leveraged_position(
    pool: &mut Pool,
    sender: &Addr,
    mint_count: u128,
    unleveraged_assets: u128,
) -> (r: MinterPosition)
    requires
        old(pool).wf(),
        old(pool).state.assets_in_reserve + unleveraged_assets <= u128::MAX,
        old(pool).state.total_leveraged_pool_share + mint_count <= u128::MAX,
    ensures
        final(pool).wf(),
        final(pool).minted.share_of(sender@) == old(pool).minted.share_of(sender@) + mint_count,
        forall|b: Seq<u8>| b != sender@ ==> final(pool).minted.share_of(b) == old(
            pool,
        ).minted.share_of(b),
        final(pool).provided == old(pool).provided,
        final(pool).hyper == old(pool).hyper,
        final(pool).price_history@ == old(pool).price_history@,
        final(pool).state == (PoolState {
            assets_in_reserve: (old(pool).state.assets_in_reserve + unleveraged_assets) as u128,
            total_leveraged_pool_share: (old(pool).state.total_leveraged_pool_share
                + mint_count) as u128,
            total_leveraged_assets: (old(pool).state.total_leveraged_assets + mint_count) as u128,
            ..old(pool).state
        }),
        r == (MinterPosition {
            leveraged_pool_partial_share: (old(pool).minted.share_of(sender@)
                + mint_count) as u128,
            leveraged_pool_total_share: (old(pool).state.total_leveraged_pool_share
                + mint_count) as u128,
        }),
{
    let new_mint_count = pool.minted.credit(sender, mint_count);
    pool.state.assets_in_reserve = pool.state.assets_in_reserve + unleveraged_assets;
    pool.state.total_leveraged_pool_share = pool.state.total_leveraged_pool_share + mint_count;
    pool.state.total_leveraged_assets = pool.state.total_leveraged_assets + mint_count;
    MinterPosition {
        leveraged_pool_partial_share: new_mint_count,
        leveraged_pool_total_share: pool.state.total_leveraged_pool_share,
    }
}

/// Commit an approved burn: debit the sender's minted share by `burn` and
/// release `redeem` backing assets from the reserve. Fails with
/// `InsufficientFunds`, changing nothing, exactly when the sender holds less
/// than `burn`; the reserve and aggregate bounds are the caller's checked
/// projections.
pub fn burn_leveraged_position(
    pool: &mut Pool,
    sender: &Addr,
    burn: u128,
    redeem: u128,
) -> (r: Result<MinterPosition, ContractError>)
    requires
        old(pool).wf(),
        redeem <= old(pool).state.assets_in_reserve,
        burn <= old(pool).state.total_leveraged_pool_share,
    ensures
        final(pool).wf(),
        (r is Ok) == (burn <= old(pool).minted.share_of(sender@)),
        r is Err ==> *final(pool) == *old(pool) && r == Err::<MinterPosition, ContractError>(
            ContractError::InsufficientFunds,
        ),
        r matches Ok(pos) ==> {
            &&& final(pool).minted.share_of(sender@) == old(pool).minted.share_of(sender@) - burn
            &&& forall|b: Seq<u8>| b != sender@ ==> final(pool).minted.share_of(b) == old(
                pool,
            ).minted.share_of(b)
            &&& final(pool).provided == old(pool).provided
            &&& final(pool).hyper == old(pool).hyper
            &&& final(pool).price_history@ == old(pool).price_history@
            &&& final(pool).state == (PoolState {
                assets_in_reserve: (old(pool).state.assets_in_reserve - redeem) as u128,
                total_leveraged_pool_share: (old(pool).state.total_leveraged_pool_share
                    - burn) as u128,
                total_leveraged_assets: (old(pool).state.total_leveraged_assets - burn) as u128,
                ..old(pool).state
            })
            &&& pos == (MinterPosition {
                leveraged_pool_partial_share: (old(pool).minted.share_of(sender@) - burn) as u128,
                leveraged_pool_total_share: (old(pool).state.total_leveraged_pool_share
                    - burn) as u128,
            })
        },
{
    let share = pool.minted.get(sender);
    if share < burn {
        return Err(ContractError::InsufficientFunds);
    }
    let new_share = pool.minted.debit(sender, burn);
    pool.state.assets_in_reserve = pool.state.assets_in_reserve - redeem;
    pool.state.total_leveraged_pool_share = pool.state.total_leveraged_pool_share - burn;
    pool.state.total_leveraged_assets = pool.state.total_leveraged_assets - burn;
    Ok(MinterPosition {
        leveraged_pool_partial_share: new_share,
        leveraged_pool_total_share: pool.state.total_leveraged_pool_share,
    })
}

/// Convert `asset_count` unleveraged assets to their leveraged equivalent at
/// the current price context: `asset_count x asset price / leveraged price`,
/// floored.
pub fn leveraged_equivalence(pool: &Pool, oracle_price: u128, now: u64, asset_count: u128) -> (r:
    Result<u128, ContractError>)
    ensures
        ({
            let ctx = spec_price_context(pool.state, pool.hyper, oracle_price, now);
            &&& (r is Ok) == (ctx is Some && multiply_ratio_fits(
                asset_count as int,
                ctx.unwrap().current_snapshot.asset_price as int,
                ctx.unwrap().current_snapshot.leveraged_price as int,
            ))
            &&& r matches Ok(v) ==> v == spec_multiply_ratio(
                asset_count as int,
                ctx.unwrap().current_snapshot.asset_price as int,
                ctx.unwrap().current_snapshot.leveraged_price as int,
            )
            &&& r is Err ==> r == Err::<u128, ContractError>(ContractError::ArithmeticError)
        }),
{
    let curr = match get_price_context(pool, oracle_price, now) {
        Ok(ctx) => ctx.current_snapshot,
        Err(e) => return Err(e),
    };
    multiply_ratio(asset_count, curr.asset_price, curr.leveraged_price)
}

/// Convert `asset_count` leveraged assets to their unleveraged equivalent at
/// the current price context: `asset_count x leveraged price / asset price`,
/// floored.
pub fn unleveraged_equivalence(pool: &Pool, oracle_price: u128, now: u64, asset_count: u128) -> (r:
    Result<u128, ContractError>)
    ensures
        ({
            let ctx = spec_price_context(pool.state, pool.hyper, oracle_price, now);
            &&& (r is Ok) == (ctx is Some && multiply_ratio_fits(
                asset_count as int,
                ctx.unwrap().current_snapshot.leveraged_price as int,
                ctx.unwrap().current_snapshot.asset_price as int,
            ))
            &&& r matches Ok(v) ==> v == spec_multiply_ratio(
                asset_count as int,
                ctx.unwrap().current_snapshot.leveraged_price as int,
                ctx.unwrap().current_snapshot.asset_price as int,
            )
            &&& r is Err ==> r == Err::<u128, ContractError>(ContractError::ArithmeticError)
        }),
{
    let curr = match get_price_context(pool, oracle_price, now) {
        Ok(ctx) => ctx.current_snapshot,
        Err(e) => return Err(e),
    };
    multiply_ratio(asset_count, curr.leveraged_price, curr.asset_price)
}

/// The hyperparameters the pool was created with.
pub fn query_hyperparameters(pool: &Pool) -> (r: Hyperparameters)
    ensures
        r.leverage_amount == pool.hyper.leverage_amount,
        r.minimum_protocol_ratio == pool.hyper.minimum_protocol_ratio,
        r.rebalance_ratio == pool.hyper.rebalance_ratio,
        r.mint_premium == pool.hyper.mint_premium,
        r.rebalance_premium == pool.hyper.rebalance_premium,
        r.terraswap_pair_addr@ == pool.hyper.terraswap_pair_addr@,
        r.leveraged_asset_addr@ == pool.hyper.leveraged_asset_addr@,
{
    pool.hyper.clone()
}

/// The pool-wide aggregates and working snapshots.
pub fn query_pool_state(pool: &Pool) -> (r: PoolState)
    ensures
        r == pool.state,
{
    pool.state
}

/// The pool-wide aggregates and working snapshots.
pub fn get_pool_state(pool: &Pool) -> (r: PoolState)
    ensures
        r == pool.state,
{
    pool.state
}

/// The retained historic price samples, oldest first.
pub fn query_price_history(pool: &Pool) -> (r: Vec<PriceSnapshot>)
    ensures
        r@ == pool.price_history@,
{
    let n = pool.price_history.len();
    let mut out: Vec<PriceSnapshot> = Vec::new();
    let mut i: usize = 0;
    while i < n
        invariant
            n == pool.price_history@.len(),
            i <= n,
            out@ =~= pool.price_history@.subrange(0, i as int),
        decreases n - i,
    {
        out.push(pool.price_history[i]);
        i = i + 1;
    }
    proof {
        assert(out@ =~= pool.price_history@);
    }
    out
}

/// The protocol ratio of the current reserves against the outstanding
/// minted assets, at the current price context.
pub fn query_pr(pool: &Pool, oracle_price: u128, now: u64) -> (r: Result<u128, ContractError>)
    ensures
        ({
            let ctx = spec_price_context(pool.state, pool.hyper, oracle_price, now);
            &&& (r is Ok) == (ctx is Some && spec_pr_fits(
                pool.state.assets_in_reserve as int,
                ctx.unwrap().current_snapshot.asset_price as int,
                pool.state.total_leveraged_assets as int,
                ctx.unwrap().current_snapshot.leveraged_price as int,
            ))
            &&& r matches Ok(v) ==> v == spec_pr(
                pool.state.assets_in_reserve as int,
                ctx.unwrap().current_snapshot.asset_price as int,
                pool.state.total_leveraged_assets as int,
                ctx.unwrap().current_snapshot.leveraged_price as int,
            )
            &&& r is Err ==> r == Err::<u128, ContractError>(ContractError::ArithmeticError)
        }),
{
    let ctx = match get_price_context(pool, oracle_price, now) {
        Ok(c) => c,
        Err(e) => return Err(e),
    };
    calculate_pr(
        pool.state.assets_in_reserve,
        pool.state.total_leveraged_assets,
        &ctx.current_snapshot,
    )
}

/// The minted position held by `addr`: its own share and the pool total. An
/// address that never minted holds zero.
pub fn get_mint_map(pool: &Pool, addr: &Addr) -> (r: MinterPosition)
    requires
        pool.wf(),
    ensures
        r == (MinterPosition {
            leveraged_pool_partial_share: pool.minted.share_of(addr@),
            leveraged_pool_total_share: pool.state.total_leveraged_pool_share,
        }),
{
    let my_partial_share = pool.minted.get(addr);
    MinterPosition {
        leveraged_pool_partial_share: my_partial_share,
        leveraged_pool_total_share: pool.state.total_leveraged_pool_share,
    }
}

/// The minted leveraged share held by `addr`, zero when it never minted.
pub fn get_addr_leveraged_share(pool: &Pool, addr: &Addr) -> (r: u128)
    requires
        pool.wf(),
    ensures
        r == pool.minted.share_of(addr@),
{
    pool.minted.get(addr)
}

/// Whether `addr` holds at least `check` minted leveraged share.
pub fn addr_has_adequate_leveraged_share(pool: &Pool, addr: &Addr, check: u128) -> (r: bool)
    requires
        pool.wf(),
    ensures
        r == (pool.minted.share_of(addr@) >= check),
{
    pool.minted.get(addr) >= check
}

/// Whether `addr` holds at least `check` share of the liquidity pool.
pub fn addr_has_adequate_lp_share(pool: &Pool, addr: &Addr, check: u128) -> (r: bool)
    requires
        pool.wf(),
    ensures
        r == (pool.provided.share_of(addr@) >= check),
{
    pool.provided.get(addr) >= check
}

/// The leveraged position (if any) held by `addr`.
pub fn get_leveraged_position(pool: &Pool, addr: &Addr) -> (r: MinterPosition)
    requires
        pool.wf(),
    ensures
        r == (MinterPosition {
            leveraged_pool_partial_share: pool.minted.share_of(addr@),
            leveraged_pool_total_share: pool.state.total_leveraged_pool_share,
        }),
{
    get_mint_map(pool, addr)
}

/// The liquidity position held by `addr`: its own share and the pool total.
pub fn get_liquidity_position(pool: &Pool, addr: &Addr) -> (r: ProviderPosition)
    requires
        pool.wf(),
    ensures
        r == (ProviderPosition {
            asset_pool_partial_share: pool.provided.share_of(addr@),
            asset_pool_total_share: pool.state.total_asset_pool_share,
        }),
{
    let my_partial_share = pool.provided.get(addr);
    ProviderPosition {
        asset_pool_partial_share: my_partial_share,
        asset_pool_total_share: pool.state.total_asset_pool_share,
    }
}

} // verus!
