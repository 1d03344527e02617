//! Liquidity manager: deposits and withdrawals of backing assets.
//!
//! Deposits issue liquidity-provider share 1:1 with the deposited units and
//! need no health guard (they can only improve the protocol ratio).
//! Withdrawals pay out the caller's fraction of the pool value net of the
//! outstanding leveraged liability, guarded by the minimum protocol ratio.
//! Both operations end with the price-context maintenance step: retaining a
//! historic snapshot and resetting the leverage baseline where due.
use vstd::prelude::*;
use crate::PRECISION;
use crate::addr::Addr;
use crate::error::ContractError;
use crate::ledger::lemma_share_le_total;
use crate::leverage_man::{
    Pool, apply_maintenance, assert_health, get_price_context, spec_health_ok,
    spec_maintained_history, spec_maintained_state, spec_pr, spec_pr_fits, spec_price_context,
};
use crate::pool::{
    PoolState, PriceSnapshot, ProvideLiquidityMsg, TransferInstruction, multiply_ratio,
    multiply_ratio_fits, spec_multiply_ratio,
};

verus! {

/// Accept a deposit of backing assets: the sender's liquidity share and the
/// pool aggregates grow by exactly the deposited amount (no price-weighting
/// at deposit time), and the trailing maintenance step runs. No health
/// guard: a deposit can only improve the protocol ratio.
pub fn try_execute_provide_liquidity(
    pool: &mut Pool,
    msg: &ProvideLiquidityMsg,
    oracle_price: u128,
    now: u64,
) -> (r: Result<(), ContractError>)
    requires
        old(pool).wf(),
    ensures
        final(pool).wf(),
        r is Err ==> *final(pool) == *old(pool) && r == Err::<(), ContractError>(
            ContractError::ArithmeticError,
        ),
        (r is Ok) == (spec_price_context(old(pool).state, old(pool).hyper, oracle_price, now)
            is Some && old(pool).state.assets_in_reserve + msg.amount <= u128::MAX && old(
            pool,
        ).state.total_asset_pool_share + msg.amount <= u128::MAX),
        ({
            let ctx = spec_price_context(old(pool).state, old(pool).hyper, oracle_price, now);
            ctx matches Some(c) ==> r is Ok ==> {
                let cur = c.current_snapshot;
                let committed = (PoolState {
                    assets_in_reserve: (old(pool).state.assets_in_reserve + msg.amount) as u128,
                    total_asset_pool_share: (old(pool).state.total_asset_pool_share
                        + msg.amount) as u128,
                    ..old(pool).state
                });
                &&& final(pool).state == spec_maintained_state(committed, cur, now)
                &&& final(pool).price_history@ == spec_maintained_history(
                    old(pool).price_history@,
                    old(pool).state.latest_historic_snapshot.timestamp,
                    cur,
                    now,
                )
                &&& final(pool).provided.share_of(msg.sender@) == old(pool).provided.share_of(
                    msg.sender@,
                ) + msg.amount
                &&& forall|b: Seq<u8>| b != msg.sender@ ==> final(pool).provided.share_of(b)
                    == old(pool).provided.share_of(b)
                &&& final(pool).minted == old(pool).minted
                &&& final(pool).hyper == old(pool).hyper
            }
        }),
{
    let ctx = match get_price_context(pool, oracle_price, now) {
        Ok(c) => c,
        Err(e) => return Err(e),
    };
    let liquidity_value_added = msg.amount;
    let new_reserve = match pool.state.assets_in_reserve.checked_add(liquidity_value_added) {
        Some(v) => v,
        None => return Err(ContractError::ArithmeticError),
    };
    let new_total_share = match pool.state.total_asset_pool_share.checked_add(
        liquidity_value_added,
    ) {
        Some(v) => v,
        None => return Err(ContractError::ArithmeticError),
    };
    let _new_provider_share = pool.provided.credit(&msg.sender, liquidity_value_added);
    pool.state.assets_in_reserve = new_reserve;
    pool.state.total_asset_pool_share = new_total_share;
    apply_maintenance(pool, ctx.current_snapshot, now);
    Ok(())
}

/// Whether every arithmetic step of a withdrawal fits in 128-bit checked
/// arithmetic: the asset and minted values fit, the pool is solvent (the
/// minted liability does not exceed the asset value), the asset price and
/// the total provider share are nonzero, the requested fraction and the
/// claimed units are computable, and the claim does not exceed the reserve.
pub open spec fn spec_withdraw_fits(st: PoolState, cur: PriceSnapshot, requested: int) -> bool {
    let ap = cur.asset_price as int;
    let lp = cur.leveraged_price as int;
    let tav = st.assets_in_reserve * ap;
    let tmv = st.total_leveraged_assets * lp;
    &&& tav <= u128::MAX
    &&& tmv <= u128::MAX
    &&& tmv <= tav
    &&& ap > 0
    &&& multiply_ratio_fits(requested, PRECISION as int, st.total_asset_pool_share as int)
    &&& multiply_ratio_fits(
        (tav - tmv) / ap,
        spec_multiply_ratio(requested, PRECISION as int, st.total_asset_pool_share as int),
        PRECISION as int,
    )
    &&& spec_withdraw_claimed(st, cur, requested) <= st.assets_in_reserve
}

/// The backing units a withdrawal of `requested` provider share pays out:
/// the pool value net of the minted liability, in backing units, scaled by
/// the requested fraction of the total provider share, floored at each step.
pub open spec fn spec_withdraw_claimed(st: PoolState, cur: PriceSnapshot, requested: int) -> int {
    let ap = cur.asset_price as int;
    let lp = cur.leveraged_price as int;
    let available = (st.assets_in_reserve * ap - st.total_leveraged_assets * lp) / ap;
    let pct = spec_multiply_ratio(requested, PRECISION as int, st.total_asset_pool_share as int);
    spec_multiply_ratio(available, pct, PRECISION as int)
}

/// A solvent pool can always pay a withdrawal out of its reserve: as long as
/// the requested share is within the total provider share, the claimed units
/// never exceed the assets in reserve.
pub proof fn lemma_withdraw_claim_within_reserve(st: PoolState, cur: PriceSnapshot, requested: int)
    requires
        0 <= requested <= st.total_asset_pool_share,
        st.total_asset_pool_share > 0,
        cur.asset_price > 0,
        st.total_leveraged_assets * cur.leveraged_price <= st.assets_in_reserve * cur.asset_price,
    ensures
        0 <= spec_withdraw_claimed(st, cur, requested) <= st.assets_in_reserve,
{
    let p = PRECISION as int;
    let ap = cur.asset_price as int;
    let air = st.assets_in_reserve as int;
    let taps = st.total_asset_pool_share as int;
    let liq = air * ap - st.total_leveraged_assets * (cur.leveraged_price as int);
    let available = liq / ap;
    let pct = (requested * p) / taps;
    vstd::arithmetic::mul::lemma_mul_nonnegative(st.total_leveraged_assets as int, cur.leveraged_price as int);
    assert(available <= air) by {
        vstd::arithmetic::div_mod::lemma_div_is_ordered(liq, air * ap, ap);
        vstd::arithmetic::mul::lemma_mul_is_commutative(air, ap);
        vstd::arithmetic::div_mod::lemma_div_multiples_vanish(air, ap);
    }
    vstd::arithmetic::div_mod::lemma_div_pos_is_pos(liq, ap);
    assert(0 <= pct <= p) by {
        vstd::arithmetic::mul::lemma_mul_nonnegative(requested, p);
        vstd::arithmetic::div_mod::lemma_div_pos_is_pos(requested * p, taps);
        vstd::arithmetic::mul::lemma_mul_inequality(requested, taps, p);
        vstd::arithmetic::div_mod::lemma_div_is_ordered(requested * p, taps * p, taps);
        vstd::arithmetic::mul::lemma_mul_is_commutative(taps, p);
        vstd::arithmetic::div_mod::lemma_div_multiples_vanish(p, taps);
    }
    assert(spec_withdraw_claimed(st, cur, requested) <= available) by {
        vstd::arithmetic::mul::lemma_mul_inequality(pct, p, available);
        vstd::arithmetic::mul::lemma_mul_is_commutative(pct, available);
        vstd::arithmetic::mul::lemma_mul_is_commutative(p, available);
        vstd::arithmetic::div_mod::lemma_div_is_ordered(available * pct, available * p, p);
        vstd::arithmetic::mul::lemma_mul_is_commutative(available, p);
        vstd::arithmetic::div_mod::lemma_div_multiples_vanish(available, p);
    }
    assert(0 <= spec_withdraw_claimed(st, cur, requested)) by {
        vstd::arithmetic::mul::lemma_mul_nonnegative(available, pct);
        vstd::arithmetic::div_mod::lemma_div_pos_is_pos(available * pct, p);
    }
}

/// Law: a deposit of `amount` followed immediately by a withdrawal of
/// `amount`, with no intervening mint (no leveraged share outstanding) and
/// the pool at par (reserves equal to the total provider share, as every
/// deposit-only history leaves them), pays out exactly `amount` — so the
/// sender's share and the pool reserves return to their pre-deposit values.
/// The payout arithmetic is floored, so the law asks that the requested
/// fraction divide exactly: `amount x PRECISION` must be a multiple of the
/// post-deposit total share. That always holds for the first provider and
/// for a provider withdrawing against its own deposit alone; a ragged
/// fraction loses the rounded remainder to the pool.
pub proof fn lemma_provide_withdraw_round_trip(
    st: PoolState,
    cur: PriceSnapshot,
    amount: u128,
    threshold: int,
)
    requires
        st.total_leveraged_pool_share == 0,
        st.total_leveraged_assets == 0,
        st.assets_in_reserve == st.total_asset_pool_share,
        st.assets_in_reserve + amount <= u128::MAX,
        cur.asset_price > 0,
        (st.assets_in_reserve + amount) * (cur.asset_price as int) <= u128::MAX,
        amount * (PRECISION as int) <= u128::MAX,
        st.total_asset_pool_share + amount > 0,
        (amount * (PRECISION as int)) % (st.total_asset_pool_share + amount) == 0,
    ensures
        ({
            let st1 = (PoolState {
                assets_in_reserve: (st.assets_in_reserve + amount) as u128,
                total_asset_pool_share: (st.total_asset_pool_share + amount) as u128,
                ..st
            });
            &&& spec_withdraw_fits(st1, cur, amount as int)
            &&& spec_withdraw_claimed(st1, cur, amount as int) == amount
            &&& spec_health_ok(
                st1.assets_in_reserve - amount,
                st1.total_leveraged_pool_share as int,
                cur,
                threshold,
            )
        }),
{
    let p = PRECISION as int;
    let ap = cur.asset_price as int;
    let lp = cur.leveraged_price as int;
    let air1 = st.assets_in_reserve + amount;
    let taps1 = st.total_asset_pool_share + amount;
    vstd::arithmetic::mul::lemma_mul_nonnegative(air1, ap);
    assert(st.total_leveraged_assets * lp == 0);
    assert((air1 * ap - 0) / ap == air1) by {
        vstd::arithmetic::div_mod::lemma_div_multiples_vanish(air1, ap);
        vstd::arithmetic::mul::lemma_mul_is_commutative(air1, ap);
    }
    let pct = (amount * p) / taps1;
    vstd::arithmetic::div_mod::lemma_div_pos_is_pos(amount * p, taps1);
    assert(taps1 * pct == amount * p) by {
        vstd::arithmetic::div_mod::lemma_fundamental_div_mod(amount * p, taps1);
    }
    assert(air1 * pct == amount * p) by {
        assert(air1 == taps1);
        assert(air1 * pct == taps1 * pct);
    }
    assert((amount * p) / p == amount) by {
        vstd::arithmetic::div_mod::lemma_div_multiples_vanish(amount as int, p);
        vstd::arithmetic::mul::lemma_mul_is_commutative(amount as int, p);
    }
}

/// Withdraw `requested_share_of_pool` of the sender's liquidity share.
///
/// Fails with `InsufficientFunds` unless the sender holds at least that
/// share. The payout is the claimed fraction of the liquidity value (asset
/// value net of the minted liability); an insolvent pool surfaces as an
/// arithmetic error rather than a silently clamped payout. The guard sees
/// the reserve reduced by the claim. On success the share and reserve
/// shrink, a transfer instruction for the claimed units is returned, and the
/// maintenance step runs.
pub fn execute_withdraw_liquidity(
    pool: &mut Pool,
    sender: &Addr,
    requested_share_of_pool: u128,
    oracle_price: u128,
    now: u64,
) -> (r: Result<TransferInstruction, ContractError>)
    requires
        old(pool).wf(),
    ensures
        final(pool).wf(),
        r is Err ==> *final(pool) == *old(pool),
        (r == Err::<TransferInstruction, ContractError>(ContractError::InsufficientFunds)) == (
        requested_share_of_pool > old(pool).provided.share_of(sender@)),
        requested_share_of_pool <= old(pool).provided.share_of(sender@) && spec_price_context(
            old(pool).state,
            old(pool).hyper,
            oracle_price,
            now,
        ) is None ==> r == Err::<TransferInstruction, ContractError>(
            ContractError::ArithmeticError,
        ),
        ({
            let ctx = spec_price_context(old(pool).state, old(pool).hyper, oracle_price, now);
            ctx matches Some(c) ==> requested_share_of_pool <= old(pool).provided.share_of(
                sender@,
            ) ==> {
                let cur = c.current_snapshot;
                let fits = spec_withdraw_fits(old(pool).state, cur, requested_share_of_pool as int);
                let claimed = spec_withdraw_claimed(
                    old(pool).state,
                    cur,
                    requested_share_of_pool as int,
                );
                let proj_air = old(pool).state.assets_in_reserve - claimed;
                let lev_share = old(pool).state.total_leveraged_pool_share as int;
                let threshold = old(pool).hyper.minimum_protocol_ratio as int;
                &&& (r is Ok) == (fits && spec_health_ok(proj_air, lev_share, cur, threshold))
                &&& (r == Err::<TransferInstruction, ContractError>(
                    ContractError::WouldViolatePoolHealth,
                )) == (fits && lev_share > 0 && spec_pr_fits(
                    proj_air,
                    cur.asset_price as int,
                    lev_share,
                    cur.leveraged_price as int,
                ) && spec_pr(
                    proj_air,
                    cur.asset_price as int,
                    lev_share,
                    cur.leveraged_price as int,
                ) < threshold)
                &&& r is Err ==> (r == Err::<TransferInstruction, ContractError>(
                    ContractError::ArithmeticError,
                ) || r == Err::<TransferInstruction, ContractError>(
                    ContractError::WouldViolatePoolHealth,
                ))
                &&& r matches Ok(t) ==> {
                    let committed = (PoolState {
                        assets_in_reserve: proj_air as u128,
                        total_asset_pool_share: (old(pool).state.total_asset_pool_share
                            - requested_share_of_pool) as u128,
                        ..old(pool).state
                    });
                    &&& t.recipient@ == sender@
                    &&& t.amount == claimed
                    &&& final(pool).state == spec_maintained_state(committed, cur, now)
                    &&& final(pool).price_history@ == spec_maintained_history(
                        old(pool).price_history@,
                        old(pool).state.latest_historic_snapshot.timestamp,
                        cur,
                        now,
                    )
                    &&& final(pool).provided.share_of(sender@) == old(pool).provided.share_of(
                        sender@,
                    ) - requested_share_of_pool
                    &&& forall|b: Seq<u8>| b != sender@ ==> final(pool).provided.share_of(b)
                        == old(pool).provided.share_of(b)
                    &&& final(pool).minted == old(pool).minted
                    &&& final(pool).hyper == old(pool).hyper
                    &&& lev_share > 0 ==> spec_pr(
                        proj_air,
                        cur.asset_price as int,
                        lev_share,
                        cur.leveraged_price as int,
                    ) >= threshold
                }
            }
        }),
{
    let provider_share = pool.provided.get(sender);
    if requested_share_of_pool > provider_share {
        return Err(ContractError::InsufficientFunds);
    }
    let ctx = match get_price_context(pool, oracle_price, now) {
        Ok(c) => c,
        Err(e) => return Err(e),
    };
    let cur = ctx.current_snapshot;
    let total_asset_value = match pool.state.assets_in_reserve.checked_mul(cur.asset_price) {
        Some(v) => v,
        None => return Err(ContractError::ArithmeticError),
    };
    let total_minted_value = match pool.state.total_leveraged_assets.checked_mul(
        cur.leveraged_price,
    ) {
        Some(v) => v,
        None => return Err(ContractError::ArithmeticError),
    };
    let total_liq_pool_value = match total_asset_value.checked_sub(total_minted_value) {
        Some(v) => v,
        None => return Err(ContractError::ArithmeticError),
    };
    if cur.asset_price == 0 {
        return Err(ContractError::ArithmeticError);
    }
    let available_pool_tokens = total_liq_pool_value / cur.asset_price;
    let percent_pool_requested = match multiply_ratio(
        requested_share_of_pool,
        PRECISION,
        pool.state.total_asset_pool_share,
    ) {
        Ok(v) => v,
        Err(e) => return Err(e),
    };
    let claimed_units = match multiply_ratio(
        available_pool_tokens,
        percent_pool_requested,
        PRECISION,
    ) {
        Ok(v) => v,
        Err(e) => return Err(e),
    };
    let proj_air = match pool.state.assets_in_reserve.checked_sub(claimed_units) {
        Some(v) => v,
        None => return Err(ContractError::ArithmeticError),
    };
    match assert_health(
        proj_air,
        pool.state.total_leveraged_pool_share,
        &cur,
        pool.hyper.minimum_protocol_ratio,
    ) {
        Ok(()) => {},
        Err(e) => return Err(e),
    }
    proof {
        lemma_share_le_total(pool.provided@, sender@);
    }
    let _new_provider_share = pool.provided.debit(sender, requested_share_of_pool);
    pool.state.assets_in_reserve = proj_air;
    pool.state.total_asset_pool_share = pool.state.total_asset_pool_share
        - requested_share_of_pool;
    apply_maintenance(pool, cur, now);
    Ok(TransferInstruction { recipient: sender.clone(), amount: claimed_units })
}

} // verus!
