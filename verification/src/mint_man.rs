//! Minting manager: opening and closing leveraged positions.
//!
//! Every operation derives the current price context, converts between
//! unleveraged and leveraged units at that context, asks the health guard to
//! approve the projected post-operation state, and only then commits. A
//! rejected operation changes nothing.
use vstd::prelude::*;
use crate::error::ContractError;
use crate::ledger::lemma_share_le_total;
use crate::leverage_man::{
    Pool, assert_health, create_leveraged_position, burn_leveraged_position, get_price_context,
    spec_health_ok, spec_pr, spec_pr_fits, spec_price_context,
};
use crate::pool::{
    MinterPosition, PoolState, TransferInstruction, TryBurn, TryMint, multiply_ratio,
    multiply_ratio_fits, spec_multiply_ratio,
};

verus! {

/// Validate and mint the `proposed_mint` position.
///
/// The sent unleveraged amount buys its leveraged equivalent at the current
/// price context; the guard sees the projected reserves and leveraged share
/// (both including the deposit) and must find them at or above the minimum
/// protocol ratio. On success the sender's minted share and the aggregates
/// grow and the updated position is returned; on failure nothing changes.
pub fn execute_mint_leveraged(
    pool: &mut Pool,
    proposed_mint: &TryMint,
    oracle_price: u128,
    now: u64,
) -> (r: Result<MinterPosition, ContractError>)
    requires
        old(pool).wf(),
    ensures
        final(pool).wf(),
        r is Err ==> *final(pool) == *old(pool),
        spec_price_context(old(pool).state, old(pool).hyper, oracle_price, now) is None ==> r
            == Err::<MinterPosition, ContractError>(ContractError::ArithmeticError),
        ({
            let ctx = spec_price_context(old(pool).state, old(pool).hyper, oracle_price, now);
            ctx matches Some(c) ==> {
                let cur = c.current_snapshot;
                let amount = proposed_mint.amount;
                let equiv_fits = multiply_ratio_fits(
                    amount as int,
                    cur.asset_price as int,
                    cur.leveraged_price as int,
                );
                let equiv = spec_multiply_ratio(
                    amount as int,
                    cur.asset_price as int,
                    cur.leveraged_price as int,
                );
                let proj_air = old(pool).state.assets_in_reserve + amount;
                let proj_share = old(pool).state.total_leveraged_pool_share + equiv;
                let proj_fits = proj_air <= u128::MAX && proj_share <= u128::MAX;
                let threshold = old(pool).hyper.minimum_protocol_ratio as int;
                &&& (r is Ok) == (equiv_fits && proj_fits && spec_health_ok(
                    proj_air,
                    proj_share,
                    cur,
                    threshold,
                ))
                &&& (r == Err::<MinterPosition, ContractError>(
                    ContractError::WouldViolatePoolHealth,
                )) == (equiv_fits && proj_fits && proj_share > 0 && spec_pr_fits(
                    proj_air,
                    cur.asset_price as int,
                    proj_share,
                    cur.leveraged_price as int,
                ) && spec_pr(
                    proj_air,
                    cur.asset_price as int,
                    proj_share,
                    cur.leveraged_price as int,
                ) < threshold)
                &&& r is Err ==> (r == Err::<MinterPosition, ContractError>(
                    ContractError::ArithmeticError,
                ) || r == Err::<MinterPosition, ContractError>(
                    ContractError::WouldViolatePoolHealth,
                ))
                &&& r matches Ok(pos) ==> {
                    &&& final(pool).state == (PoolState {
                        assets_in_reserve: proj_air as u128,
                        total_leveraged_pool_share: proj_share as u128,
                        total_leveraged_assets: proj_share as u128,
                        ..old(pool).state
                    })
                    &&& final(pool).minted.share_of(proposed_mint.sender@) == old(pool).minted.share_of(proposed_mint.sender@) + equiv
                    &&& forall|b: Seq<u8>| b != proposed_mint.sender@ ==> final(pool).minted.share_of(b) == old(pool).minted.share_of(b)
                    &&& final(pool).provided == old(pool).provided
                    &&& final(pool).hyper == old(pool).hyper
                    &&& final(pool).price_history@ == old(pool).price_history@
                    &&& pos == (MinterPosition {
                        leveraged_pool_partial_share: (old(pool).minted.share_of(
                            proposed_mint.sender@,
                        ) + equiv) as u128,
                        leveraged_pool_total_share: proj_share as u128,
                    })
                    &&& proj_share > 0 ==> spec_pr(
                        proj_air,
                        cur.asset_price as int,
                        proj_share,
                        cur.leveraged_price as int,
                    ) >= threshold
                }
            }
        }),
{
    let sent_unleveraged_assets = proposed_mint.amount;
    let ctx = match get_price_context(pool, oracle_price, now) {
        Ok(c) => c,
        Err(e) => return Err(e),
    };
    let cur = ctx.current_snapshot;
    let new_leveraged_assets = match multiply_ratio(
        sent_unleveraged_assets,
        cur.asset_price,
        cur.leveraged_price,
    ) {
        Ok(v) => v,
        Err(e) => return Err(e),
    };
    let proj_air = match pool.state.assets_in_reserve.checked_add(sent_unleveraged_assets) {
        Some(v) => v,
        None => return Err(ContractError::ArithmeticError),
    };
    let proj_share = match pool.state.total_leveraged_pool_share.checked_add(new_leveraged_assets) {
        Some(v) => v,
        None => return Err(ContractError::ArithmeticError),
    };
    match assert_health(proj_air, proj_share, &cur, pool.hyper.minimum_protocol_ratio) {
        Ok(()) => {},
        Err(e) => return Err(e),
    }
    Ok(create_leveraged_position(
        pool,
        &proposed_mint.sender,
        new_leveraged_assets,
        sent_unleveraged_assets,
    ))
}

/// Validate and burn the `proposed_burn` leveraged position.
///
/// The requested share is the raw number of leveraged share units to burn;
/// the single scaling step is the price conversion of those units to the
/// redeemable unleveraged amount (the inverse price-context ratio). Fails
/// with `InsufficientFunds` unless the sender holds at least that share; the
/// guard sees the projected reduced state. On success the redeemed amount is
/// returned as a transfer instruction for the boundary layer to dispatch.
pub fn execute_burn_leveraged(
    pool: &mut Pool,
    proposed_burn: &TryBurn,
    oracle_price: u128,
    now: u64,
) -> (r: Result<TransferInstruction, ContractError>)
    requires
        old(pool).wf(),
    ensures
        final(pool).wf(),
        r is Err ==> *final(pool) == *old(pool),
        (r == Err::<TransferInstruction, ContractError>(ContractError::InsufficientFunds)) == (old(pool).minted.share_of(proposed_burn.sender@) < proposed_burn.pool_share),
        old(pool).minted.share_of(proposed_burn.sender@) >= proposed_burn.pool_share
            && spec_price_context(old(pool).state, old(pool).hyper, oracle_price, now) is None
            ==> r == Err::<TransferInstruction, ContractError>(ContractError::ArithmeticError),
        ({
            let ctx = spec_price_context(old(pool).state, old(pool).hyper, oracle_price, now);
            let burn = proposed_burn.pool_share;
            ctx matches Some(c) ==> old(pool).minted.share_of(proposed_burn.sender@) >= burn ==> {
                let cur = c.current_snapshot;
                let redeem_fits = multiply_ratio_fits(
                    burn as int,
                    cur.leveraged_price as int,
                    cur.asset_price as int,
                );
                let redeem = spec_multiply_ratio(
                    burn as int,
                    cur.leveraged_price as int,
                    cur.asset_price as int,
                );
                let proj_air = old(pool).state.assets_in_reserve - redeem;
                let proj_share = old(pool).state.total_leveraged_pool_share - burn;
                let threshold = old(pool).hyper.minimum_protocol_ratio as int;
                &&& (r is Ok) == (redeem_fits && redeem <= old(pool).state.assets_in_reserve
                    && spec_health_ok(proj_air, proj_share, cur, threshold))
                &&& (r == Err::<TransferInstruction, ContractError>(
                    ContractError::WouldViolatePoolHealth,
                )) == (redeem_fits && redeem <= old(pool).state.assets_in_reserve && proj_share > 0
                    && spec_pr_fits(
                    proj_air,
                    cur.asset_price as int,
                    proj_share,
                    cur.leveraged_price as int,
                ) && spec_pr(
                    proj_air,
                    cur.asset_price as int,
                    proj_share,
                    cur.leveraged_price as int,
                ) < threshold)
                &&& r is Err ==> (r == Err::<TransferInstruction, ContractError>(
                    ContractError::ArithmeticError,
                ) || r == Err::<TransferInstruction, ContractError>(
                    ContractError::WouldViolatePoolHealth,
                ))
                &&& r matches Ok(t) ==> {
                    &&& t.recipient@ == proposed_burn.sender@
                    &&& t.amount == redeem
                    &&& final(pool).state == (PoolState {
                        assets_in_reserve: proj_air as u128,
                        total_leveraged_pool_share: proj_share as u128,
                        total_leveraged_assets: proj_share as u128,
                        ..old(pool).state
                    })
                    &&& final(pool).minted.share_of(proposed_burn.sender@) == old(pool).minted.share_of(proposed_burn.sender@) - burn
                    &&& forall|b: Seq<u8>| b != proposed_burn.sender@ ==> final(pool).minted.share_of(b) == old(pool).minted.share_of(b)
                    &&& final(pool).provided == old(pool).provided
                    &&& final(pool).hyper == old(pool).hyper
                    &&& final(pool).price_history@ == old(pool).price_history@
                    &&& proj_share > 0 ==> spec_pr(
                        proj_air,
                        cur.asset_price as int,
                        proj_share,
                        cur.leveraged_price as int,
                    ) >= threshold
                }
            }
        }),
{
    let proposed_share = proposed_burn.pool_share;
    let leverage_share = pool.minted.get(&proposed_burn.sender);
    if leverage_share < proposed_share {
        return Err(ContractError::InsufficientFunds);
    }
    let ctx = match get_price_context(pool, oracle_price, now) {
        Ok(c) => c,
        Err(e) => return Err(e),
    };
    let cur = ctx.current_snapshot;
    let proposed_redeem_units = match multiply_ratio(
        proposed_share,
        cur.leveraged_price,
        cur.asset_price,
    ) {
        Ok(v) => v,
        Err(e) => return Err(e),
    };
    let proj_air = match pool.state.assets_in_reserve.checked_sub(proposed_redeem_units) {
        Some(v) => v,
        None => return Err(ContractError::ArithmeticError),
    };
    proof {
        lemma_share_le_total(pool.minted@, proposed_burn.sender@);
    }
    let proj_share = pool.state.total_leveraged_pool_share - proposed_share;
    match assert_health(proj_air, proj_share, &cur, pool.hyper.minimum_protocol_ratio) {
        Ok(()) => {},
        Err(e) => return Err(e),
    }
    match burn_leveraged_position(pool, &proposed_burn.sender, proposed_share, proposed_redeem_units) {
        Ok(_) => {},
        Err(e) => return Err(e),
    }
    Ok(TransferInstruction { recipient: proposed_burn.sender.clone(), amount: proposed_redeem_units })
}

} // verus!
