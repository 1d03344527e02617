//! Query entry points of the pool: each reads the pool and shapes an answer
//! record. The boundary layer owns the wire encoding and the message
//! dispatch; these functions carry the answers as plain values.
use vstd::prelude::*;
use crate::addr::Addr;
use crate::error::ContractError;
use crate::leverage_man::{
    Pool, get_liquidity_position, get_mint_map, spec_pr, spec_pr_fits, spec_price_context,
};
use crate::pool::{
    AllPoolInfoResponse, HyperparametersResponse, LeveragedPositionResponse,
    LiquidityPositionResponse, MinterPosition, PoolStateResponse, PriceHistoryResponse,
    ProtocolRatioResponse, ProviderPosition,
};

verus! {

/// Expose the immutable hyperparameters configured at creation.
pub fn query_hyperparameters(pool: &Pool) -> (r: HyperparametersResponse)
    ensures
        r.leverage_amount == pool.hyper.leverage_amount,
        r.minimum_protocol_ratio == pool.hyper.minimum_protocol_ratio,
        r.rebalance_ratio == pool.hyper.rebalance_ratio,
        r.mint_premium == pool.hyper.mint_premium,
        r.rebalance_premium == pool.hyper.rebalance_premium,
        r.terraswap_pair_addr@ == pool.hyper.terraswap_pair_addr@,
        r.leveraged_asset_addr@ == pool.hyper.leveraged_asset_addr@,
{
    HyperparametersResponse {
        leverage_amount: pool.hyper.leverage_amount,
        minimum_protocol_ratio: pool.hyper.minimum_protocol_ratio,
        rebalance_ratio: pool.hyper.rebalance_ratio,
        mint_premium: pool.hyper.mint_premium,
        rebalance_premium: pool.hyper.rebalance_premium,
        terraswap_pair_addr: pool.hyper.terraswap_pair_addr.clone(),
        leveraged_asset_addr: pool.hyper.leveraged_asset_addr.clone(),
    }
}

/// Expose the pool aggregates and the opening snapshot.
pub fn query_pool_state(pool: &Pool) -> (r: PoolStateResponse)
    ensures
        r == (PoolStateResponse {
            opening_snapshot: pool.state.latest_reset_snapshot,
            assets_in_reserve: pool.state.assets_in_reserve,
            total_leveraged_assets: pool.state.total_leveraged_assets,
            total_asset_pool_share: pool.state.total_asset_pool_share,
            total_leveraged_pool_share: pool.state.total_leveraged_pool_share,
        }),
{
    PoolStateResponse {
        opening_snapshot: pool.state.latest_reset_snapshot,
        assets_in_reserve: pool.state.assets_in_reserve,
        total_leveraged_assets: pool.state.total_leveraged_assets,
        total_asset_pool_share: pool.state.total_asset_pool_share,
        total_leveraged_pool_share: pool.state.total_leveraged_pool_share,
    }
}

/// Expose the retained price history.
pub fn query_price_history(pool: &Pool) -> (r: PriceHistoryResponse)
    ensures
        r.price_history@ == pool.price_history@,
{
    PriceHistoryResponse { price_history: crate::leverage_man::query_price_history(pool) }
}

/// Expose the minted position held by `address`.
pub fn query_addr_leveraged_position(pool: &Pool, address: &Addr) -> (r: LeveragedPositionResponse)
    requires
        pool.wf(),
    ensures
        r.position == (MinterPosition {
            leveraged_pool_partial_share: pool.minted.share_of(address@),
            leveraged_pool_total_share: pool.state.total_leveraged_pool_share,
        }),
{
    LeveragedPositionResponse { position: get_mint_map(pool, address) }
}

/// Expose the liquidity position held by `address`.
pub fn query_addr_liquidity_position(pool: &Pool, address: &Addr) -> (r: LiquidityPositionResponse)
    requires
        pool.wf(),
    ensures
        r.position == (ProviderPosition {
            asset_pool_partial_share: pool.provided.share_of(address@),
            asset_pool_total_share: pool.state.total_asset_pool_share,
        }),
{
    LiquidityPositionResponse { position: get_liquidity_position(pool, address) }
}

/// Expose the protocol ratio of the current state at the current price
/// context.
pub fn query_pr(pool: &Pool, oracle_price: u128, now: u64) -> (r: Result<
    ProtocolRatioResponse,
    ContractError,
>)
    ensures
        ({
            let ctx = spec_price_context(pool.state, pool.hyper, oracle_price, now);
            &&& (r is Ok) == (ctx is Some && spec_pr_fits(
                pool.state.assets_in_reserve as int,
                ctx.unwrap().current_snapshot.asset_price as int,
                pool.state.total_leveraged_assets as int,
                ctx.unwrap().current_snapshot.leveraged_price as int,
            ))
            &&& r matches Ok(v) ==> v.pr == spec_pr(
                pool.state.assets_in_reserve as int,
                ctx.unwrap().current_snapshot.asset_price as int,
                pool.state.total_leveraged_assets as int,
                ctx.unwrap().current_snapshot.leveraged_price as int,
            )
            &&& r is Err ==> r == Err::<ProtocolRatioResponse, ContractError>(
                ContractError::ArithmeticError,
            )
        }),
{
    match crate::leverage_man::query_pr(pool, oracle_price, now) {
        Ok(pr) => Ok(ProtocolRatioResponse { pr }),
        Err(e) => Err(e),
    }
}

/// Answer configuration, state and price context in one query.
pub fn query_all_pool_info(pool: &Pool, oracle_price: u128, now: u64) -> (r: Result<
    AllPoolInfoResponse,
    ContractError,
>)
    ensures
        (r is Ok) == (spec_price_context(pool.state, pool.hyper, oracle_price, now) is Some),
        r matches Ok(info) ==> {
            &&& Some(info.price_context) == spec_price_context(
                pool.state,
                pool.hyper,
                oracle_price,
                now,
            )
            &&& info.pool_state == (PoolStateResponse {
                opening_snapshot: pool.state.latest_reset_snapshot,
                assets_in_reserve: pool.state.assets_in_reserve,
                total_leveraged_assets: pool.state.total_leveraged_assets,
                total_asset_pool_share: pool.state.total_asset_pool_share,
                total_leveraged_pool_share: pool.state.total_leveraged_pool_share,
            })
            &&& info.hyperparameters.leverage_amount == pool.hyper.leverage_amount
            &&& info.hyperparameters.minimum_protocol_ratio == pool.hyper.minimum_protocol_ratio
            &&& info.hyperparameters.rebalance_ratio == pool.hyper.rebalance_ratio
            &&& info.hyperparameters.mint_premium == pool.hyper.mint_premium
            &&& info.hyperparameters.rebalance_premium == pool.hyper.rebalance_premium
            &&& info.hyperparameters.terraswap_pair_addr@ == pool.hyper.terraswap_pair_addr@
            &&& info.hyperparameters.leveraged_asset_addr@ == pool.hyper.leveraged_asset_addr@
        },
        r is Err ==> r == Err::<AllPoolInfoResponse, ContractError>(
            ContractError::ArithmeticError,
        ),
{
    let price_context = match crate::leverage_man::get_price_context(pool, oracle_price, now) {
        Ok(c) => c,
        Err(e) => return Err(e),
    };
    Ok(AllPoolInfoResponse {
        hyperparameters: query_hyperparameters(pool),
        pool_state: query_pool_state(pool),
        price_context,
    })
}

/// Whether a received token is the pool's backing asset; anything else is
/// turned away.
pub fn is_pooled_asset(pool: &Pool, addr: &Addr) -> (r: bool)
    ensures
        r == (addr@ == pool.hyper.leveraged_asset_addr@),
{
    *addr == pool.hyper.leveraged_asset_addr
}

} // verus!
