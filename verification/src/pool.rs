//! Shared data model of the leveraged pool.
//!
//! All prices, ratios and premiums are fixed-point integers scaled by
//! [`PRECISION`]; all division is floor division. Timestamps are seconds
//! since 1970-01-01T00:00:00Z.
use vstd::prelude::*;
use crate::addr::Addr;
use crate::error::ContractError;

verus! {

/// A spot price sample taken from the oracle.
#[derive(Clone, Copy, Debug, PartialEq, Eq, Structural)]
pub struct TSPricePoint {
    /// Price of the unleveraged asset, scaled by `PRECISION`.
    pub u_price: u128,
    /// When the sample was taken.
    pub timestamp: u64,
}

/// Snapshot of the unleveraged and the derived leveraged price at one time.
#[derive(Clone, Copy, Debug, PartialEq, Eq, Structural)]
pub struct PriceSnapshot {
    /// Price of the unleveraged asset.
    pub asset_price: u128,
    /// Derived price of the leveraged asset.
    pub leveraged_price: u128,
    /// Time of this snapshot.
    pub timestamp: u64,
}

/// The two snapshots every price-sensitive operation works from: the
/// "opening" baseline set at the last leverage reset, and the snapshot
/// derived from the current oracle price.
#[derive(Clone, Copy, Debug, PartialEq, Eq, Structural)]
pub struct PriceContext {
    pub opening_snapshot: PriceSnapshot,
    pub current_snapshot: PriceSnapshot,
}

/// Pool configuration, immutable after creation.
pub struct Hyperparameters {
    /// Leverage factor, `PRECISION` = 1x.
    pub leverage_amount: u128,
    /// Minimum protocol ratio enforced after every mutation.
    pub minimum_protocol_ratio: u128,
    /// Ratio below which a position is eligible for rebalancing.
    pub rebalance_ratio: u128,
    /// Premium charged when minting, `PRECISION` = 100%.
    pub mint_premium: u128,
    /// Premium charged on rebalanced positions.
    pub rebalance_premium: u128,
    /// The oracle pair the spot price is read from.
    pub terraswap_pair_addr: Addr,
    /// The identity of the leveraged asset.
    pub leveraged_asset_addr: Addr,
}

impl Clone for Hyperparameters {
    fn clone(&self) -> (r: Hyperparameters)
        ensures
            r.leverage_amount == self.leverage_amount,
            r.minimum_protocol_ratio == self.minimum_protocol_ratio,
            r.rebalance_ratio == self.rebalance_ratio,
            r.mint_premium == self.mint_premium,
            r.rebalance_premium == self.rebalance_premium,
            r.terraswap_pair_addr@ == self.terraswap_pair_addr@,
            r.leveraged_asset_addr@ == self.leveraged_asset_addr@,
    {
        Hyperparameters {
            leverage_amount: self.leverage_amount,
            minimum_protocol_ratio: self.minimum_protocol_ratio,
            rebalance_ratio: self.rebalance_ratio,
            mint_premium: self.mint_premium,
            rebalance_premium: self.rebalance_premium,
            terraswap_pair_addr: self.terraswap_pair_addr.clone(),
            leveraged_asset_addr: self.leveraged_asset_addr.clone(),
        }
    }
}

/// Pool-wide aggregates, mutated only through the guarded operations.
#[derive(Clone, Copy, Debug, PartialEq, Eq, Structural)]
pub struct PoolState {
    /// Snapshot taken when leverage was last reset: the baseline of the
    /// leveraged-price derivation.
    pub latest_reset_snapshot: PriceSnapshot,
    /// The most recent snapshot retained in the price history.
    pub latest_historic_snapshot: PriceSnapshot,
    /// Backing assets held by the pool, provided by minters and providers.
    pub assets_in_reserve: u128,
    /// Total share of the liquidity-provider pool.
    pub total_asset_pool_share: u128,
    /// Total minted leveraged assets; kept equal to
    /// `total_leveraged_pool_share` (a legacy duplicate).
    pub total_leveraged_assets: u128,
    /// Total share of all minted leveraged assets.
    pub total_leveraged_pool_share: u128,
}

/// An address's minted position: its own share and the pool-wide total.
#[derive(Clone, Copy, Debug, PartialEq, Eq, Structural)]
pub struct MinterPosition {
    pub leveraged_pool_partial_share: u128,
    pub leveraged_pool_total_share: u128,
}

/// An address's liquidity position: its own share and the pool-wide total.
#[derive(Clone, Copy, Debug, PartialEq, Eq, Structural)]
pub struct ProviderPosition {
    pub asset_pool_partial_share: u128,
    pub asset_pool_total_share: u128,
}

/// An instruction to pay out backing assets. The engine never moves funds:
/// the boundary layer is responsible for dispatching this.
pub struct TransferInstruction {
    pub recipient: Addr,
    pub amount: u128,
}

/// A request to open a leveraged position with `amount` backing assets.
pub struct TryMint {
    pub sender: Addr,
    pub amount: u128,
}

/// A request to close `pool_share` units of a leveraged position.
pub struct TryBurn {
    pub sender: Addr,
    pub pool_share: u128,
}

/// A request to deposit `amount` backing assets as liquidity.
pub struct ProvideLiquidityMsg {
    pub sender: Addr,
    pub amount: u128,
}

/// Actions a token transfer into the pool can carry.
#[derive(Clone, Copy, Debug, PartialEq, Eq, Structural)]
pub enum Cw20HookMsg {
    /// Deposit the transferred amount as pool liquidity.
    ProvideLiquidity,
    /// Absorb the transferred amount and open a leveraged position.
    MintLeveragedPosition,
}

/// Response to a deposit or withdrawal of liquidity.
#[derive(Clone, Copy, Debug, PartialEq, Eq, Structural)]
pub struct LiquidityResponse {
}

/// The current protocol ratio, scaled by `PRECISION`.
#[derive(Clone, Copy, Debug, PartialEq, Eq, Structural)]
pub struct ProtocolRatioResponse {
    pub pr: u128,
}

/// The values the pool was configured with at creation.
pub struct HyperparametersResponse {
    pub leverage_amount: u128,
    pub minimum_protocol_ratio: u128,
    pub rebalance_ratio: u128,
    pub mint_premium: u128,
    pub rebalance_premium: u128,
    pub terraswap_pair_addr: Addr,
    pub leveraged_asset_addr: Addr,
}

/// Operational data, changing as pool usage changes.
#[derive(Clone, Copy, Debug, PartialEq, Eq, Structural)]
pub struct PoolStateResponse {
    /// Price baseline since leverage was last reset.
    pub opening_snapshot: PriceSnapshot,
    pub assets_in_reserve: u128,
    pub total_leveraged_assets: u128,
    pub total_asset_pool_share: u128,
    pub total_leveraged_pool_share: u128,
}

/// The retained historic price samples, oldest first.
pub struct PriceHistoryResponse {
    pub price_history: Vec<PriceSnapshot>,
}

/// An address's liquidity position.
#[derive(Clone, Copy, Debug, PartialEq, Eq, Structural)]
pub struct LiquidityPositionResponse {
    pub position: ProviderPosition,
}

/// An address's minted position.
#[derive(Clone, Copy, Debug, PartialEq, Eq, Structural)]
pub struct LeveragedPositionResponse {
    pub position: MinterPosition,
}

/// Configuration, state and price context in one answer.
pub struct AllPoolInfoResponse {
    pub hyperparameters: HyperparametersResponse,
    pub pool_state: PoolStateResponse,
    pub price_context: PriceContext,
}

/// What `a * num / denom` is with mathematical integers and floor division.
pub open spec fn spec_multiply_ratio(a: int, num: int, denom: int) -> int {
    (a * num) / denom
}

/// Whether `a * num / denom` can be computed in 128-bit checked arithmetic:
/// the product must fit and the divisor must be nonzero.
pub open spec fn multiply_ratio_fits(a: int, num: int, denom: int) -> bool {
    &&& a * num <= u128::MAX
    &&& denom > 0
}

/// Fixed-point scaling step `a * num / denom`, floored, with checked
/// arithmetic: overflow of the product and a zero divisor are reported as
/// `ArithmeticError` rather than saturated or panicking.
pub fn multiply_ratio(a: u128, num: u128, denom: u128) -> (r: Result<u128, ContractError>)
    ensures
        r is Ok <==> multiply_ratio_fits(a as int, num as int, denom as int),
        r matches Ok(v) ==> v == spec_multiply_ratio(a as int, num as int, denom as int),
        r is Err ==> r == Err::<u128, ContractError>(ContractError::ArithmeticError),
{
    match a.checked_mul(num) {
        Some(product) => {
            if denom > 0 {
                Ok(product / denom)
            } else {
                Err(ContractError::ArithmeticError)
            }
        },
        None => Err(ContractError::ArithmeticError),
    }
}

} // verus!
