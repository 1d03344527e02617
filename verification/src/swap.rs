//! Spot-price derivation from an AMM reserve pool.
//!
//! The boundary layer queries the external pair contract for its two reserve
//! balances and hands them here; the price of the leveraged asset in capital
//! units is derived from the reserve ratio alone — a pure spot price, no
//! smoothing.
use vstd::prelude::*;
use crate::PRECISION;
use crate::addr::Addr;
use crate::error::ContractError;
use crate::pool::TSPricePoint;

verus! {

/// One reserve balance of the queried pair: the asset's identity (a token
/// contract address or a native denomination) and the pooled amount.
pub struct AssetReserve {
    pub asset_id: Addr,
    pub amount: u128,
}

/// The reserve of the leveraged asset among exactly two returned reserves:
/// the later entry naming the asset wins, zero when neither names it.
pub open spec fn spec_asset_reserve(reserves: Seq<AssetReserve>, leveraged_asset: Seq<u8>) -> int {
    if reserves[1].asset_id@ == leveraged_asset {
        reserves[1].amount as int
    } else if reserves[0].asset_id@ == leveraged_asset {
        reserves[0].amount as int
    } else {
        0
    }
}

/// The capital reserve among exactly two returned reserves: the later entry
/// not naming the leveraged asset wins, zero when both name it.
pub open spec fn spec_capital_reserve(reserves: Seq<AssetReserve>, leveraged_asset: Seq<u8>) -> int {
    if reserves[1].asset_id@ != leveraged_asset {
        reserves[1].amount as int
    } else if reserves[0].asset_id@ != leveraged_asset {
        reserves[0].amount as int
    } else {
        0
    }
}

/// Derive the spot price of the leveraged asset from the pair's reserve
/// balances: `floor(capital reserve x PRECISION / asset reserve)`.
///
/// Fails with `UnexpectedOracleResponse` unless exactly two reserves were
/// returned, and with `NoTokenLiquidity` when either side of the pair is
/// empty.
pub fn ts_price_from_reserves(
    leveraged_asset: &Addr,
    reserves: &Vec<AssetReserve>,
    now: u64,
) -> (r: Result<TSPricePoint, ContractError>)
    ensures
        (r == Err::<TSPricePoint, ContractError>(ContractError::UnexpectedOracleResponse)) == (
        reserves@.len() != 2),
        reserves@.len() == 2 ==> {
            let asset_amt = spec_asset_reserve(reserves@, leveraged_asset@);
            let capital_amt = spec_capital_reserve(reserves@, leveraged_asset@);
            &&& (r == Err::<TSPricePoint, ContractError>(ContractError::NoTokenLiquidity)) == (
            asset_amt == 0 || capital_amt == 0)
            &&& (r == Err::<TSPricePoint, ContractError>(ContractError::ArithmeticError)) == (
            asset_amt != 0 && capital_amt != 0 && capital_amt * PRECISION > u128::MAX)
            &&& (r is Ok) == (asset_amt != 0 && capital_amt != 0 && capital_amt * PRECISION
                <= u128::MAX)
            &&& r matches Ok(p) ==> p == (TSPricePoint {
                u_price: (capital_amt * PRECISION / asset_amt) as u128,
                timestamp: now,
            })
        },
{
    if reserves.len() != 2 {
        return Err(ContractError::UnexpectedOracleResponse);
    }
    let mut asset_amt: u128 = 0;
    let mut capital_amt: u128 = 0;
    if reserves[0].asset_id == *leveraged_asset {
        asset_amt = reserves[0].amount;
    } else {
        capital_amt = reserves[0].amount;
    }
    if reserves[1].asset_id == *leveraged_asset {
        asset_amt = reserves[1].amount;
    } else {
        capital_amt = reserves[1].amount;
    }
    if asset_amt == 0 || capital_amt == 0 {
        return Err(ContractError::NoTokenLiquidity);
    }
    let scaled = match capital_amt.checked_mul(PRECISION) {
        Some(v) => v,
        None => return Err(ContractError::ArithmeticError),
    };
    Ok(TSPricePoint { u_price: scaled / asset_amt, timestamp: now })
}

} // verus!
