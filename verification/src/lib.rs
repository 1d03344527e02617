//! Accounting and solvency-enforcement engine for a synthetic leveraged-asset
//! pool: liquidity providers deposit a backing asset, minters open and close
//! leveraged positions against that backing, a synthetic leveraged price is
//! derived from an external spot-price oracle, and every mutation is guarded
//! by a minimum collateralization ratio.
//!
//! Layout: [`pool`] holds the shared data model and the fixed-point ratio
//! step; [`leverage_man`] derives the price context and maintains the pool;
//! [`mint_man`] and [`liquid_man`] hold the guarded operations; [`ledger`]
//! the per-address share maps; [`swap`] the oracle-price derivation;
//! [`contract`] the query surface; [`factory`] the pool factory. The
//! boundary layer owns message dispatch, storage and transfers: the engine
//! takes plain values and returns plain values.
use vstd::prelude::*;

pub mod addr;
pub mod contract;
pub mod error;
pub mod factory;
pub mod ledger;
pub mod liquid_man;
pub mod mint_man;
pub mod leverage_man;
pub mod pool;
pub mod swap;

verus! {

/// Fixed-point scale: all prices, ratios and premiums are integers scaled by
/// this constant, so that `PRECISION` represents 1.0.
pub const PRECISION: u128 = 1_000_000;

} // verus!
