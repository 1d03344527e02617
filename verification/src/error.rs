//! Error taxonomy of the pool engine.
//!
//! Every failure mode surfaces a distinct kind so callers can tell
//! "insufficient balance" from "would destabilize the pool" from
//! "oracle unavailable".
use vstd::prelude::*;

verus! {

/// Errors returned by the pool engine. Guard checks run before any mutation,
/// so a function that returns one of these has changed nothing.
#[derive(Clone, Copy, Debug, PartialEq, Eq, Structural)]
pub enum ContractError {
    /// Overflow, underflow or division by zero in fixed-point arithmetic.
    /// Arithmetic is checked everywhere: nothing saturates silently.
    ArithmeticError,
    /// The oracle response did not hold exactly two reserve balances.
    UnexpectedOracleResponse,
    /// One of the two oracle reserves was zero.
    NoTokenLiquidity,
    /// The proposed transition would drop the protocol ratio below the
    /// configured minimum.
    WouldViolatePoolHealth,
    /// The hyperparameters offered at pool creation are out of bounds.
    InvalidPoolParams,
    /// The caller does not hold the share it is trying to burn or withdraw.
    InsufficientFunds,
}

} // verus!
