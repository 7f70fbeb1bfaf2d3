//! Failure values surfaced to the caller.  A failed call commits nothing.

use vstd::prelude::*;

verus! {

/// Every way a market operation can be rejected.
///
/// Arithmetic kinds are fatal to the call; capacity and solvency kinds
/// encode business invariants; existence kinds mean the caller addressed a
/// position that does not exist.
#[derive(Clone, Copy, Debug, PartialEq, Eq, Structural)]
pub enum ErrorCode {
    /// A product or sum does not fit the intermediate or output width.
    Overflow,
    /// A checked subtraction on an unsigned ledger field would go negative.
    Underflow,
    /// A divisor was zero.
    DivideByZero,
    /// Aggregate open interest would exceed the pool-wide size cap.
    SizeExceedsMaxSize,
    /// A single position would exceed the per-position size cap.
    SizeExceedsMaxSizePerPosition,
    /// A trade would walk past the last vertex of the premium curve.
    MaxPremiumRateExceeded,
    /// A margin balance would become negative.
    InsufficientMargin,
    /// A liquidity decrease asked for more than the position holds.
    InsufficientLiquidityToDecrease,
    /// A position decrease asked for more size than the position holds.
    InsufficientSizeToDecrease,
    /// The global pool has no liquidity to trade against.
    InsufficientGlobalLiquidity,
    /// A routine operation would leave a liquidity position at or below
    /// maintenance margin.
    RiskRateTooHigh,
    /// A liquidity-position liquidation was requested while the position is
    /// still solvent.
    RiskRateTooLow,
    /// A routine operation would leave a trader position at or below
    /// maintenance margin.
    MarginRateTooHigh,
    /// A trader-position liquidation was requested while the position is
    /// still solvent.
    MarginRateTooLow,
    /// Withdrawing the last liquidity is forbidden while open interest
    /// remains.
    LastLiquidityPositionCannotBeClosed,
    /// No liquidity position exists for the given account.
    LiquidityPositionNotFound,
    /// No trader position exists for the given account and side.
    PositionNotFound,
    /// A zero-size request, or a realized trade price worse than the
    /// caller's acceptable bound.
    InvalidOperation,
}

} // verus!
