//! Fixed-point scales shared by every ledger computation.

use vstd::prelude::*;

verus! {

/// Scale of Q64.96 fixed-point prices and premium rates: `2^96`.
pub const Q96: u128 = 0x1000000000000000000000000;

/// Scale of Q192.64 fixed-point per-unit-liquidity growth accumulators:
/// `2^64`.
pub const Q64: u128 = 0x10000000000000000;

/// Divisor turning a basis-point rate into a fraction.
pub const BASIS_POINTS_DIVISOR: u128 = 10_000;

} // verus!
