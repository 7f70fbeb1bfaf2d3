//! Accounting core of a leveraged perpetual-futures exchange.
//!
//! The crate tracks pooled liquidity provided by market makers, leveraged
//! long/short trader positions, and the piecewise-linear price-impact curve
//! used to execute trades against the pool.  Every operation is checked
//! fixed-point arithmetic over a single market's ledgers; a failed call
//! leaves the market state exactly as it was.

pub mod constants;
pub mod errors;
pub mod global;
pub mod liquidity_position;
pub mod math;
pub mod position;
pub mod price;
pub mod types;
