//! Verified core of a cryptocurrency market-making engine.
//!
//! Prices and quantities are 64-bit signed fixed-point integers with scale
//! 10^8; all hot-path arithmetic is integer arithmetic.

use vstd::prelude::*;

pub mod arb;
pub mod book;
pub mod config;
pub mod consolidated;
pub mod cross;
pub mod cross_risk;
pub mod engine;
pub mod exchange;
pub mod fixed;
pub mod ladder;
pub mod pool;
pub mod queue;
pub mod risk;
pub mod strategy;
pub mod types;

verus! {

/// Fixed-point scale: one unit of price or quantity is 10^8.
pub const PRECISION: i64 = 100_000_000;

/// 10^4 * 10^8: turns a price ratio into basis points at fixed-point
/// scale 10^8 in one multiplication.
pub const BPS_MUL: i64 = 1_000_000_000_000;

} // verus!
