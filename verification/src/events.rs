//! Observability records returned by successful operations.

use vstd::prelude::*;

use crate::position::Direction;

verus! {

/// Emitted when a position is opened.
#[derive(Debug, Clone, Copy, PartialEq, Eq, Structural)]
pub struct PositionOpened {
    /// The position itself.
    pub position: u64,
    /// The authority of the position.
    pub authority: u64,
    /// The position size.
    pub size: u64,
    /// The collateral of the position.
    pub collateral: u64,
    /// The direction of the position.
    pub direction: Direction,
}

/// Emitted when a position is increased.
#[derive(Debug, Clone, Copy, PartialEq, Eq, Structural)]
pub struct PositionIncreased {
    /// The position itself.
    pub position: u64,
    /// The authority of the position.
    pub authority: u64,
    /// The size delta.
    pub size_delta: u128,
    /// The collateral delta, in USD.
    pub collateral_delta_usd: u128,
    /// The fee paid, in USD.
    pub fee: u128,
    /// The oracle price.
    pub price: u64,
}

} // verus!
