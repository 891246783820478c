//! Argument bundles for the state-changing operations.

use vstd::prelude::*;

use crate::position::Direction;

verus! {

/// Arguments for creating the global fee schedule.
#[derive(Debug, Default, Clone, Copy, PartialEq, Eq, Structural)]
pub struct CreateConfigArgs {
    /// The tax.
    pub tax_bps: u16,
    /// The stable tax.
    pub stable_tax_bps: u16,
    /// The fee for minting and redeeming LP positions.
    pub mint_burn_fee_bps: u16,
    /// The fee for non-stable swaps.
    pub swap_fee_bps: u16,
    /// The fee for stable swaps.
    pub stable_swap_fee_bps: u16,
    /// The fee applied to margin positions.
    pub margin_fee_bps: u16,
}

/// Arguments for opening a position.
#[derive(Debug, Clone, Copy, PartialEq, Eq, Structural)]
pub struct EnterPositionArgs {
    /// The user's collateral to be used.
    pub collateral: u64,
    /// The total position size.
    pub size: u64,
    /// The direction of the position.
    pub direction: Direction,
}

/// Arguments for swapping one vault's asset against another's.
#[derive(Debug, Default, Clone, Copy, PartialEq, Eq, Structural)]
pub struct SwapArgs {
    /// The amount of asset A to be swapped.
    pub amount_in: u64,
    /// The minimum amount of asset B.
    pub min_amount_out: u64,
}

} // verus!
