//! The global fee schedule.

use vstd::prelude::*;

use crate::args::CreateConfigArgs;

verus! {

/// The global fee schedule, immutable after creation except by an explicit
/// governance update path.
#[derive(Debug, Clone, Copy, PartialEq, Eq, Structural)]
pub struct Config {
    /// The config version.
    pub version: u8,
    /// The tax.
    pub tax_bps: u16,
    /// The stable tax.
    pub stable_tax_bps: u16,
    /// The fee for minting and redeeming LP positions.
    pub mint_burn_fee_bps: u16,
    /// The fee for non-stable swaps.
    pub swap_fee_bps: u16,
    /// The fee for stable swaps.
    pub stable_swap_fee_bps: u16,
    /// The fee applied to margin positions.
    pub margin_fee_bps: u16,
    /// The authority of the config.
    pub authority: u64,
}

impl Config {
    /// Initializes the fee schedule from the given arguments.
    pub fn init(&mut self, authority: u64, args: &CreateConfigArgs)
        ensures
            *final(self) == (Config {
                authority,
                tax_bps: args.tax_bps,
                stable_tax_bps: args.stable_tax_bps,
                mint_burn_fee_bps: args.mint_burn_fee_bps,
                swap_fee_bps: args.swap_fee_bps,
                stable_swap_fee_bps: args.stable_swap_fee_bps,
                margin_fee_bps: args.margin_fee_bps,
                ..*old(self)
            }),
    {
        self.authority = authority;
        self.tax_bps = args.tax_bps;
        self.stable_tax_bps = args.stable_tax_bps;
        self.mint_burn_fee_bps = args.mint_burn_fee_bps;
        self.swap_fee_bps = args.swap_fee_bps;
        self.stable_swap_fee_bps = args.stable_swap_fee_bps;
        self.margin_fee_bps = args.margin_fee_bps;
    }
}

} // verus!
