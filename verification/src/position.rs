//! A user's leveraged exposure against a vault.

use vstd::prelude::*;

use crate::constants::BASIS_POINTS_DIVISOR;

verus! {

/// A change applied to one of a position's balances.
#[derive(Debug, Clone, Copy, PartialEq, Eq, Structural)]
pub enum PositionValueChange {
    /// Increase a value.
    Increase(u64),
    /// Decrease a value.
    Decrease(u64),
}

impl Default for PositionValueChange {
    /// The neutral change: an increase of zero.
    fn default() -> (r: Self)
        ensures
            r == PositionValueChange::Increase(0u64),
    {
        Self::Increase(0)
    }
}

/// The direction of a position.
#[derive(Debug, Clone, Copy, PartialEq, Eq, Structural)]
pub enum Direction {
    /// A long position where the collateral and underlying represent an
    /// asset.
    Long,
    /// A short position where the collateral and underlying represent a
    /// stablecoin.
    Short,
}

impl Default for Direction {
    /// Long, unless stated otherwise.
    fn default() -> (r: Self)
        ensures
            r == Direction::Long,
    {
        Self::Long
    }
}

/// One user's leveraged exposure: collateral, notional size and direction,
/// financially backed by exactly one vault's reserved liquidity.
///
/// Account identities are carried as opaque numeric identifiers; custody of
/// the escrowed funds is the caller's business.
#[derive(Debug, Clone, Copy, PartialEq, Eq, Structural)]
pub struct Position {
    /// The address of the position itself.
    pub self_address: u64,
    /// The position authority.
    pub authority: u64,
    /// The token mint of the position.
    pub token_mint: u64,
    /// The collateral of the position.
    pub collateral: u64,
    /// The position size.
    pub size: u64,
    /// The average entry price.
    pub avg_entry_price: u64,
    /// The direction of the position.
    pub direction: Direction,
    /// The last funding payment index.
    pub last_funding_index: u64,
    /// The timestamp of the last funding payment.
    pub last_funding_payment: u64,
}

/// The leverage of a position, in basis points: notional size over
/// collateral.
pub open spec fn leverage_spec(size: int, collateral: int) -> int {
    size * BASIS_POINTS_DIVISOR / collateral
}

/// A position is well-formed when it never carries size without collateral
/// behind it.
pub open spec fn position_wf(p: Position) -> bool {
    p.size > 0 ==> p.collateral > 0
}

impl Position {
    /// The leverage on this position, represented in basis points.
    pub fn leverage(&self) -> (r: u64)
        requires
            self.collateral > 0,
            self.size * BASIS_POINTS_DIVISOR <= u64::MAX,
        ensures
            r == leverage_spec(self.size as int, self.collateral as int),
    {
        (self.size * BASIS_POINTS_DIVISOR) / self.collateral
    }

    /// Initializes the position.
    pub fn init(
        &mut self,
        authority: u64,
        token_mint: u64,
        collateral: u64,
        size: u64,
        avg_entry_price: u64,
        direction: Direction,
    )
        ensures
            *final(self) == (Position {
                authority,
                token_mint,
                collateral,
                size,
                avg_entry_price,
                direction,
                ..*old(self)
            }),
    {
        self.authority = authority;
        self.token_mint = token_mint;
        self.collateral = collateral;
        self.size = size;
        self.avg_entry_price = avg_entry_price;
        self.direction = direction;
    }

    /// Records a funding payment: the position is now settled up to the
    /// given funding index and timestamp.
    pub fn pay_funding(&mut self, funding_index: u64, current_timestamp: u64)
        ensures
            *final(self) == (Position {
                last_funding_index: funding_index,
                last_funding_payment: current_timestamp,
                ..*old(self)
            }),
    {
        self.last_funding_index = funding_index;
        self.last_funding_payment = current_timestamp;
    }
}

} // verus!
