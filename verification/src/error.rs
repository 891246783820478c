//! Error taxonomy of the accounting core.
//!
//! Input-validation and precondition errors are rejected before any state
//! mutation; invariant-violation and arithmetic errors abort the whole
//! operation with no partial effect observable.

use vstd::prelude::*;

verus! {

/// The reasons an operation of the accounting core can fail.
#[derive(Debug, Clone, Copy, PartialEq, Eq, Structural)]
pub enum ErrorCode {
    /// The provided signer is invalid.
    InvalidSigner,
    /// The provided token mint is invalid.
    InvalidTokenMint,
    /// A timestamp could not be converted to an unsigned value.
    InvalidTimestampConversion,
    /// The given timestamp does not match the desired funding interval.
    InvalidFundingInterval,
    /// The given token amount is invalid.
    InvalidTokenAmount,
    /// The given position size delta is invalid.
    InvalidSizeDelta,
    /// The resulting average price does not fit in 64 bits.
    InvalidAveragePrice,
    /// The given vault does not have sufficient liquidity to enter the
    /// desired position.
    InsufficientLiquidityToEnterPosition,
    /// The given vault does not have sufficient liquidity to perform the
    /// swap.
    InsufficientLiquidityForSwap,
    /// The position's collateral cannot cover the charged fees.
    InsufficientCollateralForFee,
    /// The given vault has deposited assets.
    CannotCloseVaultWithDepositedAssets,
    /// The given vault has reserved assets.
    CannotCloseVaultWithReservedAssets,
    /// The position's leverage would exceed the maximum leverage allowed.
    PositionLeverageExceedsLimit,
    /// The oracle feed is older than its time to live.
    StaleOracleFeed,
    /// A computation would overflow its 128-bit intermediate precision.
    ArithmeticOverflow,
    /// A computation would drive an unsigned quantity below zero.
    ArithmeticUnderflow,
    /// A computation would divide by zero.
    DivideByZero,
}

impl ErrorCode {
    /// A short human-readable description of the error.
    pub fn message(&self) -> &'static str {
        match self {
            ErrorCode::InvalidSigner => "The provided signer is invalid.",
            ErrorCode::InvalidTokenMint => "The provided token mint is invalid.",
            ErrorCode::InvalidTimestampConversion => {
                "Timestamp could not be converted to an unsigned value."
            },
            ErrorCode::InvalidFundingInterval => {
                "The given timestamp does not match the desired funding interval."
            },
            ErrorCode::InvalidTokenAmount => "The given token amount is invalid.",
            ErrorCode::InvalidSizeDelta => "The given position size delta is invalid.",
            ErrorCode::InvalidAveragePrice => "The resulting average price is invalid.",
            ErrorCode::InsufficientLiquidityToEnterPosition => {
                "The given vault does not have sufficient liquidity to enter the desired position."
            },
            ErrorCode::InsufficientLiquidityForSwap => {
                "The given vault does not have sufficient liquidity to perform the swap."
            },
            ErrorCode::InsufficientCollateralForFee => {
                "The position's collateral cannot cover the charged fees."
            },
            ErrorCode::CannotCloseVaultWithDepositedAssets => {
                "The given vault has deposited assets."
            },
            ErrorCode::CannotCloseVaultWithReservedAssets => {
                "The given vault has reserved assets."
            },
            ErrorCode::PositionLeverageExceedsLimit => {
                "The position's leverage would exceed the maximum leverage allowed."
            },
            ErrorCode::StaleOracleFeed => "The oracle feed is older than its time to live.",
            ErrorCode::ArithmeticOverflow => "A computation overflowed.",
            ErrorCode::ArithmeticUnderflow => "A computation underflowed.",
            ErrorCode::DivideByZero => "A computation divided by zero.",
        }
    }
}

} // verus!
