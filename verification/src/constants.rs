//! Protocol-wide constants with fixed semantics.

use vstd::prelude::*;

verus! {

/// The decimals of a pyth price feed.
pub const PYTH_FEED_DECIMALS: i32 = 0;

/// The current exponent of a switchboard price feed.
pub const SWITCHBOARD_FEED_EXPONENT: i32 = 0;

/// The decimals of a switchboard price feed.
pub const SWITCHBOARD_FEED_DECIMALS: i32 = 0;

/// The target exponent for oracle prices.
///
/// A large exponent is used so accuracy is retained when consuming price
/// feeds where the value of the underlying is very small.
pub const ORACLE_PRICE_TARGET_EXPONENT: i32 = -10;

/// The target exponent when scaling a USD value while converting a native
/// token amount to a USD amount.
pub const USD_CONVERSION_TARGET_EXPONENT: i32 = 0;

/// The current exponent when scaling a USD value while converting a USD
/// amount to a native token amount.
pub const TOKEN_CONVERSION_CURRENT_EXPONENT: i32 = 0;

/// The decimals of the quote token.
pub const QUOTE_TOKEN_DECIMALS: u32 = 6;

/// The number of seconds in an hour.
pub const SECONDS_IN_HOUR: u64 = 3600;

/// The basis points divisor.
pub const BASIS_POINTS_DIVISOR: u64 = 10_000;

/// The time to live for an oracle price, in slots.
pub const ORACLE_PRICE_TTL_SLOTS: u64 = 30;

/// The time to live for the price coming from an oracle feed, in seconds.
pub const ORACLE_PRICE_FEED_TTL_SECS: u64 = 30;

/// The hourly funding accrual factor.
pub const FUNDING_RATE_FACTOR: u128 = 100_000;

} // verus!
