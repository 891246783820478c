//! Oracle price normalization.
//!
//! A raw oracle reading — a price, a confidence value and the exponent of
//! the feed — is rescaled to [`crate::constants::ORACLE_PRICE_TARGET_EXPONENT`]
//! and classified: a reading whose confidence stays below the caller's
//! threshold is returned as-is, a wider one is returned together with its
//! confidence bounds so the caller can apply a conservative pricing policy.
//!
//! Fetching and deserializing the feed itself is the caller's business: the
//! functions here consume plain integers.

use vstd::arithmetic::div_mod::{lemma_basic_div, lemma_div_nonincreasing};
use vstd::prelude::*;

use crate::constants::{ORACLE_PRICE_FEED_TTL_SECS, ORACLE_PRICE_TARGET_EXPONENT,
    PYTH_FEED_DECIMALS, SWITCHBOARD_FEED_DECIMALS};
use crate::error::ErrorCode;
use crate::math::{lemma_pow10_increases, lemma_pow10_positive, lemma_u128_below_pow10_39, pow10,
    pow10_u128};

verus! {

/// A normalized oracle price whose confidence interval stays within the
/// caller's threshold.
#[derive(Debug, Clone, Copy, PartialEq, Eq, Structural)]
pub enum PriceFeedResult {
    /// Price is within the maximum confidence interval threshold.
    Confident(u128),
    /// The maximum confidence interval threshold was exceeded, thus the
    /// price is bounded.
    Bounded(BoundedPrice),
}

/// A normalized oracle price together with its confidence bounds, handed
/// to callers that must apply a conservative pricing policy.
#[derive(Debug, Clone, Copy, PartialEq, Eq, Structural)]
pub struct BoundedPrice {
    /// The price.
    pub price: u128,
    /// The lower bound price.
    pub lower_bound: u128,
    /// The higher bound price.
    pub higher_bound: u128,
}

/// The number of decimal digits an amount moves when it is rebased from
/// `current_expo` with `base_decimals` onto `target_expo`.
pub open spec fn shift_of(base_decimals: int, current_expo: int, target_expo: int) -> int {
    base_decimals + current_expo - target_expo
}

/// What rescaling an amount by `shift` decimal digits yields: a left shift
/// multiplies, a right shift divides with truncation toward zero.
pub open spec fn rescale(amount: int, shift: int) -> int {
    if shift >= 0 {
        amount * pow10(shift as nat)
    } else {
        amount / pow10((-shift) as nat)
    }
}

/// What [`scale_amount`] returns: the rescaled amount, or an overflow error
/// when the rescaled amount does not fit in 128 bits.
pub open spec fn scale_amount_spec(
    amount: int,
    base_decimals: int,
    current_expo: int,
    target_expo: int,
) -> Result<u128, ErrorCode> {
    let shift = shift_of(base_decimals, current_expo, target_expo);
    if rescale(amount, shift) > u128::MAX {
        Err(ErrorCode::ArithmeticOverflow)
    } else {
        Ok(rescale(amount, shift) as u128)
    }
}

/// The decimal shift between the two exponent/decimal bases.
fn get_target_exponent(base_decimals: i32, current_expo: i32, target_expo: i32) -> (r: i64)
    ensures
        r == shift_of(base_decimals as int, current_expo as int, target_expo as int),
{
    base_decimals as i64 + current_expo as i64 - target_expo as i64
}

/// Scales the given amount from its current exponent to the target exponent.
///
/// A negative shift truncates toward zero; a positive shift fails with
/// [`ErrorCode::ArithmeticOverflow`] when the multiplication overflows 128
/// bits.
pub fn scale_amount(
    amount: u128,
    base_decimals: i32,
    current_expo: i32,
    target_expo: i32,
) -> (r: Result<u128, ErrorCode>)
    ensures
        r == scale_amount_spec(
            amount as int,
            base_decimals as int,
            current_expo as int,
            target_expo as int,
        ),
{
    let shift: i64 = get_target_exponent(base_decimals, current_expo, target_expo);
    if shift >= 0 {
        if shift > 38 {
            if amount == 0 {
                proof {
                    assert(0int * pow10(shift as nat) == 0) by (nonlinear_arith);
                }
                Ok(0)
            } else {
                proof {
                    lemma_pow10_increases(39nat, shift as nat);
                    lemma_u128_below_pow10_39();
                    assert(amount * pow10(shift as nat) >= 1 * pow10(shift as nat))
                        by (nonlinear_arith)
                        requires amount >= 1 && pow10(shift as nat) >= 0;
                }
                Err(ErrorCode::ArithmeticOverflow)
            }
        } else {
            let decimal_adj = pow10_u128(shift as u32);
            match amount.checked_mul(decimal_adj) {
                Some(scaled) => Ok(scaled),
                None => Err(ErrorCode::ArithmeticOverflow),
            }
        }
    } else {
        let s: i64 = -shift;
        if s > 38 {
            proof {
                lemma_pow10_increases(39nat, s as nat);
                lemma_u128_below_pow10_39();
                lemma_basic_div(amount as int, pow10(s as nat));
            }
            Ok(0)
        } else {
            let decimal_adj = pow10_u128(s as u32);
            proof {
                lemma_pow10_positive(s as nat);
                lemma_div_nonincreasing(amount as int, pow10(s as nat));
            }
            Ok(amount / decimal_adj)
        }
    }
}

/// The confidence bounds around a normalized price: the price, less and
/// plus the normalized confidence.
pub open spec fn bounded_price_spec(scaled_price: int, scaled_confidence: int) -> Result<
    PriceFeedResult,
    ErrorCode,
> {
    if scaled_confidence > scaled_price {
        Err(ErrorCode::ArithmeticUnderflow)
    } else if scaled_price + scaled_confidence > u128::MAX {
        Err(ErrorCode::ArithmeticOverflow)
    } else {
        Ok(
            PriceFeedResult::Bounded(
                BoundedPrice {
                    price: scaled_price as u128,
                    lower_bound: (scaled_price - scaled_confidence) as u128,
                    higher_bound: (scaled_price + scaled_confidence) as u128,
                },
            ),
        )
    }
}

/// What [`get_pyth_price`] returns: a reading older than its time to live
/// is stale; otherwise the price and confidence are rebased onto the
/// oracle target exponent and the reading is classified against the
/// caller's confidence threshold, stated in raw feed units.
pub open spec fn pyth_price_spec(
    price: int,
    conf: int,
    expo: int,
    publish_time: int,
    max_confidence_threshold: int,
    unix_timestamp: int,
) -> Result<PriceFeedResult, ErrorCode> {
    if unix_timestamp - publish_time > ORACLE_PRICE_FEED_TTL_SECS {
        Err(ErrorCode::StaleOracleFeed)
    } else {
        match scale_amount_spec(
            price,
            PYTH_FEED_DECIMALS as int,
            expo,
            ORACLE_PRICE_TARGET_EXPONENT as int,
        ) {
            Err(e) => Err(e),
            Ok(scaled_price) => {
                match scale_amount_spec(
                    conf,
                    PYTH_FEED_DECIMALS as int,
                    expo,
                    ORACLE_PRICE_TARGET_EXPONENT as int,
                ) {
                    Err(e) => Err(e),
                    Ok(scaled_confidence) => {
                        if conf < max_confidence_threshold {
                            Ok(PriceFeedResult::Confident(scaled_price))
                        } else {
                            bounded_price_spec(scaled_price as int, scaled_confidence as int)
                        }
                    },
                }
            },
        }
    }
}

/// Gets an asset's price from the raw reading of a pyth-style feed and
/// applies bounds if necessary.
///
/// The caller deserializes the feed and hands over its price, confidence,
/// exponent and publish time unchanged.
pub fn get_pyth_price(
    price: i64,
    conf: u64,
    expo: i32,
    publish_time: i64,
    max_confidence_threshold: u64,
    unix_timestamp: i64,
) -> (r: Result<PriceFeedResult, ErrorCode>)
    requires
        price >= 0,
    ensures
        r == pyth_price_spec(
            price as int,
            conf as int,
            expo as int,
            publish_time as int,
            max_confidence_threshold as int,
            unix_timestamp as int,
        ),
{
    if (unix_timestamp as i128) - (publish_time as i128) > ORACLE_PRICE_FEED_TTL_SECS as i128 {
        return Err(ErrorCode::StaleOracleFeed);
    }
    let scaled_price = match scale_amount(
        price as u128,
        PYTH_FEED_DECIMALS,
        expo,
        ORACLE_PRICE_TARGET_EXPONENT,
    ) {
        Ok(p) => p,
        Err(e) => {
            return Err(e);
        },
    };
    let scaled_confidence = match scale_amount(
        conf as u128,
        PYTH_FEED_DECIMALS,
        expo,
        ORACLE_PRICE_TARGET_EXPONENT,
    ) {
        Ok(c) => c,
        Err(e) => {
            return Err(e);
        },
    };
    if conf < max_confidence_threshold {
        Ok(PriceFeedResult::Confident(scaled_price))
    } else if scaled_confidence > scaled_price {
        Err(ErrorCode::ArithmeticUnderflow)
    } else {
        match scaled_price.checked_add(scaled_confidence) {
            Some(higher_bound) => Ok(
                PriceFeedResult::Bounded(
                    BoundedPrice {
                        price: scaled_price,
                        lower_bound: scaled_price - scaled_confidence,
                        higher_bound,
                    },
                ),
            ),
            None => Err(ErrorCode::ArithmeticOverflow),
        }
    }
}

/// What [`get_switchboard_price`] returns: a reading whose round opened
/// longer ago than the time to live is stale; otherwise the result, its
/// standard deviation and the caller's threshold — all plain decimals,
/// each a mantissa with a scale — are rebased onto the oracle target
/// exponent and the reading is classified.
pub open spec fn switchboard_price_spec(
    result_mantissa: int,
    result_scale: int,
    std_deviation_mantissa: int,
    std_deviation_scale: int,
    max_confidence_mantissa: int,
    max_confidence_scale: int,
    round_open_timestamp: int,
    unix_timestamp: int,
) -> Result<PriceFeedResult, ErrorCode> {
    if unix_timestamp - round_open_timestamp > ORACLE_PRICE_FEED_TTL_SECS {
        Err(ErrorCode::StaleOracleFeed)
    } else {
        match scale_amount_spec(
            result_mantissa,
            SWITCHBOARD_FEED_DECIMALS as int,
            -result_scale,
            ORACLE_PRICE_TARGET_EXPONENT as int,
        ) {
            Err(e) => Err(e),
            Ok(scaled_price) => {
                match scale_amount_spec(
                    std_deviation_mantissa,
                    SWITCHBOARD_FEED_DECIMALS as int,
                    -std_deviation_scale,
                    ORACLE_PRICE_TARGET_EXPONENT as int,
                ) {
                    Err(e) => Err(e),
                    Ok(scaled_std_deviation) => {
                        match scale_amount_spec(
                            max_confidence_mantissa,
                            SWITCHBOARD_FEED_DECIMALS as int,
                            -max_confidence_scale,
                            ORACLE_PRICE_TARGET_EXPONENT as int,
                        ) {
                            Err(e) => Err(e),
                            Ok(scaled_threshold) => {
                                if scaled_std_deviation <= scaled_threshold {
                                    Ok(PriceFeedResult::Confident(scaled_price))
                                } else {
                                    bounded_price_spec(
                                        scaled_price as int,
                                        scaled_std_deviation as int,
                                    )
                                }
                            },
                        }
                    },
                }
            },
        }
    }
}

/// Gets an asset's price from the raw reading of a switchboard-style feed
/// and applies bounds if necessary.
///
/// The caller deserializes the aggregator and hands over the latest
/// confirmed round's result and standard deviation, and its confidence
/// threshold, each as a decimal mantissa with a scale.
pub fn get_switchboard_price(
    result_mantissa: u128,
    result_scale: u32,
    std_deviation_mantissa: u128,
    std_deviation_scale: u32,
    max_confidence_mantissa: u128,
    max_confidence_scale: u32,
    round_open_timestamp: i64,
    unix_timestamp: i64,
) -> (r: Result<PriceFeedResult, ErrorCode>)
    requires
        result_scale <= 28,
        std_deviation_scale <= 28,
        max_confidence_scale <= 28,
    ensures
        r == switchboard_price_spec(
            result_mantissa as int,
            result_scale as int,
            std_deviation_mantissa as int,
            std_deviation_scale as int,
            max_confidence_mantissa as int,
            max_confidence_scale as int,
            round_open_timestamp as int,
            unix_timestamp as int,
        ),
{
    if (unix_timestamp as i128) - (round_open_timestamp as i128) > ORACLE_PRICE_FEED_TTL_SECS
        as i128 {
        return Err(ErrorCode::StaleOracleFeed);
    }
    let scaled_price = match scale_amount(
        result_mantissa,
        SWITCHBOARD_FEED_DECIMALS,
        -(result_scale as i32),
        ORACLE_PRICE_TARGET_EXPONENT,
    ) {
        Ok(p) => p,
        Err(e) => {
            return Err(e);
        },
    };
    let scaled_std_deviation = match scale_amount(
        std_deviation_mantissa,
        SWITCHBOARD_FEED_DECIMALS,
        -(std_deviation_scale as i32),
        ORACLE_PRICE_TARGET_EXPONENT,
    ) {
        Ok(d) => d,
        Err(e) => {
            return Err(e);
        },
    };
    let scaled_threshold = match scale_amount(
        max_confidence_mantissa,
        SWITCHBOARD_FEED_DECIMALS,
        -(max_confidence_scale as i32),
        ORACLE_PRICE_TARGET_EXPONENT,
    ) {
        Ok(t) => t,
        Err(e) => {
            return Err(e);
        },
    };
    if scaled_std_deviation <= scaled_threshold {
        Ok(PriceFeedResult::Confident(scaled_price))
    } else if scaled_std_deviation > scaled_price {
        Err(ErrorCode::ArithmeticUnderflow)
    } else {
        match scaled_price.checked_add(scaled_std_deviation) {
            Some(higher_bound) => Ok(
                PriceFeedResult::Bounded(
                    BoundedPrice {
                        price: scaled_price,
                        lower_bound: scaled_price - scaled_std_deviation,
                        higher_bound,
                    },
                ),
            ),
            None => Err(ErrorCode::ArithmeticOverflow),
        }
    }
}

} // verus!
