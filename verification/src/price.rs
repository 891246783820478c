//! The weighted-average entry-price recurrence.
//!
//! It is invoked identically for a single position's average entry price and
//! for a vault cache's aggregate long/short average entry price.

use vstd::prelude::*;

use crate::error::ErrorCode;

verus! {

/// What [`get_next_average_price`] returns: the size-weighted average of the
/// current average price and the current price, in 128-bit intermediate
/// precision, truncated to 64 bits on return.
///
/// When `size` is zero the recurrence degenerates to the current price
/// exactly.
pub open spec fn next_average_price_spec(
    size: int,
    average_price: int,
    size_delta: int,
    price: int,
) -> Result<u64, ErrorCode> {
    if size * average_price + size_delta * price > u128::MAX {
        Err(ErrorCode::ArithmeticOverflow)
    } else if (size * average_price + size_delta * price) / (size + size_delta) > u64::MAX {
        Err(ErrorCode::InvalidAveragePrice)
    } else {
        Ok(((size * average_price + size_delta * price) / (size + size_delta)) as u64)
    }
}

/// The next weighted-average entry price after a position's size changes.
///
/// Callers must rule out the degenerate case where both the current size and
/// the size delta are zero; the combined size must also stay representable.
pub fn get_next_average_price(
    current_position_size: u128,
    current_average_price: u64,
    position_size_delta: u64,
    current_price: u64,
) -> (r: Result<u64, ErrorCode>)
    requires
        current_position_size + position_size_delta > 0,
        current_position_size + position_size_delta <= u128::MAX,
    ensures
        r == next_average_price_spec(
            current_position_size as int,
            current_average_price as int,
            position_size_delta as int,
            current_price as int,
        ),
{
    proof {
        assert(position_size_delta * current_price <= u64::MAX * u64::MAX) by (nonlinear_arith)
            requires position_size_delta <= u64::MAX && current_price <= u64::MAX;
    }
    let notional_delta = (position_size_delta as u128) * (current_price as u128);
    let weighted_size = match current_position_size.checked_mul(current_average_price as u128) {
        Some(n) => n,
        None => {
            proof {
                assert(current_position_size * current_average_price + position_size_delta
                    * current_price >= current_position_size * current_average_price)
                    by (nonlinear_arith)
                    requires position_size_delta >= 0 && current_price >= 0;
            }
            return Err(ErrorCode::ArithmeticOverflow);
        },
    };
    let numerator = match weighted_size.checked_add(notional_delta) {
        Some(n) => n,
        None => {
            return Err(ErrorCode::ArithmeticOverflow);
        },
    };
    let avg_price = numerator / (current_position_size + (position_size_delta as u128));
    if avg_price > u64::MAX as u128 {
        Err(ErrorCode::InvalidAveragePrice)
    } else {
        Ok(avg_price as u64)
    }
}

} // verus!
