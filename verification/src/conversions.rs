//! Conversions between native token amounts and USD quote amounts.
//!
//! All USD legs are carried at the oracle target exponent and settled at the
//! quote token's decimal count; every step is plain integer arithmetic with
//! truncation toward zero, so no silent rounding drift can enter the books.

use vstd::arithmetic::div_mod::lemma_div_nonincreasing;
use vstd::arithmetic::mul::lemma_mul_nonnegative;
use vstd::prelude::*;

use crate::constants::{ORACLE_PRICE_TARGET_EXPONENT, QUOTE_TOKEN_DECIMALS,
    USD_CONVERSION_TARGET_EXPONENT};
use crate::error::ErrorCode;
use crate::math::{lemma_pow10_positive, pow10, pow10_u128};
use crate::oracle::{scale_amount, shift_of};

verus! {

/// What [`adjust_decimals`] returns: the amount with `decimals` decimal
/// digits truncated away.
pub open spec fn adjust_decimals_spec(amount: int, decimals: int) -> int {
    amount / pow10(decimals as nat)
}

/// What [`to_native_amount`] returns: the amount widened by `decimals`
/// decimal digits.
pub open spec fn to_native_amount_spec(amount: int, decimals: int) -> int {
    amount * pow10(decimals as nat)
}

/// What [`token_to_usd`] returns: the token amount priced and settled onto
/// the USD quote scale, or an overflow error when the notional product does
/// not fit in 128 bits.
pub open spec fn token_to_usd_spec(
    token_amount: int,
    token_price: int,
    decimals: int,
) -> Result<u128, ErrorCode> {
    if token_amount * token_price > u128::MAX {
        Err(ErrorCode::ArithmeticOverflow)
    } else {
        Ok((token_amount * token_price / pow10(decimals as nat) / pow10(4)) as u128)
    }
}

/// What [`usd_to_token`] returns: the USD amount rebased onto the oracle
/// exponent, divided by the token price and widened to native token units.
pub open spec fn usd_to_token_spec(
    usd_amount: int,
    token_price: int,
    decimals: int,
) -> Result<u128, ErrorCode> {
    if usd_amount * pow10(4) > u128::MAX {
        Err(ErrorCode::ArithmeticOverflow)
    } else if token_price == 0 {
        Err(ErrorCode::DivideByZero)
    } else if (usd_amount * pow10(4) / token_price) * pow10(decimals as nat) > u128::MAX {
        Err(ErrorCode::ArithmeticOverflow)
    } else {
        Ok(((usd_amount * pow10(4) / token_price) * pow10(decimals as nat)) as u128)
    }
}

/// Adjusts the given amount according to decimals, truncating toward zero.
pub fn adjust_decimals(amount: u128, decimals: u8) -> (r: u128)
    requires
        decimals <= 19,
    ensures
        r == adjust_decimals_spec(amount as int, decimals as int),
{
    let decimal_adj = pow10_u128(decimals as u32);
    proof {
        lemma_pow10_positive(decimals as nat);
    }
    amount / decimal_adj
}

/// Converts the given amount to native units according to the given decimals.
pub fn to_native_amount(amount: u128, decimals: u8) -> (r: u128)
    requires
        decimals <= 19,
        amount * pow10(decimals as nat) <= u128::MAX,
    ensures
        r == to_native_amount_spec(amount as int, decimals as int),
{
    let decimal_adj = pow10_u128(decimals as u32);
    amount * decimal_adj
}

/// Converts a token amount to a USD amount according to the given token
/// price.
pub fn token_to_usd(token_amount: u128, token_price: u64, decimals: u8) -> (r: Result<
    u128,
    ErrorCode,
>)
    requires
        decimals <= 19,
    ensures
        r == token_to_usd_spec(token_amount as int, token_price as int, decimals as int),
{
    let usd_amount = match token_amount.checked_mul(token_price as u128) {
        Some(n) => n,
        None => {
            return Err(ErrorCode::ArithmeticOverflow);
        },
    };
    let adjusted_amount = adjust_decimals(usd_amount, decimals);
    proof {
        lemma_pow10_positive(4nat);
        lemma_div_nonincreasing(adjusted_amount as int, pow10(4));
    }
    scale_amount(
        adjusted_amount,
        QUOTE_TOKEN_DECIMALS as i32,
        ORACLE_PRICE_TARGET_EXPONENT,
        USD_CONVERSION_TARGET_EXPONENT,
    )
}

/// Converts a USD amount to a token amount according to the given token
/// price.
pub fn usd_to_token(usd_amount: u128, token_price: u64, decimals: u8) -> (r: Result<
    u128,
    ErrorCode,
>)
    requires
        decimals <= 19,
    ensures
        r == usd_to_token_spec(usd_amount as int, token_price as int, decimals as int),
{
    let scaled_usd_amount = match scale_amount(
        usd_amount,
        0,
        -(QUOTE_TOKEN_DECIMALS as i32),
        ORACLE_PRICE_TARGET_EXPONENT,
    ) {
        Ok(n) => n,
        Err(e) => {
            return Err(e);
        },
    };
    proof {
        lemma_pow10_positive(4nat);
        lemma_mul_nonnegative(usd_amount as int, pow10(4));
    }
    if token_price == 0 {
        return Err(ErrorCode::DivideByZero);
    }
    let token_amount_scaled = scaled_usd_amount / (token_price as u128);
    let decimal_adj = pow10_u128(decimals as u32);
    match token_amount_scaled.checked_mul(decimal_adj) {
        Some(adjusted_token_amount) => Ok(adjusted_token_amount),
        None => Err(ErrorCode::ArithmeticOverflow),
    }
}

} // verus!
