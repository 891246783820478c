//! Laws the accounting core obeys, stated and proved over the same spec
//! functions its contracts use.
//!
//! Properties that belong to a single function — the leverage bound after
//! every successful position mutation, the vault staying solvent, the
//! liquidity rejections — are stated directly in that function's `ensures`;
//! the laws here relate several functions or several calls.

use vstd::arithmetic::div_mod::{lemma_div_by_multiple, lemma_fundamental_div_mod,
    lemma_mod_bound};
use vstd::prelude::*;

use crate::constants::BASIS_POINTS_DIVISOR;
use crate::conversions::{adjust_decimals_spec, to_native_amount_spec};
use crate::error::ErrorCode;
use crate::fees::position_fee_spec;
use crate::math::{lemma_pow10_positive, pow10};
use crate::oracle::rescale;
use crate::price::next_average_price_spec;
use crate::vault::{update_funding_rate_spec, Vault};

verus! {

/// Scaling an amount down by a decimal count and back up returns it within
/// one unit of truncation error: the round trip never exceeds the original
/// amount and falls short of it by less than one whole decimal unit.
pub proof fn lemma_decimal_adjust_round_trip(amount: int, decimals: int)
    requires
        0 <= amount,
        0 <= decimals,
    ensures
        to_native_amount_spec(adjust_decimals_spec(amount, decimals), decimals) <= amount,
        amount - to_native_amount_spec(adjust_decimals_spec(amount, decimals), decimals) < pow10(
            decimals as nat,
        ),
{
    let unit = pow10(decimals as nat);
    lemma_pow10_positive(decimals as nat);
    lemma_fundamental_div_mod(amount, unit);
    lemma_mod_bound(amount, unit);
    assert((amount / unit) * unit == unit * (amount / unit)) by (nonlinear_arith);
}

/// Rescaling an amount onto another exponent and straight back returns it
/// exactly whenever no truncation occurs: an upscale always, a downscale
/// exactly when the digits it drops are all zero.
pub proof fn lemma_rescale_round_trip(amount: int, shift: int)
    requires
        0 <= amount,
        shift < 0 ==> amount % pow10((-shift) as nat) == 0,
    ensures
        rescale(rescale(amount, shift), -shift) == amount,
{
    if shift > 0 {
        let unit = pow10(shift as nat);
        lemma_pow10_positive(shift as nat);
        lemma_div_by_multiple(amount, unit);
    } else if shift < 0 {
        let unit = pow10((-shift) as nat);
        lemma_pow10_positive((-shift) as nat);
        lemma_fundamental_div_mod(amount, unit);
        assert((amount / unit) * unit == unit * (amount / unit)) by (nonlinear_arith);
    }
}

/// The average-price recurrence seeded from an empty position yields the
/// current price exactly, for any positive size delta.
pub proof fn lemma_average_price_from_zero(average_price: int, size_delta: int, price: int)
    requires
        0 < size_delta <= u64::MAX,
        0 <= price <= u64::MAX,
    ensures
        next_average_price_spec(0, average_price, size_delta, price) == Ok::<u64, ErrorCode>(
            price as u64,
        ),
{
    assert(0 * average_price == 0) by (nonlinear_arith);
    assert(size_delta * price <= u64::MAX * u64::MAX) by (nonlinear_arith)
        requires 0 < size_delta <= u64::MAX && 0 <= price <= u64::MAX;
    lemma_div_by_multiple(price, size_delta);
    assert(price * size_delta == size_delta * price) by (nonlinear_arith);
}

/// The average-price recurrence with a zero size delta leaves the average
/// entry price exactly as it was.
pub proof fn lemma_average_price_unchanged(size: int, average_price: int, price: int)
    requires
        0 < size,
        0 <= average_price <= u64::MAX,
        size * average_price <= u128::MAX,
    ensures
        next_average_price_spec(size, average_price, 0, price) == Ok::<u64, ErrorCode>(
            average_price as u64,
        ),
{
    assert(0 * price == 0) by (nonlinear_arith);
    lemma_div_by_multiple(average_price, size);
    assert(average_price * size == size * average_price) by (nonlinear_arith);
}

/// The position fee vanishes on both degenerate inputs: a zero fee rate
/// charges nothing on any size delta, and any fee rate charges nothing on
/// a zero size delta.
pub proof fn lemma_position_fee_zero(margin_fee_bps: int, size_delta: int)
    requires
        0 <= size_delta,
    ensures
        position_fee_spec(0, size_delta) == 0,
        position_fee_spec(margin_fee_bps, 0) == 0,
{
    lemma_div_by_multiple(size_delta, BASIS_POINTS_DIVISOR as int);
    assert(size_delta * (BASIS_POINTS_DIVISOR as int) == (BASIS_POINTS_DIVISOR as int)
        * size_delta) by (nonlinear_arith);
    assert(0 * ((BASIS_POINTS_DIVISOR as int) - margin_fee_bps) == 0) by (nonlinear_arith);
}

/// Funding accrual is idempotent within one hour bucket: after any
/// successful update, updating again with the same timestamp changes
/// nothing.
pub proof fn lemma_funding_update_idempotent(vault: Vault, now: u64)
    ensures
        ({
            match update_funding_rate_spec(vault, now as int) {
                Ok(updated) => update_funding_rate_spec(updated, now as int) == Ok::<
                    Vault,
                    ErrorCode,
                >(updated),
                Err(_) => true,
            }
        }),
{
}

} // verus!
