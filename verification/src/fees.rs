//! The fee engine: position-open fees, funding fees, and the dynamic
//! vault-rebalancing fee curve.

use vstd::arithmetic::div_mod::{lemma_div_is_ordered, lemma_div_multiples_vanish,
    lemma_div_nonincreasing};
use vstd::arithmetic::mul::lemma_mul_nonnegative;
use vstd::prelude::*;

use crate::cache::{lemma_sum_weights_nonneg, sum_weights, weight_spec, Cache};
use crate::config::Config;
use crate::constants::BASIS_POINTS_DIVISOR;
use crate::error::ErrorCode;
use crate::vault::{target_debt_spec, Vault};

verus! {

/// What [`get_position_fee`] returns: the difference between the notional
/// size delta and its fee-discounted value.
pub open spec fn position_fee_spec(margin_fee_bps: int, size_delta: int) -> int {
    size_delta - size_delta * ((BASIS_POINTS_DIVISOR as int) - margin_fee_bps) / (
    BASIS_POINTS_DIVISOR as int)
}

/// What [`get_funding_fee`] returns: the funding index delta accrued since
/// the position's last payment, weighted by the position size.
pub open spec fn funding_fee_spec(cumulative_funding_rate: int, funding_rate: int, size: int) -> int {
    if size == 0 {
        0
    } else {
        (cumulative_funding_rate - funding_rate) * size
    }
}

/// Gets the position fee, in the units of the size delta.
pub fn get_position_fee(config: &Config, size_delta: u64) -> (r: u64)
    requires
        config.margin_fee_bps <= BASIS_POINTS_DIVISOR,
    ensures
        r == position_fee_spec(config.margin_fee_bps as int, size_delta as int),
        r <= size_delta,
{
    if size_delta == 0 {
        return 0;
    }
    let discounted_bps: u64 = BASIS_POINTS_DIVISOR - config.margin_fee_bps as u64;
    proof {
        assert(size_delta * discounted_bps <= u64::MAX * u64::MAX) by (nonlinear_arith)
            requires size_delta <= u64::MAX && discounted_bps <= u64::MAX;
    }
    let after_fee: u128 = ((size_delta as u128) * (discounted_bps as u128)) / (
    BASIS_POINTS_DIVISOR as u128);
    proof {
        assert(size_delta * discounted_bps <= size_delta * (BASIS_POINTS_DIVISOR as int))
            by (nonlinear_arith)
            requires 0 <= size_delta && 0 <= discounted_bps <= BASIS_POINTS_DIVISOR;
        lemma_div_is_ordered(
            size_delta * discounted_bps,
            size_delta * (BASIS_POINTS_DIVISOR as int),
            BASIS_POINTS_DIVISOR as int,
        );
        lemma_div_multiples_vanish(size_delta as int, BASIS_POINTS_DIVISOR as int);
        lemma_mul_nonnegative(size_delta as int, discounted_bps as int);
    }
    size_delta - (after_fee as u64)
}

/// Gets the funding fee accrued by a position of the given size since the
/// given funding index.
pub fn get_funding_fee(vault: &Vault, size: u64, funding_rate: u64) -> (r: u64)
    requires
        size > 0 ==> vault.cumulative_funding_rate >= funding_rate,
        size > 0 ==> (vault.cumulative_funding_rate - funding_rate) * size <= u64::MAX,
    ensures
        r == funding_fee_spec(
            vault.cumulative_funding_rate as int,
            funding_rate as int,
            size as int,
        ),
{
    if size == 0 {
        return 0;
    }
    let index_delta = vault.cumulative_funding_rate - (funding_rate as u128);
    proof {
        lemma_mul_nonnegative(index_delta as int, size as int);
    }
    let funding_fee = index_delta * (size as u128);
    funding_fee as u64
}

/// The debt a vault would carry after the given delta is applied: a
/// decrement is clamped at zero.
pub open spec fn next_debt_spec(debt_amount: int, debt_delta: int, increment: bool) -> int {
    if increment {
        debt_amount + debt_delta
    } else if debt_delta > debt_amount {
        0
    } else {
        debt_amount - debt_delta
    }
}

/// The distance between a debt amount and the target debt.
pub open spec fn debt_diff_spec(debt_amount: int, target_amount: int) -> int {
    if debt_amount > target_amount {
        debt_amount - target_amount
    } else {
        target_amount - debt_amount
    }
}

/// What [`get_fee_bps`] returns.
///
/// Without dynamic fees, or without a target debt, the base fee stands.
/// Otherwise a flow that moves the vault's debt toward its target is
/// rebated in proportion to the initial distance, and a flow that moves it
/// away is taxed in proportion to the average distance, capped at the
/// target amount.
pub open spec fn fee_bps_spec(
    cache: Cache,
    vault: Vault,
    debt_delta: int,
    fee_bps: int,
    tax_bps: int,
    increment: bool,
) -> int {
    if !vault.has_dynamic_fees {
        fee_bps
    } else {
        let initial_amount = vault.debt_amount as int;
        let next_amount = next_debt_spec(initial_amount, debt_delta, increment);
        let target_amount = target_debt_spec(
            cache.lp_token_supply as int,
            cache.weights@,
            vault.cache_index as int,
        );
        if target_amount == 0 {
            fee_bps
        } else {
            let initial_diff = debt_diff_spec(initial_amount, target_amount);
            let next_diff = debt_diff_spec(next_amount, target_amount);
            if next_diff < initial_diff {
                let rebate_bps = tax_bps * initial_diff / target_amount;
                if rebate_bps > fee_bps {
                    0
                } else {
                    fee_bps - rebate_bps
                }
            } else {
                let average_diff = (initial_diff + next_diff) / 2;
                let capped_diff = if average_diff > target_amount {
                    target_amount
                } else {
                    average_diff
                };
                fee_bps + tax_bps * capped_diff / target_amount
            }
        }
    }
}

/// Gets the fee to apply for an operation in a vault, denominated in basis
/// points.
pub fn get_fee_bps(
    cache: &Cache,
    vault: &Vault,
    debt_delta: u128,
    fee_bps: u16,
    tax_bps: u16,
    increment: bool,
) -> (r: u64)
    requires
        vault.has_dynamic_fees ==> sum_weights(cache.weights@) <= u64::MAX,
        vault.has_dynamic_fees ==> cache.lp_token_supply * weight_spec(
            cache.weights@,
            vault.cache_index as int,
        ) <= u64::MAX,
        vault.has_dynamic_fees && increment ==> vault.debt_amount + debt_delta <= u128::MAX,
        vault.has_dynamic_fees ==> tax_bps * debt_diff_spec(
            vault.debt_amount as int,
            target_debt_spec(
                cache.lp_token_supply as int,
                cache.weights@,
                vault.cache_index as int,
            ),
        ) <= u128::MAX,
    ensures
        r == fee_bps_spec(*cache, *vault, debt_delta as int, fee_bps as int, tax_bps as int,
            increment),
{
    if !vault.has_dynamic_fees {
        return fee_bps as u64;
    }

    let initial_amount = vault.debt_amount;
    let next_amount = if increment {
        initial_amount + debt_delta
    } else {
        if debt_delta > initial_amount {
            0
        } else {
            initial_amount - debt_delta
        }
    };

    let target_amount = vault.get_target_debt_amount(cache);
    if target_amount == 0 {
        return fee_bps as u64;
    }

    let initial_diff = if initial_amount > target_amount {
        initial_amount - target_amount
    } else {
        target_amount - initial_amount
    };

    let next_diff = if next_amount > target_amount {
        next_amount - target_amount
    } else {
        target_amount - next_amount
    };

    if next_diff < initial_diff {
        let rebate_bps = ((tax_bps as u128) * initial_diff) / target_amount;
        if rebate_bps > fee_bps as u128 {
            return 0;
        } else {
            return (fee_bps as u128 - rebate_bps) as u64;
        }
    }

    proof {
        lemma_halves_fit(initial_diff as int, next_diff as int);
    }
    let mut average_diff = (initial_diff / 2) + (next_diff / 2) + (initial_diff % 2) * (next_diff
        % 2);
    if average_diff > target_amount {
        average_diff = target_amount;
    }

    proof {
        let weight = weight_spec(cache.weights@, vault.cache_index as int);
        let total = sum_weights(cache.weights@);
        lemma_sum_weights_nonneg(cache.weights@);
        lemma_mul_nonnegative(cache.lp_token_supply as int, weight as int);
        lemma_div_nonincreasing(cache.lp_token_supply * weight, total);
        assert(target_amount <= u64::MAX);
        lemma_mul_nonnegative(tax_bps as int, average_diff as int);
        assert(tax_bps * average_diff <= tax_bps * target_amount) by (nonlinear_arith)
            requires 0 <= tax_bps && 0 <= average_diff <= target_amount;
        assert(tax_bps * target_amount <= u128::MAX) by (nonlinear_arith)
            requires 0 <= tax_bps < 0x10000 && 0 <= target_amount <= u64::MAX;
        lemma_div_is_ordered(
            tax_bps * average_diff,
            tax_bps * (target_amount as int),
            target_amount as int,
        );
        lemma_div_multiples_vanish(tax_bps as int, target_amount as int);
    }
    let tax = ((tax_bps as u128) * average_diff) / target_amount;
    fee_bps as u64 + tax as u64
}

/// Two halves and the product of the remainders rebuild the truncated
/// average of two values, and stay representable alongside each other.
proof fn lemma_halves_fit(a: int, b: int)
    requires
        0 <= a <= u128::MAX,
        0 <= b <= u128::MAX,
    ensures
        a / 2 + b / 2 + (a % 2) * (b % 2) == (a + b) / 2,
        a / 2 + b / 2 + (a % 2) * (b % 2) <= u128::MAX,
{
    assert(a / 2 + b / 2 + (a % 2) * (b % 2) == (a + b) / 2) by (nonlinear_arith);
    lemma_div_is_ordered(a, u128::MAX as int, 2);
    lemma_div_is_ordered(b, u128::MAX as int, 2);
    assert((a % 2) * (b % 2) <= 1) by (nonlinear_arith)
        requires 0 <= a && 0 <= b;
}

} // verus!
