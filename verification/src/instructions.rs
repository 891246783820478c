//! The state-changing operations.
//!
//! Each operation is an atomic, all-or-nothing transition over the vault,
//! vault cache and position rows it touches: on any failure every row is
//! left exactly as it was. The caller provides the current time and the
//! already-normalized oracle price, performs the token transfers each
//! operation decides on, and holds a mutual-exclusion scope per vault for
//! the duration of one operation.

use vstd::arithmetic::div_mod::{lemma_div_is_ordered, lemma_div_multiples_vanish,
    lemma_multiply_divide_lt};
use vstd::arithmetic::mul::lemma_mul_nonnegative;
use vstd::prelude::*;

use crate::args::{EnterPositionArgs, SwapArgs};
use crate::config::Config;
use crate::constants::BASIS_POINTS_DIVISOR;
use crate::conversions::{token_to_usd, token_to_usd_spec, usd_to_token, usd_to_token_spec};
use crate::error::ErrorCode;
use crate::events::{PositionIncreased, PositionOpened};
use crate::constants::SECONDS_IN_HOUR;
use crate::fees::{funding_fee_spec, get_position_fee, position_fee_spec};
use crate::position::{leverage_spec, position_wf, Direction, Position, PositionValueChange};
use crate::price::next_average_price_spec;
use crate::vault::{update_funding_rate_spec, vault_wf, Vault, VaultCache};

verus! {

/// Whether a position of the given size and collateral stays strictly
/// below the vault's maximum leverage.
///
/// A position with no collateral behind it exceeds every limit.
pub open spec fn leverage_ok_spec(size: int, collateral: int, max_leverage: int) -> bool {
    collateral > 0 && leverage_spec(size, collateral) < max_leverage
}

/// Comparing the leverage quotient against the limit is the same as
/// cross-multiplying, which needs no division.
proof fn lemma_leverage_compare(size: int, collateral: int, max_leverage: int)
    requires
        size >= 0,
        collateral > 0,
        max_leverage >= 0,
    ensures
        size * (BASIS_POINTS_DIVISOR as int) / collateral < max_leverage <==> size * (
        BASIS_POINTS_DIVISOR as int) < max_leverage * collateral,
{
    let notional = size * (BASIS_POINTS_DIVISOR as int);
    lemma_mul_nonnegative(size, BASIS_POINTS_DIVISOR as int);
    if notional < max_leverage * collateral {
        assert(notional < collateral * max_leverage) by (nonlinear_arith)
            requires notional < max_leverage * collateral;
        lemma_multiply_divide_lt(notional, collateral, max_leverage);
    }
    if notional >= max_leverage * collateral {
        lemma_div_is_ordered(max_leverage * collateral, notional, collateral);
        lemma_div_multiples_vanish(max_leverage, collateral);
        assert(max_leverage * collateral == collateral * max_leverage) by (nonlinear_arith);
    }
}

/// Whether the given size and collateral stay strictly below the maximum
/// leverage, decided without division so no bound on the notional is
/// needed.
fn leverage_within_limit(size: u64, collateral: u64, max_leverage: u32) -> (r: bool)
    ensures
        r == leverage_ok_spec(size as int, collateral as int, max_leverage as int),
{
    if collateral == 0 {
        return false;
    }
    proof {
        lemma_leverage_compare(size as int, collateral as int, max_leverage as int);
        assert(size * BASIS_POINTS_DIVISOR <= u64::MAX * (BASIS_POINTS_DIVISOR as int))
            by (nonlinear_arith)
            requires size <= u64::MAX;
        assert(max_leverage * collateral <= u32::MAX * (u64::MAX as int)) by (nonlinear_arith)
            requires max_leverage <= u32::MAX && collateral <= u64::MAX;
    }
    (size as u128) * (BASIS_POINTS_DIVISOR as u128) < (max_leverage as u128) * (collateral
        as u128)
}

/// The leverage guard: it must run as the last step of every operation
/// that changes a position's size or collateral, after all fee and funding
/// settlement.
pub fn check_leverage(position: &Position, vault: &Vault) -> (r: Result<(), ErrorCode>)
    ensures
        leverage_ok_spec(
            position.size as int,
            position.collateral as int,
            vault.max_leverage as int,
        ) ==> r == Ok::<(), ErrorCode>(()),
        !leverage_ok_spec(
            position.size as int,
            position.collateral as int,
            vault.max_leverage as int,
        ) ==> r == Err::<(), ErrorCode>(ErrorCode::PositionLeverageExceedsLimit),
{
    if leverage_within_limit(position.size, position.collateral, vault.max_leverage) {
        Ok(())
    } else {
        Err(ErrorCode::PositionLeverageExceedsLimit)
    }
}

/// Validates a position decrease.
///
/// Size and collateral settlement for decreases is performed by the
/// surrounding system; the accounting core contributes the closing
/// leverage check on the settled position.
pub fn decrease_position(position: &Position, vault: &Vault) -> (r: Result<(), ErrorCode>)
    ensures
        leverage_ok_spec(
            position.size as int,
            position.collateral as int,
            vault.max_leverage as int,
        ) ==> r == Ok::<(), ErrorCode>(()),
        !leverage_ok_spec(
            position.size as int,
            position.collateral as int,
            vault.max_leverage as int,
        ) ==> r == Err::<(), ErrorCode>(ErrorCode::PositionLeverageExceedsLimit),
{
    check_leverage(position, vault)
}

/// Validates closing a vault: a vault can be closed only once nothing is
/// reserved and nothing is deposited.
pub fn close_vault(vault: &Vault) -> (r: Result<(), ErrorCode>)
    ensures
        vault.reserved != 0 ==> r == Err::<(), ErrorCode>(
            ErrorCode::CannotCloseVaultWithReservedAssets,
        ),
        vault.reserved == 0 && vault.deposits != 0 ==> r == Err::<(), ErrorCode>(
            ErrorCode::CannotCloseVaultWithDepositedAssets,
        ),
        vault.reserved == 0 && vault.deposits == 0 ==> r == Ok::<(), ErrorCode>(()),
{
    if vault.reserved != 0 {
        return Err(ErrorCode::CannotCloseVaultWithReservedAssets);
    }
    if vault.deposits != 0 {
        return Err(ErrorCode::CannotCloseVaultWithDepositedAssets);
    }
    Ok(())
}

/// Validates a swap against the destination vault: it fails exactly when
/// the vault's free liquidity cannot cover the requested minimum output.
pub fn swap(vault_b: &Vault, args: &SwapArgs) -> (r: Result<(), ErrorCode>)
    requires
        vault_wf(*vault_b),
    ensures
        vault_b.deposits - vault_b.reserved < args.min_amount_out ==> r == Err::<(), ErrorCode>(
            ErrorCode::InsufficientLiquidityForSwap,
        ),
        vault_b.deposits - vault_b.reserved >= args.min_amount_out ==> r == Ok::<(), ErrorCode>(()),
{
    let available_liquidity = vault_b.deposits - vault_b.reserved;
    if available_liquidity < args.min_amount_out as u128 {
        Err(ErrorCode::InsufficientLiquidityForSwap)
    } else {
        Ok(())
    }
}

/// What [`enter_position`] does: the transition for opening a position, or
/// the error that rejects it.
pub open spec fn enter_position_spec(
    vault: Vault,
    vault_cache: VaultCache,
    position: Position,
    authority: u64,
    token_mint: u64,
    args: EnterPositionArgs,
) -> Result<(Vault, VaultCache, Position, PositionOpened), ErrorCode> {
    if vault.deposits - vault.reserved < args.size {
        Err(ErrorCode::InsufficientLiquidityToEnterPosition)
    } else if args.collateral == 0 {
        Err(ErrorCode::InvalidTokenAmount)
    } else if args.collateral > args.size {
        Err(ErrorCode::ArithmeticUnderflow)
    } else if !leverage_ok_spec(args.size as int, args.collateral as int, vault.max_leverage as int) {
        Err(ErrorCode::PositionLeverageExceedsLimit)
    } else {
        let open_interest = match args.direction {
            Direction::Long => vault_cache.long_open_interest as int,
            Direction::Short => vault_cache.short_open_interest as int,
        };
        let average_price = match args.direction {
            Direction::Long => vault_cache.long_avg_entry_price as int,
            Direction::Short => vault_cache.short_avg_entry_price as int,
        };
        if open_interest + args.size > u128::MAX {
            Err(ErrorCode::ArithmeticOverflow)
        } else {
            enter_position_cache_spec(
                vault,
                vault_cache,
                position,
                authority,
                token_mint,
                args,
                open_interest,
                average_price,
            )
        }
    }
}

/// The tail of [`enter_position_spec`], once the arguments have been
/// admitted.
pub open spec fn enter_position_cache_spec(
    vault: Vault,
    vault_cache: VaultCache,
    position: Position,
    authority: u64,
    token_mint: u64,
    args: EnterPositionArgs,
    open_interest: int,
    average_price: int,
) -> Result<(Vault, VaultCache, Position, PositionOpened), ErrorCode> {
    match next_average_price_spec(
        open_interest,
        average_price,
        args.size as int,
        vault_cache.oracle_price as int,
    ) {
        Err(e) => Err(e),
        Ok(next_price) => {
            let new_cache = match args.direction {
                Direction::Long => VaultCache {
                    long_avg_entry_price: next_price,
                    long_open_interest: (open_interest + args.size) as u128,
                    ..vault_cache
                },
                Direction::Short => VaultCache {
                    short_avg_entry_price: next_price,
                    short_open_interest: (open_interest + args.size) as u128,
                    ..vault_cache
                },
            };
            let new_vault = Vault {
                reserved: (vault.reserved + args.size - args.collateral) as u128,
                ..vault
            };
            let new_position = Position {
                authority,
                token_mint,
                collateral: args.collateral,
                size: args.size,
                avg_entry_price: vault_cache.oracle_price,
                direction: args.direction,
                ..position
            };
            let event = PositionOpened {
                position: position.self_address,
                authority,
                size: args.size,
                collateral: args.collateral,
                direction: args.direction,
            };
            Ok((new_vault, new_cache, new_position, event))
        },
    }
}

/// Opens a position: the user's collateral and the vault liquidity backing
/// the rest of the size move into the position's escrow, the vault
/// earmarks that liquidity as reserved, and the cache folds the new size
/// into its open interest and average entry price.
///
/// On failure nothing is changed.
pub fn enter_position(
    vault: &mut Vault,
    vault_cache: &mut VaultCache,
    position: &mut Position,
    authority: u64,
    token_mint: u64,
    args: &EnterPositionArgs,
) -> (r: Result<PositionOpened, ErrorCode>)
    requires
        vault_wf(*old(vault)),
    ensures
        ({
            let outcome = enter_position_spec(
                *old(vault),
                *old(vault_cache),
                *old(position),
                authority,
                token_mint,
                *args,
            );
            match outcome {
                Ok((new_vault, new_cache, new_position, event)) => r == Ok::<
                    PositionOpened,
                    ErrorCode,
                >(event) && *final(vault) == new_vault && *final(vault_cache) == new_cache
                    && *final(position) == new_position,
                Err(e) => r == Err::<PositionOpened, ErrorCode>(e) && *final(vault) == *old(vault)
                    && *final(vault_cache) == *old(vault_cache) && *final(position) == *old(
                    position,
                ),
            }
        }),
        r is Ok ==> vault_wf(*final(vault)),
        r is Ok ==> leverage_ok_spec(
            final(position).size as int,
            final(position).collateral as int,
            final(vault).max_leverage as int,
        ),
        r is Ok ==> position_wf(*final(position)),
{
    let available_liquidity = vault.deposits - vault.reserved;
    if available_liquidity < args.size as u128 {
        return Err(ErrorCode::InsufficientLiquidityToEnterPosition);
    }
    if args.collateral == 0 {
        return Err(ErrorCode::InvalidTokenAmount);
    }
    if args.collateral > args.size {
        return Err(ErrorCode::ArithmeticUnderflow);
    }
    if !leverage_within_limit(args.size, args.collateral, vault.max_leverage) {
        return Err(ErrorCode::PositionLeverageExceedsLimit);
    }

    let reserved = args.size - args.collateral;

    let open_interest = match args.direction {
        Direction::Long => vault_cache.long_open_interest,
        Direction::Short => vault_cache.short_open_interest,
    };
    if open_interest.checked_add(args.size as u128).is_none() {
        return Err(ErrorCode::ArithmeticOverflow);
    }

    let next_price = match args.direction {
        Direction::Long => vault_cache.get_next_long_average_entry_price(args.size),
        Direction::Short => vault_cache.get_next_short_average_entry_price(args.size),
    };
    if let Err(e) = next_price {
        return Err(e);
    }

    position.init(
        authority,
        token_mint,
        args.collateral,
        args.size,
        vault_cache.oracle_price,
        args.direction,
    );
    vault.increase_reserved(reserved as u128);

    Ok(
        PositionOpened {
            position: position.self_address,
            authority,
            size: args.size,
            collateral: args.collateral,
            direction: args.direction,
        },
    )
}

/// What [`change_position_size`] does to a position.
pub open spec fn change_position_size_spec(
    position: Position,
    vault: Vault,
    value_change: PositionValueChange,
) -> Result<Position, ErrorCode> {
    let new_size = match value_change {
        PositionValueChange::Increase(amount) => {
            if position.size + amount > u64::MAX {
                Err(ErrorCode::ArithmeticOverflow)
            } else {
                Ok((position.size + amount) as u64)
            }
        },
        PositionValueChange::Decrease(amount) => {
            if amount > position.size {
                Err(ErrorCode::ArithmeticUnderflow)
            } else {
                Ok((position.size - amount) as u64)
            }
        },
    };
    match new_size {
        Err(e) => Err(e),
        Ok(size) => {
            if !leverage_ok_spec(size as int, position.collateral as int, vault.max_leverage as int) {
                Err(ErrorCode::PositionLeverageExceedsLimit)
            } else {
                Ok(Position { size, ..position })
            }
        },
    }
}

/// Changes a position's size by the given delta and runs the leverage
/// guard on the result.
///
/// On failure nothing is changed.
pub fn change_position_size(
    position: &mut Position,
    vault: &Vault,
    value_change: PositionValueChange,
) -> (r: Result<(), ErrorCode>)
    ensures
        ({
            match change_position_size_spec(*old(position), *vault, value_change) {
                Ok(new_position) => r == Ok::<(), ErrorCode>(()) && *final(position)
                    == new_position,
                Err(e) => r == Err::<(), ErrorCode>(e) && *final(position) == *old(position),
            }
        }),
        r is Ok ==> leverage_ok_spec(
            final(position).size as int,
            final(position).collateral as int,
            vault.max_leverage as int,
        ),
        r is Ok ==> position_wf(*final(position)),
{
    let new_size = match value_change {
        PositionValueChange::Increase(amount) => {
            match position.size.checked_add(amount) {
                Some(n) => n,
                None => {
                    return Err(ErrorCode::ArithmeticOverflow);
                },
            }
        },
        PositionValueChange::Decrease(amount) => {
            if amount > position.size {
                return Err(ErrorCode::ArithmeticUnderflow);
            }
            position.size - amount
        },
    };
    if !leverage_within_limit(new_size, position.collateral, vault.max_leverage) {
        return Err(ErrorCode::PositionLeverageExceedsLimit);
    }
    position.size = new_size;
    Ok(())
}

/// What [`change_position_collateral`] does to a position.
pub open spec fn change_position_collateral_spec(
    position: Position,
    vault: Vault,
    value_change: PositionValueChange,
) -> Result<Position, ErrorCode> {
    let new_collateral = match value_change {
        PositionValueChange::Increase(amount) => {
            if amount == 0 {
                Err(ErrorCode::InvalidTokenAmount)
            } else if position.collateral + amount > u64::MAX {
                Err(ErrorCode::ArithmeticOverflow)
            } else {
                Ok((position.collateral + amount) as u64)
            }
        },
        PositionValueChange::Decrease(amount) => {
            if amount == 0 {
                Err(ErrorCode::InvalidTokenAmount)
            } else if amount > position.collateral {
                Err(ErrorCode::ArithmeticUnderflow)
            } else {
                Ok((position.collateral - amount) as u64)
            }
        },
    };
    match new_collateral {
        Err(e) => Err(e),
        Ok(collateral) => {
            if !leverage_ok_spec(position.size as int, collateral as int, vault.max_leverage as int) {
                Err(ErrorCode::PositionLeverageExceedsLimit)
            } else {
                Ok(Position { collateral, ..position })
            }
        },
    }
}

/// Deposits collateral into or withdraws collateral from a position and
/// runs the leverage guard on the result; the caller performs the matching
/// token transfer. A zero amount is rejected before anything else.
///
/// On failure nothing is changed.
pub fn change_position_collateral(
    position: &mut Position,
    vault: &Vault,
    value_change: PositionValueChange,
) -> (r: Result<(), ErrorCode>)
    ensures
        ({
            match change_position_collateral_spec(*old(position), *vault, value_change) {
                Ok(new_position) => r == Ok::<(), ErrorCode>(()) && *final(position)
                    == new_position,
                Err(e) => r == Err::<(), ErrorCode>(e) && *final(position) == *old(position),
            }
        }),
        r is Ok ==> leverage_ok_spec(
            final(position).size as int,
            final(position).collateral as int,
            vault.max_leverage as int,
        ),
        r is Ok ==> position_wf(*final(position)),
{
    let new_collateral = match value_change {
        PositionValueChange::Increase(amount) => {
            if amount == 0 {
                return Err(ErrorCode::InvalidTokenAmount);
            }
            match position.collateral.checked_add(amount) {
                Some(n) => n,
                None => {
                    return Err(ErrorCode::ArithmeticOverflow);
                },
            }
        },
        PositionValueChange::Decrease(amount) => {
            if amount == 0 {
                return Err(ErrorCode::InvalidTokenAmount);
            }
            if amount > position.collateral {
                return Err(ErrorCode::ArithmeticUnderflow);
            }
            position.collateral - amount
        },
    };
    if !leverage_within_limit(position.size, new_collateral, vault.max_leverage) {
        return Err(ErrorCode::PositionLeverageExceedsLimit);
    }
    position.collateral = new_collateral;
    Ok(())
}

/// What [`pay_funding`] does: the funding owed by the position and the
/// position's updated settlement bookmarks, or the error that rejects the
/// payment.
pub open spec fn pay_funding_spec(
    position: Position,
    vault: Vault,
    vault_cache: VaultCache,
    now: u64,
) -> Result<(Position, u64), ErrorCode> {
    if position.last_funding_payment + SECONDS_IN_HOUR >= now {
        Err(ErrorCode::InvalidFundingInterval)
    } else if position.size > 0 && vault.cumulative_funding_rate < position.last_funding_index {
        Err(ErrorCode::ArithmeticUnderflow)
    } else {
        let fee_usd = funding_fee_spec(
            vault.cumulative_funding_rate as int,
            position.last_funding_index as int,
            position.size as int,
        );
        if fee_usd > u64::MAX {
            Err(ErrorCode::ArithmeticOverflow)
        } else {
            match usd_to_token_spec(fee_usd, vault_cache.oracle_price as int, vault.decimals as int) {
                Err(e) => Err(e),
                Ok(amount) => {
                    if amount > u64::MAX {
                        Err(ErrorCode::ArithmeticOverflow)
                    } else {
                        Ok(
                            (
                                Position {
                                    last_funding_index: vault_cache.funding_index,
                                    last_funding_payment: now,
                                    ..position
                                },
                                amount as u64,
                            ),
                        )
                    }
                },
            }
        }
    }
}

/// Settles a position's accrued funding: permitted only once per hour per
/// position. The returned amount is what the caller transfers from the
/// position's escrow to the vault's token account.
///
/// On failure nothing is changed.
pub fn pay_funding(
    position: &mut Position,
    vault: &Vault,
    vault_cache: &VaultCache,
    now: u64,
) -> (r: Result<u64, ErrorCode>)
    requires
        vault.decimals <= 19,
    ensures
        ({
            match pay_funding_spec(*old(position), *vault, *vault_cache, now) {
                Ok((new_position, amount)) => r == Ok::<u64, ErrorCode>(amount) && *final(position)
                    == new_position,
                Err(e) => r == Err::<u64, ErrorCode>(e) && *final(position) == *old(position),
            }
        }),
{
    if (position.last_funding_payment as u128) + (SECONDS_IN_HOUR as u128) >= now as u128 {
        return Err(ErrorCode::InvalidFundingInterval);
    }
    let fee_usd: u64 = if position.size == 0 {
        0
    } else {
        if vault.cumulative_funding_rate < position.last_funding_index as u128 {
            return Err(ErrorCode::ArithmeticUnderflow);
        }
        let index_delta = vault.cumulative_funding_rate - (position.last_funding_index as u128);
        let weighted = match index_delta.checked_mul(position.size as u128) {
            Some(n) => n,
            None => {
                return Err(ErrorCode::ArithmeticOverflow);
            },
        };
        if weighted > u64::MAX as u128 {
            return Err(ErrorCode::ArithmeticOverflow);
        }
        weighted as u64
    };
    let amount = match usd_to_token(fee_usd as u128, vault_cache.oracle_price, vault.decimals) {
        Ok(n) => n,
        Err(e) => {
            return Err(e);
        },
    };
    if amount > u64::MAX as u128 {
        return Err(ErrorCode::ArithmeticOverflow);
    }
    position.pay_funding(vault_cache.funding_index, now);
    Ok(amount as u64)
}

/// The direction-specific side of a position increase.
///
/// A long increases the vault's guaranteed USD by the size delta and the
/// fee, gives it back the USD value of the added collateral, treats the
/// added collateral as part of the pool, and takes the fee out of the pool
/// since it was charged on collateral. A short only folds the size delta
/// into the cache's short average entry price and open interest.
pub open spec fn increase_position_direction_spec(
    vault: Vault,
    vault_cache: VaultCache,
    direction: Direction,
    size_delta: int,
    fee_usd: int,
    collateral_delta_usd: int,
    collateral_delta: int,
    price: int,
    decimals: int,
) -> Result<(Vault, VaultCache), ErrorCode> {
    match direction {
        Direction::Long => {
            if vault.guaranteed_usd + size_delta + fee_usd > u128::MAX {
                Err(ErrorCode::ArithmeticOverflow)
            } else if vault.guaranteed_usd + size_delta + fee_usd < collateral_delta_usd {
                Err(ErrorCode::ArithmeticUnderflow)
            } else if vault.deposits + collateral_delta > u128::MAX {
                Err(ErrorCode::ArithmeticOverflow)
            } else {
                match usd_to_token_spec(fee_usd, price, decimals) {
                    Err(e) => Err(e),
                    Ok(fee_tokens) => {
                        if fee_tokens > vault.deposits + collateral_delta {
                            Err(ErrorCode::ArithmeticUnderflow)
                        } else {
                            Ok(
                                (
                                    Vault {
                                        guaranteed_usd: (vault.guaranteed_usd + size_delta
                                            + fee_usd - collateral_delta_usd) as u128,
                                        deposits: (vault.deposits + collateral_delta - fee_tokens)
                                            as u128,
                                        ..vault
                                    },
                                    vault_cache,
                                ),
                            )
                        }
                    },
                }
            }
        },
        Direction::Short => {
            if vault_cache.short_open_interest == 0 {
                Ok((vault, VaultCache { short_avg_entry_price: 0u64, ..vault_cache }))
            } else if vault_cache.short_open_interest + size_delta > u128::MAX {
                Err(ErrorCode::ArithmeticOverflow)
            } else {
                match next_average_price_spec(
                    vault_cache.short_open_interest as int,
                    vault_cache.short_avg_entry_price as int,
                    size_delta,
                    price,
                ) {
                    Err(e) => Err(e),
                    Ok(next_price) => Ok(
                        (
                            vault,
                            VaultCache {
                                short_avg_entry_price: next_price,
                                short_open_interest: (vault_cache.short_open_interest + size_delta)
                                    as u128,
                                ..vault_cache
                            },
                        ),
                    ),
                }
            }
        },
    }
}

/// What [`increase_position`] does: the transition for growing a
/// position's size, or the error that rejects it.
pub open spec fn increase_position_spec(
    config: Config,
    vault: Vault,
    vault_cache: VaultCache,
    position: Position,
    size_delta: u64,
    collateral_delta: u64,
    now: u64,
) -> Result<(Vault, VaultCache, Position, PositionIncreased), ErrorCode> {
    let price = vault_cache.oracle_price;
    if size_delta == 0 {
        Err(ErrorCode::InvalidSizeDelta)
    } else {
        match update_funding_rate_spec(vault, now as int) {
            Err(e) => Err(e),
            Ok(funded_vault) => {
                match next_average_price_spec(
                    position.size as int,
                    position.avg_entry_price as int,
                    size_delta as int,
                    price as int,
                ) {
                    Err(e) => Err(e),
                    Ok(new_avg_price) => {
                        if position.size > 0 && funded_vault.cumulative_funding_rate
                            < position.last_funding_index {
                            Err(ErrorCode::ArithmeticUnderflow)
                        } else {
                            let funding_fee = funding_fee_spec(
                                funded_vault.cumulative_funding_rate as int,
                                position.last_funding_index as int,
                                position.size as int,
                            );
                            let position_fee = position_fee_spec(
                                config.margin_fee_bps as int,
                                size_delta as int,
                            );
                            if funding_fee > u64::MAX {
                                Err(ErrorCode::ArithmeticOverflow)
                            } else if position_fee + funding_fee > u64::MAX {
                                Err(ErrorCode::ArithmeticOverflow)
                            } else {
                                increase_position_settle_spec(
                                    vault,
                                    funded_vault,
                                    vault_cache,
                                    position,
                                    size_delta,
                                    collateral_delta,
                                    now,
                                    new_avg_price,
                                    position_fee + funding_fee,
                                )
                            }
                        }
                    },
                }
            },
        }
    }
}

/// The tail of [`increase_position_spec`], once funding has accrued and
/// the fee in USD is known.
pub open spec fn increase_position_settle_spec(
    vault: Vault,
    funded_vault: Vault,
    vault_cache: VaultCache,
    position: Position,
    size_delta: u64,
    collateral_delta: u64,
    now: u64,
    new_avg_price: u64,
    fee_usd: int,
) -> Result<(Vault, VaultCache, Position, PositionIncreased), ErrorCode> {
    let price = vault_cache.oracle_price;
    match token_to_usd_spec(collateral_delta as int, price as int, vault.decimals as int) {
        Err(e) => Err(e),
        Ok(collateral_delta_usd) => {
            if position.collateral + collateral_delta_usd > u64::MAX {
                Err(ErrorCode::ArithmeticOverflow)
            } else if position.collateral + collateral_delta_usd < fee_usd {
                Err(ErrorCode::InsufficientCollateralForFee)
            } else if position.size + size_delta > u64::MAX {
                Err(ErrorCode::ArithmeticOverflow)
            } else {
                let new_collateral = (position.collateral + collateral_delta_usd - fee_usd) as u64;
                let new_size = (position.size + size_delta) as u64;
                match usd_to_token_spec(size_delta as int, price as int, vault.decimals as int) {
                    Err(e) => Err(e),
                    Ok(reserve_delta) => {
                        if funded_vault.reserved + reserve_delta > u128::MAX {
                            Err(ErrorCode::ArithmeticOverflow)
                        } else {
                            let reserved_vault = Vault {
                                reserved: (funded_vault.reserved + reserve_delta) as u128,
                                ..funded_vault
                            };
                            match increase_position_direction_spec(
                                reserved_vault,
                                vault_cache,
                                position.direction,
                                size_delta as int,
                                fee_usd,
                                collateral_delta_usd as int,
                                collateral_delta as int,
                                price as int,
                                vault.decimals as int,
                            ) {
                                Err(e) => Err(e),
                                Ok((new_vault, new_cache)) => {
                                    if new_vault.reserved > new_vault.deposits {
                                        Err(ErrorCode::InsufficientLiquidityToEnterPosition)
                                    } else if !leverage_ok_spec(
                                        new_size as int,
                                        new_collateral as int,
                                        vault.max_leverage as int,
                                    ) {
                                        Err(ErrorCode::PositionLeverageExceedsLimit)
                                    } else {
                                        let new_position = Position {
                                            collateral: new_collateral,
                                            size: new_size,
                                            avg_entry_price: new_avg_price,
                                            last_funding_index: vault_cache.funding_index,
                                            last_funding_payment: now,
                                            ..position
                                        };
                                        let event = PositionIncreased {
                                            position: position.self_address,
                                            authority: position.authority,
                                            size_delta: size_delta as u128,
                                            collateral_delta_usd,
                                            fee: fee_usd as u128,
                                            price,
                                        };
                                        Ok((new_vault, new_cache, new_position, event))
                                    }
                                },
                            }
                        }
                    },
                }
            }
        },
    }
}

/// Increases a position's size.
///
/// Funding accrues on the vault first, then the average entry price folds
/// in the new size at the cached oracle price, the position and funding
/// fees are charged in USD against the collateral, liquidity backing the
/// added size is earmarked as reserved, the vault's direction-specific
/// books are updated, and the leverage guard runs last, with the fees
/// already reflected in the checked collateral.
///
/// On failure nothing is changed.
#[verifier::rlimit(50)]
pub fn increase_position(
    config: &Config,
    vault: &mut Vault,
    vault_cache: &mut VaultCache,
    position: &mut Position,
    size_delta: u64,
    collateral_delta: u64,
    now: u64,
) -> (r: Result<PositionIncreased, ErrorCode>)
    requires
        config.margin_fee_bps <= BASIS_POINTS_DIVISOR,
        old(vault).decimals <= 19,
    ensures
        ({
            let outcome = increase_position_spec(
                *config,
                *old(vault),
                *old(vault_cache),
                *old(position),
                size_delta,
                collateral_delta,
                now,
            );
            match outcome {
                Ok((new_vault, new_cache, new_position, event)) => r == Ok::<
                    PositionIncreased,
                    ErrorCode,
                >(event) && *final(vault) == new_vault && *final(vault_cache) == new_cache
                    && *final(position) == new_position,
                Err(e) => r == Err::<PositionIncreased, ErrorCode>(e) && *final(vault) == *old(
                    vault,
                ) && *final(vault_cache) == *old(vault_cache) && *final(position) == *old(position),
            }
        }),
        r is Ok ==> vault_wf(*final(vault)),
        r is Ok ==> leverage_ok_spec(
            final(position).size as int,
            final(position).collateral as int,
            final(vault).max_leverage as int,
        ),
        r is Ok ==> position_wf(*final(position)),
{
    if size_delta == 0 {
        return Err(ErrorCode::InvalidSizeDelta);
    }
    let mut v_local = *vault;
    let mut c_local = *vault_cache;
    let price = c_local.oracle_price;

    if let Err(e) = v_local.update_funding_rate(now) {
        return Err(e);
    }

    let new_avg_price = match crate::price::get_next_average_price(
        position.size as u128,
        position.avg_entry_price,
        size_delta,
        price,
    ) {
        Ok(p) => p,
        Err(e) => {
            return Err(e);
        },
    };

    let funding_fee: u64 = if position.size == 0 {
        0
    } else {
        if v_local.cumulative_funding_rate < position.last_funding_index as u128 {
            return Err(ErrorCode::ArithmeticUnderflow);
        }
        let index_delta = v_local.cumulative_funding_rate - (position.last_funding_index as u128);
        let weighted = match index_delta.checked_mul(position.size as u128) {
            Some(n) => n,
            None => {
                return Err(ErrorCode::ArithmeticOverflow);
            },
        };
        if weighted > u64::MAX as u128 {
            return Err(ErrorCode::ArithmeticOverflow);
        }
        weighted as u64
    };
    let position_fee = get_position_fee(config, size_delta);
    let fee_usd = match position_fee.checked_add(funding_fee) {
        Some(n) => n,
        None => {
            return Err(ErrorCode::ArithmeticOverflow);
        },
    };

    let collateral_delta_usd = match token_to_usd(
        collateral_delta as u128,
        price,
        v_local.decimals,
    ) {
        Ok(n) => n,
        Err(e) => {
            return Err(e);
        },
    };
    let collateral_plus = match (position.collateral as u128).checked_add(collateral_delta_usd) {
        Some(n) => n,
        None => {
            return Err(ErrorCode::ArithmeticOverflow);
        },
    };
    if collateral_plus > u64::MAX as u128 {
        return Err(ErrorCode::ArithmeticOverflow);
    }
    if collateral_plus < fee_usd as u128 {
        return Err(ErrorCode::InsufficientCollateralForFee);
    }
    let new_collateral = (collateral_plus - fee_usd as u128) as u64;
    let new_size = match position.size.checked_add(size_delta) {
        Some(n) => n,
        None => {
            return Err(ErrorCode::ArithmeticOverflow);
        },
    };

    let reserve_delta = match usd_to_token(size_delta as u128, price, v_local.decimals) {
        Ok(n) => n,
        Err(e) => {
            return Err(e);
        },
    };
    if v_local.reserved.checked_add(reserve_delta).is_none() {
        return Err(ErrorCode::ArithmeticOverflow);
    }
    v_local.increase_reserved(reserve_delta);

    match position.direction {
        Direction::Long => {
            let guaranteed_delta = (size_delta as u128) + (fee_usd as u128);
            if v_local.guaranteed_usd.checked_add(guaranteed_delta).is_none() {
                return Err(ErrorCode::ArithmeticOverflow);
            }
            v_local.increase_guaranteed_usd(guaranteed_delta);
            if let Err(e) = v_local.decrease_guaranteed_usd(collateral_delta_usd) {
                return Err(e);
            }
            if v_local.deposits.checked_add(collateral_delta as u128).is_none() {
                return Err(ErrorCode::ArithmeticOverflow);
            }
            v_local.increase_pool_amount(collateral_delta as u128);
            let fee_tokens = match usd_to_token(fee_usd as u128, price, v_local.decimals) {
                Ok(n) => n,
                Err(e) => {
                    return Err(e);
                },
            };
            if let Err(e) = v_local.decrease_pool_amount(fee_tokens) {
                return Err(e);
            }
        },
        Direction::Short => {
            if c_local.short_open_interest == 0 {
                c_local.short_avg_entry_price = 0;
            } else {
                if c_local.short_open_interest.checked_add(size_delta as u128).is_none() {
                    return Err(ErrorCode::ArithmeticOverflow);
                }
                if let Err(e) = c_local.get_next_short_average_entry_price(size_delta) {
                    return Err(e);
                }
            }
        },
    }

    if v_local.reserved > v_local.deposits {
        return Err(ErrorCode::InsufficientLiquidityToEnterPosition);
    }
    if !leverage_within_limit(new_size, new_collateral, v_local.max_leverage) {
        return Err(ErrorCode::PositionLeverageExceedsLimit);
    }

    position.collateral = new_collateral;
    position.size = new_size;
    position.avg_entry_price = new_avg_price;
    position.last_funding_index = c_local.funding_index;
    position.last_funding_payment = now;
    *vault = v_local;
    *vault_cache = c_local;

    Ok(
        PositionIncreased {
            position: position.self_address,
            authority: position.authority,
            size_delta: size_delta as u128,
            collateral_delta_usd,
            fee: fee_usd as u128,
            price,
        },
    )
}

} // verus!
