use amethyst::args::{EnterPositionArgs, SwapArgs};
use amethyst::config::Config;
use amethyst::error::ErrorCode;
use amethyst::instructions::{change_position_collateral, change_position_size, check_leverage,
    close_vault, decrease_position, enter_position, increase_position, pay_funding, swap};
use amethyst::position::{Direction, Position, PositionValueChange};
use amethyst::vault::{OracleType, Vault, VaultCache};

fn base_vault() -> Vault {
    Vault {
        has_dynamic_fees: false,
        is_stable: false,
        cache_index: 0,
        decimals: 5,
        max_leverage: 1_000_000,
        self_address: 1,
        authority: 2,
        token_mint: 3,
        token_vault: 4,
        vault_signer: 5,
        deposits: 1_000_000_000_000,
        reserved: 0,
        cumulative_funding_rate: 0,
        debt_amount: 0,
        guaranteed_usd: 0,
        last_funding_update: 0,
    }
}

fn base_cache() -> VaultCache {
    VaultCache {
        oracle_type: OracleType::Pyth,
        authority: 2,
        vault: 1,
        total_deposits: 0,
        long_open_interest: 0,
        short_open_interest: 0,
        long_avg_entry_price: 0,
        short_avg_entry_price: 0,
        oracle_price: 10_600,
        funding_index: 7,
    }
}

fn base_position() -> Position {
    Position {
        self_address: 11,
        authority: 22,
        token_mint: 3,
        collateral: 0,
        size: 0,
        avg_entry_price: 0,
        direction: Direction::Long,
        last_funding_index: 0,
        last_funding_payment: 0,
    }
}

fn base_config() -> Config {
    Config {
        version: 1,
        tax_bps: 0,
        stable_tax_bps: 0,
        mint_burn_fee_bps: 0,
        swap_fee_bps: 0,
        stable_swap_fee_bps: 0,
        margin_fee_bps: 0,
        authority: 1,
    }
}

#[test]
fn test_enter_position_long() {
    let mut vault = base_vault();
    vault.deposits = 1_000;
    let mut cache = base_cache();
    cache.oracle_price = 42;
    let mut position = base_position();
    let args = EnterPositionArgs { collateral: 100, size: 500, direction: Direction::Long };

    let event = enter_position(&mut vault, &mut cache, &mut position, 22, 3, &args).unwrap();

    assert_eq!(vault.reserved, 400);
    assert_eq!(vault.deposits, 1_000);
    assert_eq!(cache.long_open_interest, 500);
    assert_eq!(cache.long_avg_entry_price, 42);
    assert_eq!(position.collateral, 100);
    assert_eq!(position.size, 500);
    assert_eq!(position.avg_entry_price, 42);
    assert_eq!(event.position, 11);
    assert_eq!(event.authority, 22);
    assert_eq!(event.size, 500);
    assert_eq!(event.collateral, 100);
}

#[test]
fn test_enter_position_short() {
    let mut vault = base_vault();
    vault.deposits = 1_000;
    let mut cache = base_cache();
    cache.oracle_price = 42;
    let mut position = base_position();
    let args = EnterPositionArgs { collateral: 100, size: 500, direction: Direction::Short };

    enter_position(&mut vault, &mut cache, &mut position, 22, 3, &args).unwrap();

    assert_eq!(cache.short_open_interest, 500);
    assert_eq!(cache.short_avg_entry_price, 42);
    assert_eq!(cache.long_open_interest, 0);
    assert_eq!(vault.reserved, 400);
}

#[test]
fn test_enter_position_insufficient_liquidity() {
    let mut vault = base_vault();
    vault.deposits = 1_000;
    vault.reserved = 600;
    let mut cache = base_cache();
    let mut position = base_position();
    let before = (vault, cache, position);
    let args = EnterPositionArgs { collateral: 100, size: 500, direction: Direction::Long };

    let result = enter_position(&mut vault, &mut cache, &mut position, 22, 3, &args);

    assert_eq!(result, Err(ErrorCode::InsufficientLiquidityToEnterPosition));
    assert_eq!((vault, cache, position), before);
}

#[test]
fn test_enter_position_zero_collateral() {
    let mut vault = base_vault();
    let mut cache = base_cache();
    let mut position = base_position();
    let args = EnterPositionArgs { collateral: 0, size: 500, direction: Direction::Long };

    let result = enter_position(&mut vault, &mut cache, &mut position, 22, 3, &args);

    assert_eq!(result, Err(ErrorCode::InvalidTokenAmount));
}

#[test]
fn test_enter_position_collateral_above_size() {
    let mut vault = base_vault();
    let mut cache = base_cache();
    let mut position = base_position();
    let args = EnterPositionArgs { collateral: 600, size: 500, direction: Direction::Long };

    let result = enter_position(&mut vault, &mut cache, &mut position, 22, 3, &args);

    assert_eq!(result, Err(ErrorCode::ArithmeticUnderflow));
}

#[test]
fn test_enter_position_leverage_exceeded() {
    let mut vault = base_vault();
    vault.max_leverage = 10_000;
    let mut cache = base_cache();
    let mut position = base_position();
    // Size 500 against collateral 100 is 5x leverage, above a 1x cap.
    let args = EnterPositionArgs { collateral: 100, size: 500, direction: Direction::Long };

    let result = enter_position(&mut vault, &mut cache, &mut position, 22, 3, &args);

    assert_eq!(result, Err(ErrorCode::PositionLeverageExceedsLimit));
    assert_eq!(vault.reserved, 0);
}

#[test]
fn test_increase_position_long() {
    let config = base_config();
    let mut vault = base_vault();
    let mut cache = base_cache();
    let mut position = base_position();

    let event = increase_position(
        &config,
        &mut vault,
        &mut cache,
        &mut position,
        1_060_000,
        100_000_000_000,
        1_000,
    )
    .unwrap();

    // The added collateral of 100_000_000_000 native units is worth
    // 1_060_000 USD at the cached price; no fees with a zero fee rate.
    assert_eq!(position.collateral, 1_060_000);
    assert_eq!(position.size, 1_060_000);
    assert_eq!(position.avg_entry_price, 10_600);
    assert_eq!(position.last_funding_index, 7);
    assert_eq!(position.last_funding_payment, 1_000);
    // The size delta is backed by reserved liquidity and the collateral
    // joins the pool.
    assert_eq!(vault.reserved, 100_000_000_000);
    assert_eq!(vault.deposits, 1_100_000_000_000);
    assert_eq!(vault.guaranteed_usd, 0);
    assert_eq!(event.size_delta, 1_060_000);
    assert_eq!(event.collateral_delta_usd, 1_060_000);
    assert_eq!(event.fee, 0);
    assert_eq!(event.price, 10_600);
}

#[test]
fn test_increase_position_charges_fees() {
    let mut config = base_config();
    config.margin_fee_bps = 10;
    let mut vault = base_vault();
    let mut cache = base_cache();
    let mut position = base_position();

    let event = increase_position(
        &config,
        &mut vault,
        &mut cache,
        &mut position,
        1_060_000,
        100_000_000_000,
        1_000,
    )
    .unwrap();

    // Ten basis points of 1_060_000 is 1_060 USD, charged against the
    // collateral and taken back out of the pool in native units.
    assert_eq!(event.fee, 1_060);
    assert_eq!(position.collateral, 1_058_940);
    assert_eq!(vault.guaranteed_usd, 1_060_000 + 1_060 - 1_060_000);
    assert_eq!(vault.deposits, 1_100_000_000_000 - 100_000_000);
}

#[test]
fn test_increase_position_zero_delta() {
    let config = base_config();
    let mut vault = base_vault();
    let mut cache = base_cache();
    let mut position = base_position();

    let result = increase_position(&config, &mut vault, &mut cache, &mut position, 0, 0, 1_000);

    assert_eq!(result, Err(ErrorCode::InvalidSizeDelta));
}

#[test]
fn test_increase_position_insufficient_collateral_for_fee() {
    let mut config = base_config();
    config.margin_fee_bps = 10_000;
    let mut vault = base_vault();
    let mut cache = base_cache();
    let mut position = base_position();
    let before = (vault, cache, position);

    let result = increase_position(
        &config,
        &mut vault,
        &mut cache,
        &mut position,
        1_060_000,
        0,
        1_000,
    );

    assert_eq!(result, Err(ErrorCode::InsufficientCollateralForFee));
    assert_eq!((vault, cache, position), before);
}

#[test]
fn test_increase_position_short_leaves_vault_books() {
    let config = base_config();
    let mut vault = base_vault();
    let mut cache = base_cache();
    cache.short_open_interest = 0;
    cache.short_avg_entry_price = 99;
    let mut position = base_position();
    position.direction = Direction::Short;
    position.collateral = 1_060_000;

    increase_position(&config, &mut vault, &mut cache, &mut position, 1_060_000, 0, 1_000)
        .unwrap();

    // With no short open interest the cached short average entry price is
    // reset; the long-side guaranteed USD and pool books stay untouched.
    assert_eq!(cache.short_avg_entry_price, 0);
    assert_eq!(cache.short_open_interest, 0);
    assert_eq!(vault.guaranteed_usd, 0);
    assert_eq!(vault.deposits, 1_000_000_000_000);
    assert_eq!(vault.reserved, 100_000_000_000);
}

#[test]
fn test_increase_position_accrues_funding_first() {
    let config = base_config();
    let mut vault = base_vault();
    vault.deposits = 1_000_000_000;
    vault.reserved = 500_000_000;
    let mut cache = base_cache();
    cache.oracle_price = 10_000_000_000;
    let mut position = base_position();
    position.collateral = 2_000_000;
    position.size = 10;
    position.avg_entry_price = 10_000_000_000;

    let event = increase_position(&config, &mut vault, &mut cache, &mut position, 10, 0, 7_200)
        .unwrap();

    // Two whole hours of funding accrue first:
    // 100_000 * 500_000_000 * 2 / 1_000_000_000 = 100_000 on the index, so
    // the position owes (100_000 - 0) * 10 = 1_000_000 USD, reflected in
    // the collateral before the leverage check.
    assert_eq!(vault.cumulative_funding_rate, 100_000);
    assert_eq!(vault.last_funding_update, 7_200);
    assert_eq!(event.fee, 1_000_000);
    assert_eq!(position.collateral, 1_000_000);
    assert_eq!(position.size, 20);
    // The fee leaves the pool in native units: 1_000_000 USD at a price of
    // one dollar is 100_000 native units at five decimals.
    assert_eq!(vault.deposits, 999_900_000);
    assert_eq!(vault.guaranteed_usd, 1_000_010);
}

#[test]
fn test_change_position_size() {
    let vault = base_vault();
    let mut position = base_position();
    position.collateral = 100;
    position.size = 100;

    change_position_size(&mut position, &vault, PositionValueChange::Increase(400)).unwrap();
    assert_eq!(position.size, 500);
    change_position_size(&mut position, &vault, PositionValueChange::Decrease(200)).unwrap();
    assert_eq!(position.size, 300);

    let result = change_position_size(&mut position, &vault, PositionValueChange::Decrease(301));
    assert_eq!(result, Err(ErrorCode::ArithmeticUnderflow));
}

#[test]
fn test_change_position_size_leverage_guard() {
    let mut vault = base_vault();
    vault.max_leverage = 50_000;
    let mut position = base_position();
    position.collateral = 100;
    position.size = 100;

    // Growing to 5x leverage hits the cap exactly, which is rejected.
    let result = change_position_size(&mut position, &vault, PositionValueChange::Increase(400));
    assert_eq!(result, Err(ErrorCode::PositionLeverageExceedsLimit));
    assert_eq!(position.size, 100);
}

#[test]
fn test_change_position_collateral() {
    let vault = base_vault();
    let mut position = base_position();
    position.collateral = 100;
    position.size = 100;

    change_position_collateral(&mut position, &vault, PositionValueChange::Increase(50)).unwrap();
    assert_eq!(position.collateral, 150);
    change_position_collateral(&mut position, &vault, PositionValueChange::Decrease(100)).unwrap();
    assert_eq!(position.collateral, 50);

    let zero = change_position_collateral(&mut position, &vault, PositionValueChange::Increase(0));
    assert_eq!(zero, Err(ErrorCode::InvalidTokenAmount));

    let mut strict_vault = base_vault();
    strict_vault.max_leverage = 10_000;
    let result = change_position_collateral(
        &mut position,
        &strict_vault,
        PositionValueChange::Decrease(1),
    );
    assert_eq!(result, Err(ErrorCode::PositionLeverageExceedsLimit));
    assert_eq!(position.collateral, 50);
}

#[test]
fn test_pay_funding() {
    let mut vault = base_vault();
    vault.cumulative_funding_rate = 50;
    let mut cache = base_cache();
    cache.funding_index = 9;
    let mut position = base_position();
    position.size = 1_000;
    position.last_funding_index = 20;

    let amount = pay_funding(&mut position, &vault, &cache, 3_700).unwrap();

    // Owed funding: (50 - 20) * 1_000 = 30_000 USD, converted at 10_600
    // into native units.
    assert_eq!(amount, 2_830_100_000);
    assert_eq!(position.last_funding_index, 9);
    assert_eq!(position.last_funding_payment, 3_700);
}

#[test]
fn test_pay_funding_interval_not_elapsed() {
    let vault = base_vault();
    let cache = base_cache();
    let mut position = base_position();
    position.last_funding_payment = 1_000;

    let result = pay_funding(&mut position, &vault, &cache, 4_600);

    assert_eq!(result, Err(ErrorCode::InvalidFundingInterval));
    assert_eq!(position.last_funding_payment, 1_000);
}

#[test]
fn test_close_vault() {
    let mut vault = base_vault();
    vault.deposits = 10;
    vault.reserved = 5;
    assert_eq!(close_vault(&vault), Err(ErrorCode::CannotCloseVaultWithReservedAssets));
    vault.reserved = 0;
    assert_eq!(close_vault(&vault), Err(ErrorCode::CannotCloseVaultWithDepositedAssets));
    vault.deposits = 0;
    assert_eq!(close_vault(&vault), Ok(()));
}

#[test]
fn test_swap_liquidity_check() {
    let mut vault = base_vault();
    vault.deposits = 1_000;
    vault.reserved = 600;
    let args = SwapArgs { amount_in: 10, min_amount_out: 401 };
    assert_eq!(swap(&vault, &args), Err(ErrorCode::InsufficientLiquidityForSwap));
    let exact = SwapArgs { amount_in: 10, min_amount_out: 400 };
    assert_eq!(swap(&vault, &exact), Ok(()));
}

#[test]
fn test_check_leverage() {
    let mut vault = base_vault();
    vault.max_leverage = 100_000;
    let mut position = base_position();
    position.collateral = 100;
    position.size = 999;
    assert_eq!(check_leverage(&position, &vault), Ok(()));
    position.size = 1_000;
    assert_eq!(
        check_leverage(&position, &vault),
        Err(ErrorCode::PositionLeverageExceedsLimit)
    );
    position.collateral = 0;
    position.size = 0;
    assert_eq!(
        check_leverage(&position, &vault),
        Err(ErrorCode::PositionLeverageExceedsLimit)
    );
}

#[test]
fn test_decrease_position_runs_leverage_guard() {
    let mut vault = base_vault();
    vault.max_leverage = 100_000;
    let mut position = base_position();
    position.collateral = 100;
    position.size = 500;
    assert_eq!(decrease_position(&position, &vault), Ok(()));
    position.collateral = 1;
    assert_eq!(
        decrease_position(&position, &vault),
        Err(ErrorCode::PositionLeverageExceedsLimit)
    );
}
