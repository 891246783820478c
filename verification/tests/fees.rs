use amethyst::cache::Cache;
use amethyst::config::Config;
use amethyst::fees::{get_fee_bps, get_funding_fee, get_position_fee};
use amethyst::vault::Vault;

fn test_config(margin_fee_bps: u16) -> Config {
    Config {
        version: 1,
        tax_bps: 0,
        stable_tax_bps: 0,
        mint_burn_fee_bps: 0,
        swap_fee_bps: 0,
        stable_swap_fee_bps: 0,
        margin_fee_bps,
        authority: 1,
    }
}

fn test_vault() -> Vault {
    Vault {
        has_dynamic_fees: false,
        is_stable: false,
        cache_index: 0,
        decimals: 5,
        max_leverage: 1_000_000,
        self_address: 1,
        authority: 2,
        token_mint: 3,
        token_vault: 4,
        vault_signer: 5,
        deposits: 0,
        reserved: 0,
        cumulative_funding_rate: 0,
        debt_amount: 0,
        guaranteed_usd: 0,
        last_funding_update: 0,
    }
}

#[test]
fn test_position_fee_zero_rate() {
    let config = test_config(0);
    assert_eq!(get_position_fee(&config, 123_456_789), 0);
    assert_eq!(get_position_fee(&config, u64::MAX / 10_000), 0);
}

#[test]
fn test_position_fee_zero_delta() {
    let config = test_config(500);
    assert_eq!(get_position_fee(&config, 0), 0);
}

#[test]
fn test_position_fee_examples() {
    // Ten basis points on a notional of 10_000 is 10.
    let config = test_config(10);
    assert_eq!(get_position_fee(&config, 10_000), 10);
    // The fee is the difference against the truncated discounted notional,
    // so a fractional fee rounds up against the position.
    assert_eq!(get_position_fee(&config, 999), 1);
}

#[test]
fn test_funding_fee() {
    let mut vault = test_vault();
    vault.cumulative_funding_rate = 500;
    assert_eq!(get_funding_fee(&vault, 10, 200), 3_000);
    assert_eq!(get_funding_fee(&vault, 0, 200), 0);
}

#[test]
fn test_fee_bps_static() {
    let vault = test_vault();
    let cache = Cache { authority: 1, lp_token_supply: 1_000, weights: vec![1, 1] };
    assert_eq!(get_fee_bps(&cache, &vault, 100, 30, 50, true), 30);
}

#[test]
fn test_fee_bps_without_target() {
    let mut vault = test_vault();
    vault.has_dynamic_fees = true;
    vault.debt_amount = 600;
    let cache = Cache { authority: 1, lp_token_supply: 0, weights: vec![1, 1] };
    assert_eq!(get_fee_bps(&cache, &vault, 100, 30, 50, true), 30);
}

#[test]
fn test_fee_bps_taxes_flows_away_from_target() {
    let mut vault = test_vault();
    vault.has_dynamic_fees = true;
    vault.debt_amount = 600;
    // Target debt: 1_000 * 1 / 2 = 500. Initial distance 100, next 200,
    // average 150; tax: 50 * 150 / 500 = 15.
    let cache = Cache { authority: 1, lp_token_supply: 1_000, weights: vec![1, 1] };
    assert_eq!(get_fee_bps(&cache, &vault, 100, 30, 50, true), 45);
}

#[test]
fn test_fee_bps_rebates_flows_toward_target() {
    let mut vault = test_vault();
    vault.has_dynamic_fees = true;
    vault.debt_amount = 600;
    // A decrement of 100 lands exactly on the target of 500; rebate:
    // 50 * 100 / 500 = 10 off the base fee.
    let cache = Cache { authority: 1, lp_token_supply: 1_000, weights: vec![1, 1] };
    assert_eq!(get_fee_bps(&cache, &vault, 100, 30, 50, false), 20);
}

#[test]
fn test_fee_bps_rebate_caps_at_zero() {
    let mut vault = test_vault();
    vault.has_dynamic_fees = true;
    vault.debt_amount = 5_000;
    // Rebate 50 * 4_500 / 500 = 450 exceeds the base fee of 30.
    let cache = Cache { authority: 1, lp_token_supply: 1_000, weights: vec![1, 1] };
    assert_eq!(get_fee_bps(&cache, &vault, 4_500, 30, 50, false), 0);
}
