use amethyst::conversions::{adjust_decimals, to_native_amount, token_to_usd, usd_to_token};
use amethyst::error::ErrorCode;

#[test]
pub fn test_adjust_decimals() {
    // e.g. value of 1_000_000 BONK in native token amount using a price feed
    // scaled to -10 exponent
    let scaled_token_value = 106_000_000_000;

    let adjusted_amount = adjust_decimals(scaled_token_value, 5);

    assert_eq!(adjusted_amount, 1_060_000);
}

#[test]
pub fn test_to_native_amount() {
    let scaled_token_value = 1_060_000;

    let adjusted_amount = to_native_amount(scaled_token_value, 5);

    assert_eq!(adjusted_amount, 106_000_000_000);
}

#[test]
pub fn test_token_to_usd() {
    let inputs = [
        (100_000_000_000u128, 10_600u64), // e.g 1_000_000 BONK in native token amount
        (1_000_000_000_000_000u128, 242_859_699_800u64), // e.g 1_000_000 SOL in native token amount
        (100_000_000_000_000u128, 15_940_588_905_400u64), // e.g 1_000_000 ETH in native token amount
    ];
    let decimals = [5, 9, 8];
    let results = [
        1_060_000u128,             // 1_000_000 bonk x 0.00000106.. = 1.06 usdc
        24_285_969_980_000u128,    // 1_000_000 sol x 24.28596.. = 24_285_969.980 usdc
        1_594_058_890_540_000u128, // 1_000_000 eth x 1594.0588.. = 1_594_058_890.5400 usdc
    ];

    for (idx, (amount, price)) in inputs.iter().enumerate() {
        let usd_value = token_to_usd(*amount, *price, decimals[idx]).unwrap();

        assert_eq!(usd_value, results[idx]);
    }
}

#[test]
pub fn test_usd_to_token() {
    let inputs = [
        (1_060_000u128, 10_600u64), // e.g 1_000_000 BONK in native usd token amount
        (24_285_969_980_000u128, 242_859_699_800u64), // e.g 1_000_000 SOL in native usd token amount
        (1_594_058_890_540_000u128, 15_940_588_905_400u64), // e.g 1_000_000 ETH in native usd token amount
    ];
    let decimals = [5, 9, 8];
    let results = [
        100_000_000_000u128,
        1_000_000_000_000_000u128,
        100_000_000_000_000u128,
    ];

    for (idx, (amount, price)) in inputs.iter().enumerate() {
        let token_amount = usd_to_token(*amount, *price, decimals[idx]).unwrap();
        assert_eq!(token_amount, results[idx]);
    }
}

#[test]
fn test_token_to_usd_overflow() {
    let result = token_to_usd(u128::MAX, 2, 5);
    assert_eq!(result, Err(ErrorCode::ArithmeticOverflow));
}

#[test]
fn test_usd_to_token_zero_price() {
    let result = usd_to_token(1_060_000, 0, 5);
    assert_eq!(result, Err(ErrorCode::DivideByZero));
}

#[test]
fn test_usd_to_token_overflow() {
    let result = usd_to_token(u128::MAX / 2, 10_600, 5);
    assert_eq!(result, Err(ErrorCode::ArithmeticOverflow));
}

#[test]
fn test_decimal_adjust_round_trip_within_one_unit() {
    // Dropping decimals and widening back stays within one unit of
    // truncation error.
    let amount: u128 = 106_543_210_987;
    let decimals: u8 = 5;
    let round_trip = to_native_amount(adjust_decimals(amount, decimals), decimals);
    assert_eq!(round_trip, 106_543_200_000);
    assert!(round_trip <= amount);
    assert!(amount - round_trip < 100_000);
}
