use amethyst::error::ErrorCode;
use amethyst::oracle::scale_amount;

#[test]
fn test_scale_amount_pyth_exponents() {
    // Raw pyth readings at exponent -8 rebased onto the oracle target
    // exponent -10.
    let prices = [
        2_292_133_500_000u128, // btcusd
        159_405_889_054u128,   // ethusd
        2_428_596_998u128,     // solusd
    ];
    let results = [
        229_213_350_000_000u128,
        15_940_588_905_400u128,
        242_859_699_800u128,
    ];

    for (idx, price) in prices.iter().enumerate() {
        let scaled_price = scale_amount(*price, 0, -8, -10).unwrap();
        assert_eq!(scaled_price, results[idx]);
    }
}

#[test]
fn test_scale_amount_truncates_toward_zero() {
    // A negative shift divides with truncation.
    assert_eq!(scale_amount(123_456_789, 0, 0, 4).unwrap(), 12_345);
    assert_eq!(scale_amount(9_999, 0, 0, 4).unwrap(), 0);
}

#[test]
fn test_scale_amount_identity() {
    assert_eq!(scale_amount(42, 0, -10, -10).unwrap(), 42);
}

#[test]
fn test_scale_amount_overflow() {
    let result = scale_amount(u128::MAX / 10 + 1, 0, 0, -2);
    assert_eq!(result, Err(ErrorCode::ArithmeticOverflow));
}

#[test]
fn test_scale_amount_large_shift() {
    // A left shift of more than 38 digits can only fit for a zero amount.
    assert_eq!(scale_amount(0, 0, 0, -40).unwrap(), 0);
    assert_eq!(scale_amount(1, 0, 0, -40), Err(ErrorCode::ArithmeticOverflow));
    // A right shift of more than 38 digits truncates everything away.
    assert_eq!(scale_amount(u128::MAX, 0, 0, 40).unwrap(), 0);
}

#[test]
fn test_scale_amount_round_trip_exact() {
    // Rescaling there and back is exact when no truncation occurs.
    let amount = 229_213_350_000_000u128;
    let down = scale_amount(amount, 0, -10, -8).unwrap();
    assert_eq!(down, 2_292_133_500_000);
    let back = scale_amount(down, 0, -8, -10).unwrap();
    assert_eq!(back, amount);

    let up = scale_amount(amount, 0, -10, -12).unwrap();
    let down_again = scale_amount(up, 0, -12, -10).unwrap();
    assert_eq!(down_again, amount);
}
