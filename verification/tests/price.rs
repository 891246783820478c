use amethyst::error::ErrorCode;
use amethyst::price::get_next_average_price;

#[test]
pub fn test_get_next_average_price() {
    let current_size = 3;
    let current_average_price = 9_666_670_000;
    let current_price = 11_000_000_000;
    let next_average_price =
        get_next_average_price(current_size, current_average_price, 2, current_price).unwrap();
    assert_eq!(next_average_price, 10_200_002_000);
}

#[test]
fn test_next_average_price_from_zero_size_is_price() {
    let next = get_next_average_price(0, 123, 7, 11_000_000_000).unwrap();
    assert_eq!(next, 11_000_000_000);
}

#[test]
fn test_next_average_price_zero_delta_keeps_average() {
    let next = get_next_average_price(5, 9_666_670_000, 0, 11_000_000_000).unwrap();
    assert_eq!(next, 9_666_670_000);
}

#[test]
fn test_next_average_price_overflow() {
    let result = get_next_average_price(u128::MAX / 2, u64::MAX, 1, 1);
    assert_eq!(result, Err(ErrorCode::ArithmeticOverflow));
}
