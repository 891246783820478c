use amethyst::error::ErrorCode;
use amethyst::oracle::{get_pyth_price, get_switchboard_price, BoundedPrice, PriceFeedResult};

#[test]
pub fn test_get_pyth_price_confident() {
    let price_feed_result = get_pyth_price(2_292_133_500_000, 335_477_026, -8, 0, 500_000_000, 15)
        .unwrap();

    assert!(price_feed_result == PriceFeedResult::Confident(229_213_350_000_000u128));
}

#[test]
pub fn test_get_pyth_price_bounded() {
    let price_feed_result = get_pyth_price(2_292_133_500_000, 335_477_026, -8, 0, 250_000_000, 15)
        .unwrap();

    assert!(
        price_feed_result
            == PriceFeedResult::Bounded(BoundedPrice {
                price: 229_213_350_000_000,
                lower_bound: 229_179_802_297_400,
                higher_bound: 229_246_897_702_600
            })
    );
}

#[test]
fn test_get_pyth_price_stale() {
    let result = get_pyth_price(2_292_133_500_000, 335_477_026, -8, 0, 500_000_000, 31);
    assert_eq!(result, Err(ErrorCode::StaleOracleFeed));
}

#[test]
pub fn test_get_switchboard_price_confident() {
    // The latest confirmed round carries 22_921.335 as its result and
    // 3.35477026 as its standard deviation; the confidence threshold is 5.0.
    let price_feed_result = get_switchboard_price(22_921_335, 3, 335_477_026, 8, 5, 0, 0, 15)
        .unwrap();

    assert!(price_feed_result == PriceFeedResult::Confident(229_213_350_000_000));
}

#[test]
pub fn test_get_switchboard_price_bounded() {
    // The same round classified against a confidence threshold of 2.5.
    let price_feed_result = get_switchboard_price(22_921_335, 3, 335_477_026, 8, 25, 1, 0, 15)
        .unwrap();

    assert!(
        price_feed_result
            == PriceFeedResult::Bounded(BoundedPrice {
                price: 229_213_350_000_000,
                lower_bound: 229_179_802_297_400,
                higher_bound: 229_246_897_702_600
            })
    );
}

#[test]
fn test_get_switchboard_price_stale() {
    let result = get_switchboard_price(22_921_335, 3, 335_477_026, 8, 5, 0, 0, 100);
    assert_eq!(result, Err(ErrorCode::StaleOracleFeed));
}
