use amethyst::error::ErrorCode;

#[test]
fn test_error_messages() {
    assert_eq!(
        ErrorCode::StaleOracleFeed.message(),
        "The oracle feed is older than its time to live."
    );
    assert_eq!(
        ErrorCode::PositionLeverageExceedsLimit.message(),
        "The position's leverage would exceed the maximum leverage allowed."
    );
    assert_ne!(
        ErrorCode::ArithmeticOverflow.message(),
        ErrorCode::ArithmeticUnderflow.message()
    );
}

#[test]
fn test_error_codes_compare() {
    assert_eq!(ErrorCode::DivideByZero, ErrorCode::DivideByZero);
    assert_ne!(ErrorCode::DivideByZero, ErrorCode::ArithmeticOverflow);
}
