use curve_launchpad::{calculate_fee, try_calculate_fee, CurveLaunchpadError};

#[test]
fn test_calculate_fee() {
    assert_eq!(calculate_fee(100, 100), 1); //1% fee
    assert_eq!(calculate_fee(100, 1000), 10); //10% fee
    assert_eq!(calculate_fee(100, 5000), 50); //50% fee
    assert_eq!(calculate_fee(100, 50000), 500); //500% fee
    assert_eq!(calculate_fee(100, 50), 0); //0.5% fee
    assert_eq!(calculate_fee(1000, 50), 5); //0.5% fee
    assert_eq!(calculate_fee(100, 0), 0); //0% fee
}

#[test]
fn fee_rounds_down() {
    assert_eq!(calculate_fee(199, 50), 0);
    assert_eq!(calculate_fee(200, 50), 1);
    assert_eq!(calculate_fee(399, 50), 1);
    assert_eq!(calculate_fee(27_960, 50), 139);
    assert_eq!(calculate_fee(9_999, 1), 0);
    assert_eq!(calculate_fee(10_000, 1), 1);
}

#[test]
fn fee_of_nothing_is_nothing() {
    assert_eq!(calculate_fee(0, 10_000), 0);
    assert_eq!(calculate_fee(0, 0), 0);
    assert_eq!(calculate_fee(u64::MAX, 0), 0);
}

#[test]
fn fee_rate_is_not_capped() {
    assert_eq!(calculate_fee(100, 10_000), 100);
    assert_eq!(calculate_fee(100, 20_000), 200);
    assert_eq!(try_calculate_fee(100, 20_000), Ok(200));
}

#[test]
fn checked_fee_agrees_where_the_product_fits() {
    assert_eq!(try_calculate_fee(100, 100), Ok(1));
    assert_eq!(try_calculate_fee(100, 1000), Ok(10));
    assert_eq!(try_calculate_fee(100, 5000), Ok(50));
    assert_eq!(try_calculate_fee(100, 0), Ok(0));
    assert_eq!(try_calculate_fee(1000, 50), Ok(5));
    assert_eq!(try_calculate_fee(u64::MAX, 1), Ok(u64::MAX / 10_000));
    assert_eq!(try_calculate_fee(u64::MAX / 50, 50), Ok(u64::MAX / 50 * 50 / 10_000));
}

#[test]
fn checked_fee_rejects_a_product_that_overflows() {
    assert_eq!(
        try_calculate_fee(u64::MAX, 2),
        Err(CurveLaunchpadError::ArithmeticOverflow)
    );
    assert_eq!(
        try_calculate_fee(u64::MAX / 50 + 1, 50),
        Err(CurveLaunchpadError::ArithmeticOverflow)
    );
    assert_eq!(
        try_calculate_fee(1 << 32, 1 << 32),
        Err(CurveLaunchpadError::ArithmeticOverflow)
    );
}
