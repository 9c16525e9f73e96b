use indie_games::collateral::collateral_due;

#[test]
fn half_of_a_thousand() {
    assert_eq!(collateral_due(50, 10, 100), Some(500));
}

#[test]
fn order_of_factors_does_not_matter() {
    assert_eq!(collateral_due(50, 10, 100), Some(10 * 100 * 50 / 100));
    assert_eq!(collateral_due(150, 3, 7), Some(31));
    assert_eq!(collateral_due(0, 10, 100), Some(0));
    assert_eq!(collateral_due(99, 1, 1), Some(0));
}

#[test]
fn overflowing_products_are_refused() {
    assert_eq!(collateral_due(50, u64::MAX, 1), None);
    assert_eq!(collateral_due(2, u64::MAX / 2, 3), None);
    assert_eq!(collateral_due(1, u64::MAX, 1), Some(u64::MAX / 100));
}
