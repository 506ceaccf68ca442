use fondscalc::adjust::ValueAdjustment;

/// One euro in fixed point (also the fixed-point 1.0).
const EUR: i128 = 1_000_000;

#[test]
fn percent_of_a_base() {
    // 1.5 % of 5000 EUR is 75 EUR
    let adj = ValueAdjustment::Percent(1_500_000);
    assert_eq!(adj.evaluate(5000 * EUR), Some(75 * EUR));
}

#[test]
fn percent_of_a_negative_base() {
    let adj = ValueAdjustment::Percent(50 * EUR);
    assert_eq!(adj.evaluate(-10 * EUR), Some(-5 * EUR));
}

#[test]
fn negative_percent() {
    let adj = ValueAdjustment::Percent(-10 * EUR);
    assert_eq!(adj.evaluate(200 * EUR), Some(-20 * EUR));
}

#[test]
fn percent_truncates_toward_zero() {
    // 50 % of three millionths truncates to one millionth, on both sides
    // of zero
    let adj = ValueAdjustment::Percent(50 * EUR);
    assert_eq!(adj.evaluate(3), Some(1));
    assert_eq!(adj.evaluate(-3), Some(-1));
}

#[test]
fn absolute_ignores_the_base() {
    let adj = ValueAdjustment::Absolute(42 * EUR);
    assert_eq!(adj.evaluate(0), Some(42 * EUR));
    assert_eq!(adj.evaluate(1_000_000 * EUR), Some(42 * EUR));
    assert_eq!(adj.evaluate(-1), Some(42 * EUR));
}

#[test]
fn percent_overflow_returns_none() {
    let adj = ValueAdjustment::Percent(i128::MAX);
    assert_eq!(adj.evaluate(2), None);
    // the absolute variant never overflows
    assert_eq!(ValueAdjustment::Absolute(i128::MAX).evaluate(2), Some(i128::MAX));
}
