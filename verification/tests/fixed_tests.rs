use graph::fixed::{floor_div, half, minus, plus, saturate_wide, times, ONE};

#[test]
fn one_is_a_million() {
    assert_eq!(ONE, 1_000_000);
}

#[test]
fn saturate_keeps_values_in_range() {
    assert_eq!(saturate_wide(0), 0);
    assert_eq!(saturate_wide(-5), -5);
    assert_eq!(saturate_wide(i64::MAX as i128), i64::MAX);
    assert_eq!(saturate_wide(i64::MIN as i128), i64::MIN);
}

#[test]
fn saturate_clamps_values_out_of_range() {
    assert_eq!(saturate_wide(i64::MAX as i128 + 1), i64::MAX);
    assert_eq!(saturate_wide(i64::MIN as i128 - 1), i64::MIN);
    assert_eq!(saturate_wide(i128::MAX), i64::MAX);
    assert_eq!(saturate_wide(i128::MIN), i64::MIN);
}

#[test]
fn floor_div_rounds_towards_negative_infinity() {
    assert_eq!(floor_div(7, 2), 3);
    assert_eq!(floor_div(-7, 2), -4);
    assert_eq!(floor_div(-8, 2), -4);
    assert_eq!(floor_div(0, 5), 0);
    assert_eq!(floor_div(-1, 1_000_000), -1);
    assert_eq!(floor_div(999_999, 1_000_000), 0);
}

#[test]
fn plus_and_minus_saturate() {
    assert_eq!(plus(2, 3), 5);
    assert_eq!(plus(i64::MAX, 1), i64::MAX);
    assert_eq!(plus(i64::MIN, -1), i64::MIN);
    assert_eq!(minus(2, 3), -1);
    assert_eq!(minus(i64::MIN, 1), i64::MIN);
    assert_eq!(minus(i64::MAX, -1), i64::MAX);
    assert_eq!(minus(0, i64::MIN), i64::MAX);
}

#[test]
fn times_is_the_fixed_point_product() {
    assert_eq!(times(2 * ONE, 3 * ONE), 6 * ONE);
    assert_eq!(times(128 * ONE, 200_000), 25_600_000);
    assert_eq!(times(-3, 500_000), -2);
    assert_eq!(times(3, 500_000), 1);
    assert_eq!(times(i64::MAX, i64::MAX), i64::MAX);
    assert_eq!(times(i64::MIN, i64::MAX), i64::MIN);
}

#[test]
fn half_rounds_down() {
    assert_eq!(half(7), 3);
    assert_eq!(half(-7), -4);
    assert_eq!(half(800 * ONE), 400 * ONE);
    assert_eq!(half(i64::MIN), i64::MIN / 2);
}
