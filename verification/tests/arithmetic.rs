use perceptron::lattice::{product, saturate, saturating_sum, ONE, QUARTER_RATE_SCALE, RATE_SCALE};
use perceptron::point::Point;

#[test]
fn units_are_as_documented() {
    assert_eq!(ONE, 1i64 << 23);
    assert_eq!(RATE_SCALE, 100_000_000i64);
    assert_eq!(QUARTER_RATE_SCALE * 4, RATE_SCALE);
}

#[test]
fn product_of_small_values() {
    assert_eq!(product(6, -7), -42i128);
    assert_eq!(product(0, i64::MIN), 0i128);
}

#[test]
fn product_of_extremes_fits() {
    assert_eq!(product(i64::MIN, i64::MIN), 1i128 << 126);
    assert_eq!(product(i64::MIN, i64::MAX), -(1i128 << 126) + (1i128 << 63));
    assert_eq!(product(i64::MAX, i64::MAX), (1i128 << 126) - (1i128 << 64) + 1);
}

#[test]
fn saturating_sum_inside_the_range_is_the_sum() {
    assert_eq!(saturating_sum(40, 2), 42i128);
    assert_eq!(saturating_sum(i128::MAX, i128::MIN), -1i128);
    assert_eq!(saturating_sum(i128::MAX - 1, 1), i128::MAX);
}

#[test]
fn saturating_sum_is_held_at_both_ends() {
    assert_eq!(saturating_sum(i128::MAX, 1), i128::MAX);
    assert_eq!(saturating_sum(1i128 << 126, 1i128 << 126), i128::MAX);
    assert_eq!(saturating_sum(i128::MIN, -1), i128::MIN);
    assert_eq!(saturating_sum(-(1i128 << 126), i128::MIN), i128::MIN);
}

#[test]
fn saturate_inside_the_range_keeps_the_value() {
    assert_eq!(saturate(0), 0i64);
    assert_eq!(saturate(-5), -5i64);
    assert_eq!(saturate(i64::MAX as i128), i64::MAX);
    assert_eq!(saturate(i64::MIN as i128), i64::MIN);
}

#[test]
fn saturate_is_held_at_both_ends() {
    assert_eq!(saturate(i64::MAX as i128 + 1), i64::MAX);
    assert_eq!(saturate(i128::MAX), i64::MAX);
    assert_eq!(saturate(i64::MIN as i128 - 1), i64::MIN);
    assert_eq!(saturate(i128::MIN), i64::MIN);
}

#[test]
fn point_new_keeps_its_coordinates() {
    let p = Point::new(3, -4);
    assert_eq!(p.x, 3i64);
    assert_eq!(p.y, -4i64);
    assert_eq!(p, Point { x: 3, y: -4 });
}

#[test]
fn dot_is_the_sum_of_the_products() {
    let a = Point::new(3, 4);
    let b = Point::new(5, -6);
    assert_eq!(a.dot(&b), -9i128);
    assert_eq!(b.dot(&a), -9i128);
    assert_eq!(a.dot(&a), 25i128);
}

#[test]
fn dot_with_the_zero_vector_is_zero() {
    let zero = Point::new(0, 0);
    let p = Point::new(i64::MAX, i64::MIN);
    assert_eq!(zero.dot(&p), 0i128);
    assert_eq!(p.dot(&zero), 0i128);
}

#[test]
fn dot_of_large_coordinates_is_exact() {
    let a = Point::new(i64::MAX, i64::MAX);
    assert_eq!(a.dot(&a), 2 * ((1i128 << 126) - (1i128 << 64) + 1));
    let b = Point::new(i64::MIN, i64::MAX);
    let c = Point::new(i64::MIN, i64::MIN);
    assert_eq!(b.dot(&c), 1i128 << 63);
}

#[test]
fn dot_is_held_at_the_top_of_the_range() {
    let lowest = Point::new(i64::MIN, i64::MIN);
    assert_eq!(lowest.dot(&lowest), i128::MAX);
}
