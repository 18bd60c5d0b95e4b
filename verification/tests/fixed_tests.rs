use pong50th::fixed::{isqrt, Fixed, SCALE};

#[test]
fn whole_numbers_scale_by_a_million() {
    assert_eq!(SCALE, 1_000_000);
    assert_eq!(Fixed::from_int(400).raw(), 400_000_000);
    assert_eq!(Fixed::from_int(-3).raw(), -3_000_000);
    assert_eq!(Fixed::zero().raw(), 0);
    assert_eq!(Fixed::one().raw(), 1_000_000);
}

#[test]
fn ratios_round_towards_zero() {
    assert_eq!(Fixed::from_ratio(1, 60).raw(), 16_666);
    assert_eq!(Fixed::from_ratio(-1, 60).raw(), -16_666);
    assert_eq!(Fixed::from_ratio(1, 2).raw(), 500_000);
    assert_eq!(Fixed::from_ratio(2, 3).raw(), 666_666);
}

#[test]
fn sums_and_differences_are_exact() {
    let a = Fixed::from_raw(1_500_000);
    let b = Fixed::from_raw(-250_000);
    assert_eq!(a.add(b).raw(), 1_250_000);
    assert_eq!(a.sub(b).raw(), 1_750_000);
    assert_eq!(b.neg().raw(), 250_000);
}

#[test]
fn products_round_towards_zero() {
    let a = Fixed::from_raw(1_500_000);
    let b = Fixed::from_raw(333_333);
    assert_eq!(a.mul(b).raw(), 499_999);
    assert_eq!(a.neg().mul(b).raw(), -499_999);
    assert_eq!(Fixed::from_int(2000).mul(Fixed::from_ratio(1, 60)).raw(), 33_332_000);
}

#[test]
fn quotients_round_towards_zero() {
    let one = Fixed::one();
    let three = Fixed::from_int(3);
    assert_eq!(one.div(three).raw(), 333_333);
    assert_eq!(one.neg().div(three).raw(), -333_333);
    assert_eq!(Fixed::from_int(10).div(Fixed::from_int(4)).raw(), 2_500_000);
}

#[test]
fn halves_round_towards_zero() {
    assert_eq!(Fixed::from_raw(7).half().raw(), 3);
    assert_eq!(Fixed::from_raw(-7).half().raw(), -3);
    assert_eq!(Fixed::from_int(450).half().raw(), 225_000_000);
}

#[test]
fn whole_part_rounds_towards_zero() {
    assert_eq!(Fixed::from_raw(2_999_999).trunc(), 2);
    assert_eq!(Fixed::from_raw(-2_999_999).trunc(), -2);
}

#[test]
fn min_max_and_order() {
    let a = Fixed::from_int(1);
    let b = Fixed::from_int(2);
    assert_eq!(a.min(b), a);
    assert_eq!(a.max(b), b);
    assert!(a.lt(b));
    assert!(!b.lt(a));
    assert!(b.gt(a));
    assert!(!a.gt(a));
}

#[test]
fn clamp_tests_the_lower_bound_first() {
    let lo = Fixed::from_int(0);
    let hi = Fixed::from_int(10);
    assert_eq!(Fixed::from_int(-5).clamp(lo, hi), lo);
    assert_eq!(Fixed::from_int(15).clamp(lo, hi), hi);
    assert_eq!(Fixed::from_int(5).clamp(lo, hi), Fixed::from_int(5));
    // an empty range: below the lower bound gives the lower bound, all else the upper
    assert_eq!(Fixed::from_int(-5).clamp(hi, lo), hi);
    assert_eq!(Fixed::from_int(20).clamp(hi, lo), lo);
}

#[test]
fn integer_square_roots() {
    assert_eq!(isqrt(0), 0);
    assert_eq!(isqrt(1), 1);
    assert_eq!(isqrt(3), 1);
    assert_eq!(isqrt(4), 2);
    assert_eq!(isqrt(10), 3);
    assert_eq!(isqrt(99), 9);
    assert_eq!(isqrt(100), 10);
    assert_eq!(isqrt(1_000_000_000_000), 1_000_000);
    assert_eq!(isqrt(u128::MAX), u64::MAX);
}
