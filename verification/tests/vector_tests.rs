use pong50th::fixed::Fixed;
use pong50th::floathelper::FloatHelper;
use pong50th::serve::{direction_from_draws, get_random_direction, SERVE_SPREAD};
use pong50th::vectorhelper::{Vector2, Vector2Ext};

fn px(x: i32, y: i32) -> Vector2 {
    Vector2::from_ints(x, y)
}

fn raw(x: i64, y: i64) -> Vector2 {
    Vector2::new(Fixed::from_raw(x), Fixed::from_raw(y))
}

#[test]
fn vectors_add_and_subtract_by_component() {
    assert_eq!(px(3, 4).add(px(-1, 10)), px(2, 14));
    assert_eq!(px(3, 4).sub(px(-1, 10)), px(4, -6));
    assert_eq!(raw(1, 2).add(raw(3, 4)), raw(4, 6));
}

#[test]
fn vectors_scale_by_a_fixed_point_factor() {
    assert_eq!(px(3, -4).scale_by(Fixed::from_raw(500_000)), raw(1_500_000, -2_000_000));
    assert_eq!(raw(1, -1).scale_by(Fixed::from_raw(500_000)), raw(0, 0));
    assert_eq!(px(3, -4).scale_by(Fixed::from_int(-2)), px(-6, 8));
}

#[test]
fn dot_product_rounds_each_product() {
    assert_eq!(px(3, 4).dot(px(2, -1)), Fixed::from_int(2));
    assert_eq!(raw(600_000, 800_000).dot(raw(600_000, 800_000)), Fixed::from_raw(1_000_000));
    assert_eq!(raw(1, 1).dot(raw(999_999, 999_999)), Fixed::from_raw(0));
}

#[test]
fn length_is_the_rounded_down_root() {
    assert_eq!(px(3, 4).length_raw(), 5_000_000);
    assert_eq!(px(0, 0).length_raw(), 0);
    assert_eq!(raw(1, 1).length_raw(), 1);
    assert_eq!(px(1, 1).length_raw(), 1_414_213);
    assert_eq!(raw(i64::MIN, i64::MIN).length_raw(), 13_043_817_825_332_782_212);
}

#[test]
fn normalized_vectors_have_length_one() {
    assert_eq!(px(3, 4).normalized(), raw(600_000, 800_000));
    assert_eq!(px(-3, 4).normalized(), raw(-600_000, 800_000));
    assert_eq!(px(5, -40).normalized(), raw(124_034, -992_277));
    assert_eq!(px(0, -7).normalized(), raw(0, -1_000_000));
    assert_eq!(raw(i64::MAX, 0).normalized(), raw(1_000_000, 0));
}

#[test]
fn normalized_zero_vector_stays_zero() {
    assert_eq!(px(0, 0).normalized(), px(0, 0));
}

#[test]
fn reflection_mirrors_about_the_normal() {
    // off a floor with normal (0, 1): the vertical component turns
    assert_eq!(px(1, -1).reflect(&px(0, 1)), px(1, 1));
    // straight into a slanted wall: straight back
    assert_eq!(px(3, 4).reflect(&raw(600_000, 800_000)), px(-3, -4));
    // along the wall: unchanged
    assert_eq!(px(5, 0).reflect(&px(0, 1)), px(5, 0));
}

#[test]
fn named_directions() {
    assert_eq!(Vector2::up(), px(0, -1));
    assert_eq!(Vector2::down(), px(0, 1));
    assert_eq!(Vector2::left(), px(-1, 0));
    assert_eq!(Vector2::right(), px(1, 0));
    assert_eq!(<Vector2 as Vector2Ext>::zero(), px(0, 0));
    assert_eq!(<Vector2 as Vector2Ext>::one(), px(1, 1));
}

#[test]
fn serves_follow_the_rational_parametrisation() {
    assert_eq!(direction_from_draws(0, false, false), raw(1_000_000, 0));
    assert_eq!(direction_from_draws(1, false, false), raw(999_999, 1));
    assert_eq!(direction_from_draws(100_000, false, false), raw(980_198, 198_019));
    assert_eq!(direction_from_draws(250_000, true, false), raw(-882_352, 470_588));
    assert_eq!(direction_from_draws(414_212, false, true), raw(707_108, -707_104));
    assert_eq!(direction_from_draws(414_212, true, true), raw(-707_108, -707_104));
}

#[test]
fn every_tenth_thousandth_serve_lies_in_the_cone() {
    let mut t = 0;
    while t < SERVE_SPREAD {
        let d = direction_from_draws(t, false, false);
        let (x, y) = (d.x.raw() as i128, d.y.raw() as i128);
        assert!(0 < x && x <= 1_000_000);
        assert!(0 <= y && y <= x);
        // length one up to the rounding of the two components
        let square = x * x + y * y;
        assert!(square <= 1_000_000_000_000);
        assert!(square >= 1_000_000_000_000 - 3_000_000);
        t += 10_000;
    }
}

#[test]
fn random_serves_vary_and_stay_in_the_cone() {
    let mut seen_left = false;
    let mut seen_right = false;
    let mut seen_up = false;
    let mut seen_down = false;
    let mut steep = false;
    let mut flat = false;
    for _ in 0..1000 {
        let d = get_random_direction();
        let (x, y) = (d.x.raw(), d.y.raw());
        assert!(x != 0);
        assert!(707_106 <= x.abs() && x.abs() <= 1_000_000);
        assert!(y.abs() <= x.abs());
        seen_left |= x < 0;
        seen_right |= x > 0;
        seen_up |= y < 0;
        seen_down |= y > 0;
        steep |= y.abs() > 400_000;
        flat |= y.abs() < 400_000;
    }
    assert!(seen_left && seen_right && seen_up && seen_down && steep && flat);
}

#[test]
fn rescaling_to_the_unit_interval() {
    let zero = Fixed::from_int(0);
    let ten = Fixed::from_int(10);
    assert_eq!(Fixed::from_int(5).normalize(zero, ten), Fixed::from_raw(500_000));
    assert_eq!(zero.normalize(zero, ten), Fixed::from_int(0));
    assert_eq!(ten.normalize(zero, ten), Fixed::from_int(1));
    assert_eq!(Fixed::from_int(15).normalize(zero, ten), Fixed::from_raw(1_500_000));
    assert_eq!(Fixed::from_int(-5).normalize(zero, ten), Fixed::from_raw(-500_000));
    assert_eq!(Fixed::from_int(1).normalize(zero, Fixed::from_int(3)), Fixed::from_raw(333_333));
    assert_eq!(Fixed::from_int(-1).normalize(zero, Fixed::from_int(3)), Fixed::from_raw(-333_333));
    assert_eq!(Fixed::from_int(7).normalize(Fixed::from_int(5), Fixed::from_int(9)), Fixed::from_raw(500_000));
}

#[test]
fn rescaling_with_the_bounds_in_reverse() {
    let zero = Fixed::from_int(0);
    let ten = Fixed::from_int(10);
    assert_eq!(zero.normalize(ten, zero), Fixed::from_int(1));
    assert_eq!(ten.normalize(ten, zero), Fixed::from_int(0));
    assert_eq!(Fixed::from_raw(2_500_000).normalize(ten, zero), Fixed::from_raw(750_000));
}
