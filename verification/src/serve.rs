//! The direction in which the ball is served after a point.
//!
//! A serve leaves the centre of the field within 45 degrees of the horizontal
//! axis, towards either side and either up or down. The direction is the point
//! of the unit circle at the angle `2 atan(t)`, for a tangent parameter `t`
//! drawn below `sqrt(2) - 1`: the rational parametrisation
//! `((1 - t^2) / (1 + t^2), 2t / (1 + t^2))` needs no trigonometry, and both
//! components are rounded down to a millionth.

use crate::fixed::{Fixed, SCALE};
use crate::vectorhelper::{Vec2, Vector2};
use rand::Rng;
use vstd::prelude::*;

verus! {

/// Number of tangent parameters to draw from: the millionths below `sqrt(2) - 1`.
pub const SERVE_SPREAD: u32 = 414_213;

/// Horizontal component for the tangent parameter `t` (in millionths).
pub open spec fn serve_x(t: int) -> int {
    ((SCALE * SCALE - t * t) * SCALE) / (SCALE * SCALE + t * t)
}

/// Vertical component for the tangent parameter `t` (in millionths).
pub open spec fn serve_y(t: int) -> int {
    (2 * t * SCALE * SCALE) / (SCALE * SCALE + t * t)
}

/// The serve for the tangent parameter `t`, mirrored to the left where
/// `flip_x` is set and upwards where `flip_y` is set.
pub open spec fn serve_direction(t: int, flip_x: bool, flip_y: bool) -> Vec2 {
    Vec2 {
        x: if flip_x { -serve_x(t) } else { serve_x(t) },
        y: if flip_y { -serve_y(t) } else { serve_y(t) },
    }
}

/// `d` is one of the directions that a serve can take.
pub open spec fn is_serve_direction(d: Vec2) -> bool {
    exists|t: int, flip_x: bool, flip_y: bool|
        0 <= t < SERVE_SPREAD && d == #[trigger] serve_direction(t, flip_x, flip_y)
}

/// `d` lies within 45 degrees of the horizontal axis, is not vertical, and
/// neither component exceeds one in magnitude.
pub open spec fn in_serve_cone(d: Vec2) -> bool {
    &&& d.x != 0
    &&& -SCALE <= d.x <= SCALE
    &&& if d.x > 0 { -d.x <= d.y <= d.x } else { d.x <= d.y <= -d.x }
}

/// Every serve lies in the cone: for each tangent parameter below the spread
/// the horizontal component is positive and at most one, and the vertical
/// component lies between zero and the horizontal one.
pub proof fn lemma_serve_components(t: int)
    requires
        0 <= t < SERVE_SPREAD,
    ensures
        0 < serve_x(t) <= SCALE,
        0 <= serve_y(t) <= serve_x(t),
{
    let s = SCALE as int;
    let den = s * s + t * t;
    let num_x = (s * s - t * t) * s;
    let num_y = 2 * t * s * s;
    assert(0 <= t * t <= 414_212 * 414_212) by (nonlinear_arith)
        requires
            0 <= t <= 414_212,
    ;
    assert(s * s == 1_000_000_000_000) by (nonlinear_arith)
        requires
            s == 1_000_000,
    ;
    assert(den > 0);
    assert(num_x >= den) by (nonlinear_arith)
        requires
            num_x == (s * s - t * t) * s,
            den == s * s + t * t,
            s == 1_000_000,
            0 <= t * t <= 414_212 * 414_212,
    ;
    assert(num_x <= s * den) by (nonlinear_arith)
        requires
            num_x == (s * s - t * t) * s,
            den == s * s + t * t,
            s == 1_000_000,
            0 <= t * t,
    ;
    assert(0 <= num_y <= num_x) by (nonlinear_arith)
        requires
            num_x == (s * s - t * t) * s,
            num_y == 2 * t * s * s,
            s == 1_000_000,
            0 <= t <= 414_212,
    ;
    assert(num_x / den >= 1 && num_x / den <= s && 0 <= num_y / den <= num_x / den)
        by (nonlinear_arith)
        requires
            den > 0,
            den <= num_x <= s * den,
            0 <= num_y <= num_x,
    ;
}

/// Every serve has length one up to the rounding of its two components: the
/// square of its length is at most one and misses one by less than
/// `4 * SCALE + 2` raw units of the square.
pub proof fn lemma_serve_unit_length(t: int)
    requires
        0 <= t < SERVE_SPREAD,
    ensures
        SCALE * SCALE - 4 * SCALE - 2 < serve_x(t) * serve_x(t) + serve_y(t) * serve_y(t)
            <= SCALE * SCALE,
{
    let s = SCALE as int;
    let d = s * s + t * t;
    let a = (s * s - t * t) * s;
    let b = 2 * t * s * s;
    let x = serve_x(t);
    let y = serve_y(t);
    lemma_serve_components(t);
    assert(d > 0) by (nonlinear_arith)
        requires
            d == s * s + t * t,
            s == 1_000_000,
    ;
    assert(a >= 0 && b >= 0) by (nonlinear_arith)
        requires
            a == (s * s - t * t) * s,
            b == 2 * t * s * s,
            s == 1_000_000,
            0 <= t <= 414_212,
    ;
    // the exact point lies on the circle of radius one
    assert(a * a + b * b == (s * d) * (s * d)) by (nonlinear_arith)
        requires
            a == (s * s - t * t) * s,
            b == 2 * t * s * s,
            d == s * s + t * t,
    ;
    // both components are rounded down
    assert(d * x <= a < d * (x + 1)) by (nonlinear_arith)
        requires
            x == a / d,
            d > 0,
    ;
    assert(d * y <= b < d * (y + 1)) by (nonlinear_arith)
        requires
            y == b / d,
            d > 0,
    ;
    assert((d * x) * (d * x) <= a * a) by (nonlinear_arith)
        requires
            0 <= d * x <= a,
    ;
    assert((d * y) * (d * y) <= b * b) by (nonlinear_arith)
        requires
            0 <= d * y <= b,
    ;
    assert(a * a < (d * (x + 1)) * (d * (x + 1))) by (nonlinear_arith)
        requires
            0 <= a < d * (x + 1),
    ;
    assert(b * b < (d * (y + 1)) * (d * (y + 1))) by (nonlinear_arith)
        requires
            0 <= b < d * (y + 1),
    ;
    let low = x * x + y * y;
    let high = (x + 1) * (x + 1) + (y + 1) * (y + 1);
    assert((d * d) * low <= (d * d) * (s * s)) by (nonlinear_arith)
        requires
            (d * x) * (d * x) + (d * y) * (d * y) <= (s * d) * (s * d),
            low == x * x + y * y,
    ;
    assert((d * d) * (s * s) < (d * d) * high) by (nonlinear_arith)
        requires
            (s * d) * (s * d) < (d * (x + 1)) * (d * (x + 1)) + (d * (y + 1)) * (d * (y + 1)),
            high == (x + 1) * (x + 1) + (y + 1) * (y + 1),
    ;
    assert(low <= s * s && s * s < high) by (nonlinear_arith)
        requires
            (d * d) * low <= (d * d) * (s * s),
            (d * d) * (s * s) < (d * d) * high,
            d > 0,
    ;
    assert(high == low + 2 * (x + y) + 2) by (nonlinear_arith)
        requires
            low == x * x + y * y,
            high == (x + 1) * (x + 1) + (y + 1) * (y + 1),
    ;
}

/// Every direction that a serve can take lies in the cone.
pub proof fn lemma_serve_in_cone(d: Vec2)
    requires
        is_serve_direction(d),
    ensures
        in_serve_cone(d),
{
    let (t, flip_x, flip_y) = choose|t: int, flip_x: bool, flip_y: bool|
        0 <= t < SERVE_SPREAD && d == #[trigger] serve_direction(t, flip_x, flip_y);
    lemma_serve_components(t);
}

/// Every direction that a serve can take has length one up to the rounding
/// of its two components, whichever way it is mirrored.
pub proof fn lemma_serve_is_unit(d: Vec2)
    requires
        is_serve_direction(d),
    ensures
        SCALE * SCALE - 4 * SCALE - 2 < d.x * d.x + d.y * d.y <= SCALE * SCALE,
{
    let (t, flip_x, flip_y) = choose|t: int, flip_x: bool, flip_y: bool|
        0 <= t < SERVE_SPREAD && d == #[trigger] serve_direction(t, flip_x, flip_y);
    lemma_serve_unit_length(t);
    let x = serve_x(t);
    let y = serve_y(t);
    assert((-x) * (-x) == x * x) by (nonlinear_arith);
    assert((-y) * (-y) == y * y) by (nonlinear_arith);
}

/// The serve for the draws `t`, `flip_x` and `flip_y`.
pub fn direction_from_draws(t: u32, flip_x: bool, flip_y: bool) -> (d: Vector2)
    requires
        t < SERVE_SPREAD,
    ensures
        d@ == serve_direction(t as int, flip_x, flip_y),
        is_serve_direction(d@),
        in_serve_cone(d@),
{
    let tt: i64 = t as i64;
    assert(0 <= tt * tt <= 414_212 * 414_212) by (nonlinear_arith)
        requires
            0 <= tt <= 414_212,
    ;
    assert(SCALE * SCALE == 1_000_000_000_000) by (nonlinear_arith);
    let square: i64 = tt * tt;
    let unit: i64 = SCALE * SCALE;
    let den: i64 = unit + square;
    assert(0 <= (unit - square) * SCALE <= 1_000_000_000_000 * 1_000_000) by (nonlinear_arith)
        requires
            0 <= square <= unit,
            unit == 1_000_000_000_000,
    ;
    assert(0 <= 2 * tt * SCALE * SCALE <= 2 * 414_212 * 1_000_000 * 1_000_000)
        by (nonlinear_arith)
        requires
            0 <= tt <= 414_212,
    ;
    let x: i64 = ((unit - square) * SCALE) / den;
    let y: i64 = (2 * tt * SCALE * SCALE) / den;
    proof {
        lemma_serve_components(t as int);
    }
    let d = Vector2 {
        x: Fixed { raw: if flip_x { -x } else { x } },
        y: Fixed { raw: if flip_y { -y } else { y } },
    };
    assert(d@ == serve_direction(t as int, flip_x, flip_y));
    d
}

/// A number drawn at random below `bound`, by `rand::Rng::gen_range` on the
/// generator of the calling thread (`rand::thread_rng`). Of the number only
/// its range is claimed: `gen_range(0..bound)` returns a value of the
/// half-open range, and refuses an empty one, which `bound > 0` excludes.
#[verifier::external_body]
fn random_below(bound: u32) -> (r: u32)
    requires
        bound > 0,
    ensures
        r < bound,
{
    rand::thread_rng().gen_range(0..bound)
}

/// A serve drawn at random: a tangent parameter below the spread and one
/// even-odds draw per axis for its sign.
pub fn get_random_direction() -> (d: Vector2)
    ensures
        is_serve_direction(d@),
        in_serve_cone(d@),
{
    let t: u32 = random_below(SERVE_SPREAD);
    let flip_x: bool = random_below(2) == 0;
    let flip_y: bool = random_below(2) == 0;
    direction_from_draws(t, flip_x, flip_y)
}

} // verus!
