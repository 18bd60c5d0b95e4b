//! Two-dimensional vectors over fixed-point components.

use crate::fixed::{
    fits_i64, floor_sqrt, is_floor_sqrt, isqrt, lemma_floor_sqrt_exists,
    lemma_trunc_div_bounds, lemma_trunc_div_monotonic, trunc_div, Fixed, SCALE,
};
use vstd::prelude::*;

verus! {

/// A point or displacement of the plane with integer components (millionths).
pub struct Vec2 {
    pub x: int,
    pub y: int,
}

/// Componentwise sum.
pub open spec fn vec_add(a: Vec2, b: Vec2) -> Vec2 {
    Vec2 { x: a.x + b.x, y: a.y + b.y }
}

/// Componentwise difference.
pub open spec fn vec_sub(a: Vec2, b: Vec2) -> Vec2 {
    Vec2 { x: a.x - b.x, y: a.y - b.y }
}

/// `v` with both components multiplied by the fixed-point factor `k`.
pub open spec fn vec_scale(v: Vec2, k: int) -> Vec2 {
    Vec2 { x: trunc_div(v.x * k, SCALE as int), y: trunc_div(v.y * k, SCALE as int) }
}

/// Dot product as a fixed-point number; each product is rounded on its own.
pub open spec fn vec_dot(a: Vec2, b: Vec2) -> int {
    trunc_div(a.x * b.x, SCALE as int) + trunc_div(a.y * b.y, SCALE as int)
}

/// Euclidean length, rounded down to a millionth.
pub open spec fn vec_length(v: Vec2) -> int {
    floor_sqrt(v.x * v.x + v.y * v.y)
}

/// `v` divided by its length; the zero vector stays zero.
pub open spec fn vec_normalized(v: Vec2) -> Vec2 {
    let len = vec_length(v);
    if len == 0 {
        v
    } else {
        Vec2 { x: trunc_div(v.x * SCALE, len), y: trunc_div(v.y * SCALE, len) }
    }
}

/// `v` mirrored about the line whose normal is `n`: `v - 2 (v . n) n`.
pub open spec fn vec_reflect(v: Vec2, n: Vec2) -> Vec2 {
    vec_sub(v, vec_scale(n, 2 * vec_dot(v, n)))
}

/// Both components can be held in an `i64`.
pub open spec fn vec_fits(v: Vec2) -> bool {
    fits_i64(v.x) && fits_i64(v.y)
}

/// Every intermediate value of [`vec_dot`] can be held in an `i64`.
pub open spec fn dot_fits(a: Vec2, b: Vec2) -> bool {
    &&& fits_i64(trunc_div(a.x * b.x, SCALE as int))
    &&& fits_i64(trunc_div(a.y * b.y, SCALE as int))
    &&& fits_i64(vec_dot(a, b))
}

/// Every intermediate value of [`vec_reflect`] can be held in an `i64`.
pub open spec fn reflect_fits(v: Vec2, n: Vec2) -> bool {
    &&& dot_fits(v, n)
    &&& fits_i64(2 * vec_dot(v, n))
    &&& vec_fits(vec_scale(n, 2 * vec_dot(v, n)))
    &&& vec_fits(vec_reflect(v, n))
}

/// The length of a vector is zero only for the zero vector, and no component
/// exceeds it in magnitude.
pub proof fn lemma_length_dominates(v: Vec2, len: int)
    requires
        is_floor_sqrt(v.x * v.x + v.y * v.y, len),
    ensures
        -len <= v.x <= len,
        -len <= v.y <= len,
        len == 0 <==> (v.x == 0 && v.y == 0),
{
    let x = v.x;
    let y = v.y;
    let n = x * x + y * y;
    assert(x * x >= 0 && y * y >= 0) by (nonlinear_arith);
    assert(x != 0 ==> x * x >= 1) by (nonlinear_arith);
    assert(y != 0 ==> y * y >= 1) by (nonlinear_arith);
    assert(len > 0 ==> len * len >= 1) by (nonlinear_arith);
    assert(len == 0 ==> (len + 1) * (len + 1) == 1) by (nonlinear_arith);
    assert(x == 0 ==> x * x == 0) by (nonlinear_arith);
    assert(y == 0 ==> y * y == 0) by (nonlinear_arith);
    if x > len {
        assert(x * x >= (len + 1) * (len + 1)) by (nonlinear_arith)
            requires
                x >= len + 1,
                len >= 0,
        ;
    }
    if x < -len {
        assert(x * x >= (len + 1) * (len + 1)) by (nonlinear_arith)
            requires
                -x >= len + 1,
                len >= 0,
        ;
    }
    if y > len {
        assert(y * y >= (len + 1) * (len + 1)) by (nonlinear_arith)
            requires
                y >= len + 1,
                len >= 0,
        ;
    }
    if y < -len {
        assert(y * y >= (len + 1) * (len + 1)) by (nonlinear_arith)
            requires
                -y >= len + 1,
                len >= 0,
        ;
    }
}

/// A component divided by a length that dominates it lies in `[-1, 1]`.
proof fn lemma_unit_component(c: int, len: int)
    requires
        len > 0,
        -len <= c <= len,
    ensures
        -SCALE <= trunc_div(c * SCALE, len) <= SCALE,
        c >= 0 ==> trunc_div(c * SCALE, len) >= 0,
        c <= 0 ==> trunc_div(c * SCALE, len) <= 0,
{
    let s = SCALE as int;
    lemma_trunc_div_bounds(c * s, len);
    lemma_trunc_div_monotonic(c * s, len * s, len);
    lemma_trunc_div_monotonic(-(len * s), c * s, len);
    assert(trunc_div(len * s, len) == s) by (nonlinear_arith)
        requires
            len > 0,
            s > 0,
    ;
    assert(trunc_div(-(len * s), len) == -s) by (nonlinear_arith)
        requires
            len > 0,
            s > 0,
    ;
}

/// No component of a normalized vector exceeds one in magnitude, and each
/// keeps the sign of the component it came from.
pub proof fn lemma_normalized_bounds(v: Vec2)
    ensures
        -SCALE <= vec_normalized(v).x <= SCALE,
        -SCALE <= vec_normalized(v).y <= SCALE,
        v.x >= 0 ==> vec_normalized(v).x >= 0,
        v.x <= 0 ==> vec_normalized(v).x <= 0,
        v.y >= 0 ==> vec_normalized(v).y >= 0,
        v.y <= 0 ==> vec_normalized(v).y <= 0,
{
    let n = v.x * v.x + v.y * v.y;
    assert(n >= 0) by (nonlinear_arith)
        requires
            n == v.x * v.x + v.y * v.y,
    ;
    lemma_floor_sqrt_exists(n);
    let len = vec_length(v);
    lemma_length_dominates(v, len);
    if len != 0 {
        lemma_unit_component(v.x, len);
        lemma_unit_component(v.y, len);
    }
}

/// A vector with fixed-point components.
#[derive(Clone, Copy, Debug, PartialEq, Eq, Structural)]
pub struct Vector2 {
    pub x: Fixed,
    pub y: Fixed,
}

impl View for Vector2 {
    type V = Vec2;

    open spec fn view(&self) -> Vec2 {
        Vec2 { x: self.x@, y: self.y@ }
    }
}

impl Vector2 {
    /// The vector with the given components.
    pub fn new(x: Fixed, y: Fixed) -> (r: Vector2)
        ensures
            r@ == (Vec2 { x: x@, y: y@ }),
    {
        Vector2 { x, y }
    }

    /// The vector with the given whole-number components.
    pub fn from_ints(x: i32, y: i32) -> (r: Vector2)
        ensures
            r@ == (Vec2 { x: x * SCALE, y: y * SCALE }),
    {
        Vector2 { x: Fixed::from_int(x), y: Fixed::from_int(y) }
    }

    /// Componentwise sum.
    pub fn add(self, v: Vector2) -> (r: Vector2)
        requires
            vec_fits(vec_add(self@, v@)),
        ensures
            r@ == vec_add(self@, v@),
    {
        Vector2 { x: self.x.add(v.x), y: self.y.add(v.y) }
    }

    /// Componentwise difference.
    pub fn sub(self, v: Vector2) -> (r: Vector2)
        requires
            vec_fits(vec_sub(self@, v@)),
        ensures
            r@ == vec_sub(self@, v@),
    {
        Vector2 { x: self.x.sub(v.x), y: self.y.sub(v.y) }
    }

    /// Both components multiplied by `scale`.
    pub fn scale_by(self, scale: Fixed) -> (r: Vector2)
        requires
            vec_fits(vec_scale(self@, scale@)),
        ensures
            r@ == vec_scale(self@, scale@),
    {
        Vector2 { x: self.x.mul(scale), y: self.y.mul(scale) }
    }

    /// Dot product with `v`.
    pub fn dot(self, v: Vector2) -> (r: Fixed)
        requires
            dot_fits(self@, v@),
        ensures
            r@ == vec_dot(self@, v@),
    {
        self.x.mul(v.x).add(self.y.mul(v.y))
    }

    /// Euclidean length, rounded down. The length of any vector with `i64`
    /// components fits 64 unsigned bits, but not always a [`Fixed`].
    pub fn length_raw(self) -> (r: u64)
        ensures
            r as int == vec_length(self@),
            is_floor_sqrt(self@.x * self@.x + self@.y * self@.y, r as int),
    {
        let x: i64 = self.x.raw;
        let y: i64 = self.y.raw;
        assert(0 <= x * x <= 0x8000_0000_0000_0000 * 0x8000_0000_0000_0000) by (nonlinear_arith)
            requires
                -0x8000_0000_0000_0000 <= x <= 0x7fff_ffff_ffff_ffff,
        ;
        assert(0 <= y * y <= 0x8000_0000_0000_0000 * 0x8000_0000_0000_0000) by (nonlinear_arith)
            requires
                -0x8000_0000_0000_0000 <= y <= 0x7fff_ffff_ffff_ffff,
        ;
        let xx: i128 = (x as i128) * (x as i128);
        let yy: i128 = (y as i128) * (y as i128);
        let sum: u128 = (xx as u128) + (yy as u128);
        isqrt(sum)
    }

    /// The vector of length one in the direction of `self`; the zero vector
    /// is returned unchanged.
    pub fn normalized(self) -> (r: Vector2)
        ensures
            r@ == vec_normalized(self@),
            -SCALE <= r@.x <= SCALE,
            -SCALE <= r@.y <= SCALE,
    {
        let len: u64 = self.length_raw();
        proof {
            lemma_length_dominates(self@, len as int);
        }
        if len == 0 {
            return self;
        }
        proof {
            lemma_unit_component(self@.x, len as int);
            lemma_unit_component(self@.y, len as int);
        }
        let nx: i128 = ((self.x.raw as i128) * (SCALE as i128)) / (len as i128);
        let ny: i128 = ((self.y.raw as i128) * (SCALE as i128)) / (len as i128);
        Vector2 { x: Fixed { raw: nx as i64 }, y: Fixed { raw: ny as i64 } }
    }
}

/// Reflection and the named unit directions. Screen coordinates: `y` grows
/// downwards, so "up" is the negative `y` direction.
pub trait Vector2Ext: Sized {
    /// The vector this value stands for.
    spec fn as_vec2(&self) -> Vec2;

    /// `self` mirrored about the line whose normal is `normal`.
    fn reflect(&self, normal: &Vector2) -> (r: Vector2)
        requires
            reflect_fits(self.as_vec2(), normal@),
        ensures
            r@ == vec_reflect(self.as_vec2(), normal@),
    ;

    /// `(0, -1)`.
    fn up() -> (r: Vector2)
        ensures
            r@ == (Vec2 { x: 0, y: -(SCALE as int) }),
    ;

    /// `(0, 1)`.
    fn down() -> (r: Vector2)
        ensures
            r@ == (Vec2 { x: 0, y: SCALE as int }),
    ;

    /// `(-1, 0)`.
    fn left() -> (r: Vector2)
        ensures
            r@ == (Vec2 { x: -(SCALE as int), y: 0 }),
    ;

    /// `(1, 0)`.
    fn right() -> (r: Vector2)
        ensures
            r@ == (Vec2 { x: SCALE as int, y: 0 }),
    ;

    /// `(0, 0)`.
    fn zero() -> (r: Vector2)
        ensures
            r@ == (Vec2 { x: 0, y: 0 }),
    ;

    /// `(1, 1)`.
    fn one() -> (r: Vector2)
        ensures
            r@ == (Vec2 { x: SCALE as int, y: SCALE as int }),
    ;
}

impl Vector2Ext for Vector2 {
    open spec fn as_vec2(&self) -> Vec2 {
        self@
    }

    fn reflect(&self, normal: &Vector2) -> (r: Vector2) {
        let dot: Fixed = self.dot(*normal);
        let twice: Fixed = dot.add(dot);
        let step: Vector2 = normal.scale_by(twice);
        self.sub(step)
    }

    fn up() -> (r: Vector2) {
        Vector2 { x: Fixed { raw: 0 }, y: Fixed { raw: -SCALE } }
    }

    fn down() -> (r: Vector2) {
        Vector2 { x: Fixed { raw: 0 }, y: Fixed { raw: SCALE } }
    }

    fn left() -> (r: Vector2) {
        Vector2 { x: Fixed { raw: -SCALE }, y: Fixed { raw: 0 } }
    }

    fn right() -> (r: Vector2) {
        Vector2 { x: Fixed { raw: SCALE }, y: Fixed { raw: 0 } }
    }

    fn zero() -> (r: Vector2) {
        Vector2 { x: Fixed { raw: 0 }, y: Fixed { raw: 0 } }
    }

    fn one() -> (r: Vector2) {
        Vector2 { x: Fixed { raw: SCALE }, y: Fixed { raw: SCALE } }
    }
}

} // verus!
