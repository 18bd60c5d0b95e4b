//! Fixed-point scalars.
//!
//! Every physical quantity of the game (pixels, seconds, speeds, unit-less
//! direction components) is a [`Fixed`]: a signed 64-bit count of millionths.
//! All operations are exact integer arithmetic with one documented rounding
//! (towards zero) where a quotient is taken, so that every result can be
//! stated as a formula over mathematical integers.

use vstd::prelude::*;

verus! {

/// Number of raw units in one whole unit.
pub const SCALE: i64 = 1_000_000;

/// Quotient of `a` by `b`, rounded towards zero, for every `b` but zero.
pub open spec fn trunc_div(a: int, b: int) -> int {
    if b > 0 {
        if a >= 0 {
            a / b
        } else {
            -((-a) / b)
        }
    } else {
        if a >= 0 {
            -(a / (-b))
        } else {
            (-a) / (-b)
        }
    }
}

/// `x` can be held in an `i64`.
pub open spec fn fits_i64(x: int) -> bool {
    i64::MIN <= x <= i64::MAX
}

/// `r` is the integer square root of `n`: the largest `r >= 0` with `r * r <= n`.
pub open spec fn is_floor_sqrt(n: int, r: int) -> bool {
    0 <= r && r * r <= n && n < (r + 1) * (r + 1)
}

/// The integer square root of a non-negative `n`.
pub open spec fn floor_sqrt(n: int) -> int {
    choose|r: int| is_floor_sqrt(n, r)
}

/// At most one integer is the integer square root of `n`.
pub proof fn lemma_floor_sqrt_unique(n: int, r1: int, r2: int)
    requires
        is_floor_sqrt(n, r1),
        is_floor_sqrt(n, r2),
    ensures
        r1 == r2,
{
    if r1 < r2 {
        assert((r1 + 1) * (r1 + 1) <= r2 * r2) by (nonlinear_arith)
            requires
                0 <= r1,
                r1 + 1 <= r2,
        ;
    } else if r2 < r1 {
        assert((r2 + 1) * (r2 + 1) <= r1 * r1) by (nonlinear_arith)
            requires
                0 <= r2,
                r2 + 1 <= r1,
        ;
    }
}

/// Whatever satisfies [`is_floor_sqrt`] is [`floor_sqrt`].
pub proof fn lemma_floor_sqrt_is(n: int, r: int)
    requires
        is_floor_sqrt(n, r),
    ensures
        floor_sqrt(n) == r,
{
    lemma_floor_sqrt_unique(n, r, floor_sqrt(n));
}

/// Every number that is not negative has an integer square root.
pub proof fn lemma_floor_sqrt_exists(n: int)
    requires
        n >= 0,
    ensures
        is_floor_sqrt(n, floor_sqrt(n)),
    decreases n,
{
    if n == 0 {
        assert(is_floor_sqrt(0, 0)) by (nonlinear_arith);
    } else {
        lemma_floor_sqrt_exists(n - 1);
        let r = floor_sqrt(n - 1);
        if n < (r + 1) * (r + 1) {
            assert(is_floor_sqrt(n, r));
        } else {
            assert((r + 1) * (r + 1) < (r + 2) * (r + 2)) by (nonlinear_arith)
                requires
                    r >= 0,
            ;
            assert(is_floor_sqrt(n, r + 1));
        }
    }
}

/// `trunc_div` never grows the magnitude of its dividend and keeps its sign.
pub proof fn lemma_trunc_div_bounds(a: int, b: int)
    requires
        b > 0,
    ensures
        a >= 0 ==> 0 <= trunc_div(a, b) <= a,
        a <= 0 ==> a <= trunc_div(a, b) <= 0,
        trunc_div(-a, b) == -trunc_div(a, b),
{
    if a >= 0 {
        assert(0 <= a / b <= a) by (nonlinear_arith)
            requires
                a >= 0,
                b > 0,
        ;
    }
    if a <= 0 {
        let m = -a;
        assert(0 <= m / b <= m) by (nonlinear_arith)
            requires
                m >= 0,
                b > 0,
        ;
    }
}

/// `trunc_div` is monotonic in its dividend.
pub proof fn lemma_trunc_div_monotonic(a1: int, a2: int, b: int)
    requires
        b > 0,
        a1 <= a2,
    ensures
        trunc_div(a1, b) <= trunc_div(a2, b),
{
    lemma_trunc_div_bounds(a1, b);
    lemma_trunc_div_bounds(a2, b);
    if a1 >= 0 {
        assert(a1 / b <= a2 / b) by (nonlinear_arith)
            requires
                0 <= a1 <= a2,
                b > 0,
        ;
    } else if a2 <= 0 {
        let m1 = -a1;
        let m2 = -a2;
        assert(m2 / b <= m1 / b) by (nonlinear_arith)
            requires
                0 <= m2 <= m1,
                b > 0,
        ;
    }
}

/// Integer square root by bisection.
pub fn isqrt(n: u128) -> (r: u64)
    ensures
        is_floor_sqrt(n as int, r as int),
        r as int == floor_sqrt(n as int),
{
    let mut lo: u128 = 0;
    let mut hi: u128 = 0x1_0000_0000_0000_0000;
    assert(0x1_0000_0000_0000_0000int * 0x1_0000_0000_0000_0000int
        == 0x1_0000_0000_0000_0000_0000_0000_0000_0000int) by (nonlinear_arith);
    while hi - lo > 1
        invariant
            lo < hi <= 0x1_0000_0000_0000_0000,
            lo * lo <= n,
            n < hi * hi,
        decreases hi - lo,
    {
        let mid: u128 = lo + (hi - lo) / 2;
        assert(mid * mid <= 0xffff_ffff_ffff_ffff * 0xffff_ffff_ffff_ffff) by (nonlinear_arith)
            requires
                0 <= mid <= 0xffff_ffff_ffff_ffff,
        ;
        assert(0xffff_ffff_ffff_ffffint * 0xffff_ffff_ffff_ffffint < u128::MAX)
            by (nonlinear_arith);
        if mid * mid <= n {
            lo = mid;
        } else {
            hi = mid;
        }
    }
    proof {
        lemma_floor_sqrt_is(n as int, lo as int);
    }
    lo as u64
}

/// A fixed-point number: `raw` millionths.
#[derive(Clone, Copy, Debug, PartialEq, Eq, Structural)]
pub struct Fixed {
    pub raw: i64,
}

impl View for Fixed {
    type V = int;

    open spec fn view(&self) -> int {
        self.raw as int
    }
}

impl Fixed {
    /// The number zero.
    pub fn zero() -> (r: Fixed)
        ensures
            r@ == 0,
    {
        Fixed { raw: 0 }
    }

    /// The number one.
    pub fn one() -> (r: Fixed)
        ensures
            r@ == SCALE,
    {
        Fixed { raw: SCALE }
    }

    /// The number with the given raw count of millionths.
    pub fn from_raw(raw: i64) -> (r: Fixed)
        ensures
            r@ == raw,
    {
        Fixed { raw }
    }

    /// The whole number `n`.
    pub fn from_int(n: i32) -> (r: Fixed)
        ensures
            r@ == n * SCALE,
    {
        Fixed { raw: (n as i64) * SCALE }
    }

    /// The fraction `num / den`, rounded towards zero to a millionth.
    pub fn from_ratio(num: i32, den: i32) -> (r: Fixed)
        requires
            den != 0,
        ensures
            r@ == trunc_div(num * SCALE, den as int),
    {
        let scaled: i64 = (num as i64) * SCALE;
        if den > 0 {
            proof {
                lemma_trunc_div_bounds(scaled as int, den as int);
            }
            Fixed { raw: scaled / (den as i64) }
        } else {
            proof {
                lemma_trunc_div_bounds(-scaled as int, -den as int);
            }
            Fixed { raw: (-scaled) / (-(den as i64)) }
        }
    }

    /// The raw count of millionths.
    pub fn raw(self) -> (r: i64)
        ensures
            r == self@,
    {
        self.raw
    }

    /// The whole part, rounded towards zero.
    pub fn trunc(self) -> (r: i64)
        ensures
            r == trunc_div(self@, SCALE as int),
    {
        self.raw / SCALE
    }

    /// Sum.
    pub fn add(self, other: Fixed) -> (r: Fixed)
        requires
            fits_i64(self@ + other@),
        ensures
            r@ == self@ + other@,
    {
        Fixed { raw: self.raw + other.raw }
    }

    /// Difference.
    pub fn sub(self, other: Fixed) -> (r: Fixed)
        requires
            fits_i64(self@ - other@),
        ensures
            r@ == self@ - other@,
    {
        Fixed { raw: self.raw - other.raw }
    }

    /// Additive inverse.
    pub fn neg(self) -> (r: Fixed)
        requires
            self@ > i64::MIN,
        ensures
            r@ == -self@,
    {
        Fixed { raw: -self.raw }
    }

    /// Half, rounded towards zero.
    pub fn half(self) -> (r: Fixed)
        ensures
            r@ == trunc_div(self@, 2),
    {
        Fixed { raw: self.raw / 2 }
    }

    /// Product, rounded towards zero to a millionth.
    pub fn mul(self, other: Fixed) -> (r: Fixed)
        requires
            fits_i64(trunc_div(self@ * other@, SCALE as int)),
        ensures
            r@ == trunc_div(self@ * other@, SCALE as int),
    {
        let a: i64 = self.raw;
        let b: i64 = other.raw;
        assert(-0x8000_0000_0000_0000 * 0x8000_0000_0000_0000 <= a * b
            <= 0x8000_0000_0000_0000 * 0x8000_0000_0000_0000) by (nonlinear_arith)
            requires
                -0x8000_0000_0000_0000 <= a <= 0x7fff_ffff_ffff_ffff,
                -0x8000_0000_0000_0000 <= b <= 0x7fff_ffff_ffff_ffff,
        ;
        let product: i128 = (a as i128) * (b as i128);
        let quotient: i128 = product / (SCALE as i128);
        Fixed { raw: quotient as i64 }
    }

    /// Quotient, rounded towards zero to a millionth.
    pub fn div(self, other: Fixed) -> (r: Fixed)
        requires
            other@ != 0,
            fits_i64(trunc_div(self@ * SCALE, other@)),
        ensures
            r@ == trunc_div(self@ * SCALE, other@),
    {
        let scaled: i128 = (self.raw as i128) * (SCALE as i128);
        let divisor: i128 = other.raw as i128;
        let quotient: i128 = if divisor > 0 {
            scaled / divisor
        } else {
            (-scaled) / (-divisor)
        };
        Fixed { raw: quotient as i64 }
    }

    /// The smaller of two numbers.
    pub fn min(self, other: Fixed) -> (r: Fixed)
        ensures
            r@ == if self@ <= other@ { self@ } else { other@ },
    {
        if self.raw <= other.raw {
            self
        } else {
            other
        }
    }

    /// The larger of two numbers.
    pub fn max(self, other: Fixed) -> (r: Fixed)
        ensures
            r@ == if self@ >= other@ { self@ } else { other@ },
    {
        if self.raw >= other.raw {
            self
        } else {
            other
        }
    }

    /// `self` moved into `[low, high]`: `low` if below it, else `high` if
    /// above it, else unchanged. Total also where `low > high`.
    pub fn clamp(self, low: Fixed, high: Fixed) -> (r: Fixed)
        ensures
            r@ == clamp_between(self@, low@, high@),
    {
        if self.raw < low.raw {
            low
        } else if self.raw > high.raw {
            high
        } else {
            self
        }
    }

    /// Strictly less.
    pub fn lt(self, other: Fixed) -> (r: bool)
        ensures
            r == (self@ < other@),
    {
        self.raw < other.raw
    }

    /// Strictly greater.
    pub fn gt(self, other: Fixed) -> (r: bool)
        ensures
            r == (self@ > other@),
    {
        self.raw > other.raw
    }
}

/// `v` moved into `[low, high]`, the lower bound tested first.
pub open spec fn clamp_between(v: int, low: int, high: int) -> int {
    if v < low {
        low
    } else if v > high {
        high
    } else {
        v
    }
}

} // verus!
