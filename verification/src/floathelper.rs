//! Rescaling a number to the unit interval.

use crate::fixed::{fits_i64, trunc_div, Fixed, SCALE};
use vstd::prelude::*;

verus! {

/// Where `v` lies between `min` and `max`, as a fraction in millionths: 0 at
/// `min`, one at `max`, rounded towards zero. The bounds may come in either
/// order but must differ.
pub open spec fn normalized_between(v: int, min: int, max: int) -> int {
    trunc_div((v - min) * SCALE, max - min)
}

/// Numbers that can be rescaled to the unit interval.
pub trait FloatHelper: Sized {
    /// The number in millionths.
    spec fn millionths(&self) -> int;

    /// Normalises a value between 0 and 1: `(self - min) / (max - min)`.
    fn normalize(&self, min: Self, max: Self) -> (r: Self)
        requires
            min.millionths() != max.millionths(),
            fits_i64(normalized_between(self.millionths(), min.millionths(), max.millionths())),
        ensures
            r.millionths() == normalized_between(
                self.millionths(),
                min.millionths(),
                max.millionths(),
            ),
    ;
}

impl FloatHelper for Fixed {
    open spec fn millionths(&self) -> int {
        self@
    }

    fn normalize(&self, min: Fixed, max: Fixed) -> (r: Fixed) {
        let offset: i128 = (self.raw as i128) - (min.raw as i128);
        let span: i128 = (max.raw as i128) - (min.raw as i128);
        assert(-0x1_0000_0000_0000_0000 * 1_000_000 <= offset * 1_000_000
            <= 0x1_0000_0000_0000_0000 * 1_000_000);
        if span > 0 {
            let quotient: i128 = (offset * (SCALE as i128)) / span;
            Fixed { raw: quotient as i64 }
        } else {
            let quotient: i128 = ((-offset) * (SCALE as i128)) / (-span);
            Fixed { raw: quotient as i64 }
        }
    }
}

} // verus!
