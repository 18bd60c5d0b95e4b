//! Where things go on the screen.
//!
//! The caller draws; this module says where. Positions are whole pixels.
//! A position that falls between two pixels goes to the one nearer to zero,
//! and one beyond the range of `i32` goes to the nearest end of that range.

use crate::fixed::{clamp_between, trunc_div, Fixed, SCALE};
use vstd::prelude::*;

verus! {

/// Distance between the tops of two dashes of the centre line: 20 pixels.
pub const DASH_PITCH: i32 = 20;

/// Width of a dash of the centre line: 5 pixels.
pub const DASH_WIDTH: i32 = 5;

/// Height of a dash of the centre line: 10 pixels.
pub const DASH_HEIGHT: i32 = 10;

/// Height of the digits of score and countdown: 100 pixels.
pub const DIGIT_SIZE: i32 = 100;

/// Top of the score digits: 50 pixels.
pub const SCORE_TOP: i32 = 50;

/// Radius of the disc behind the countdown: 100 pixels.
pub const COUNTDOWN_RADIUS: i32 = 100;

/// `v` brought into the range of `i32`.
pub open spec fn saturated(v: int) -> int {
    clamp_between(v, i32::MIN as int, i32::MAX as int)
}

/// The pixel of a position given in half pixels.
pub open spec fn pixel_of_halves(halves: int) -> int {
    saturated(trunc_div(halves, 2))
}

/// The pixel of a position given in half pixels.
pub fn pixel_from_halves(halves: i128) -> (r: i32)
    ensures
        r == pixel_of_halves(halves as int),
{
    let whole: i128 = halves / 2;
    if whole < (i32::MIN as i128) {
        i32::MIN
    } else if whole > (i32::MAX as i128) {
        i32::MAX
    } else {
        whole as i32
    }
}

/// Left edge of something `width` pixels wide that is centred in a viewport
/// `screen_width` pixels wide.
pub fn centered_x(screen_width: i32, width: i32) -> (r: i32)
    ensures
        r == pixel_of_halves(screen_width - width),
{
    pixel_from_halves((screen_width as i128) - (width as i128))
}

/// Left edge of a picture `width` pixels wide whose middle column stands on
/// the middle column of a viewport `screen_width` pixels wide: each half is
/// brought to whole pixels on its own.
pub fn centered_picture_x(screen_width: i32, width: i32) -> (r: i32)
    ensures
        r == trunc_div(screen_width as int, 2) - trunc_div(width as int, 2),
{
    screen_width / 2 - width / 2
}

/// Left edges of the player's and of the opponent's score: 100 pixels left
/// and 50 pixels right of the middle of the viewport.
pub fn score_columns(screen_width: i32) -> (r: (i32, i32))
    ensures
        r.0 == pixel_of_halves(screen_width - 200),
        r.1 == pixel_of_halves(screen_width + 100),
{
    (
        pixel_from_halves((screen_width as i128) - 200),
        pixel_from_halves((screen_width as i128) + 100),
    )
}

/// Number of dashes of the centre line in a viewport `screen_height` pixels
/// high: one every [`DASH_PITCH`] pixels from the top, as long as its top is
/// inside the viewport.
pub open spec fn dash_count(screen_height: int) -> int {
    if screen_height <= 0 {
        0
    } else {
        (screen_height - 1) / (DASH_PITCH as int) + 1
    }
}

/// Tops of the dashes of the centre line, from the top of the viewport down.
pub fn center_line_dashes(screen_height: i32) -> (tops: Vec<i32>)
    ensures
        tops@.len() == dash_count(screen_height as int),
        forall|k: int| 0 <= k < tops@.len() ==> tops@[k] == k * DASH_PITCH,
        forall|k: int| 0 <= k < tops@.len() ==> 0 <= #[trigger] tops@[k] < screen_height,
{
    let mut tops: Vec<i32> = Vec::new();
    let mut i: i64 = 0;
    while i < (screen_height as i64)
        invariant
            0 <= i,
            i == tops@.len() * DASH_PITCH,
            i == 0 || i < screen_height + DASH_PITCH,
            screen_height > 0 ==> tops@.len() <= dash_count(screen_height as int),
            i < screen_height ==> tops@.len() < dash_count(screen_height as int),
            i >= screen_height ==> tops@.len() == dash_count(screen_height as int),
            forall|k: int| 0 <= k < tops@.len() ==> tops@[k] == k * DASH_PITCH,
            forall|k: int| 0 <= k < tops@.len() ==> 0 <= #[trigger] tops@[k] < screen_height,
        decreases screen_height + DASH_PITCH - i,
    {
        tops.push(i as i32);
        i = i + (DASH_PITCH as i64);
    }
    tops
}

/// The whole number nearest to `v` (in millionths); a tie goes to the even
/// neighbour.
pub open spec fn rounded(v: int) -> int {
    let floor = v / (SCALE as int);
    let rest = v % (SCALE as int);
    if rest * 2 < SCALE {
        floor
    } else if rest * 2 > SCALE {
        floor + 1
    } else if floor % 2 == 0 {
        floor
    } else {
        floor + 1
    }
}

/// The whole number nearest to `value`; a tie goes to the even neighbour.
pub fn round_half_even(value: Fixed) -> (r: i64)
    ensures
        r == rounded(value@),
{
    let truncated: i64 = value.raw / SCALE;
    let remainder: i64 = value.raw % SCALE;
    // floor and non-negative rest, from the quotient rounded towards zero
    let floor: i64 = if remainder < 0 { truncated - 1 } else { truncated };
    let rest: i64 = if remainder < 0 { remainder + SCALE } else { remainder };
    assert(floor == value@ / (SCALE as int) && rest == value@ % (SCALE as int));
    if rest * 2 < SCALE {
        floor
    } else if rest * 2 > SCALE {
        floor + 1
    } else if floor % 2 == 0 {
        floor
    } else {
        floor + 1
    }
}

/// Top of the countdown digits: 50 pixels above the middle of the viewport.
pub fn countdown_top(screen_height: i32) -> (r: i32)
    ensures
        r == pixel_of_halves(screen_height - 100),
{
    pixel_from_halves((screen_height as i128) - 100)
}

} // verus!
