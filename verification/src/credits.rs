//! The title and credits screen: its text, how long it stays, how it fades,
//! and where its lines go.

use crate::fixed::Fixed;
use crate::game::{Game, GameState};
use crate::layout::{pixel_from_halves, pixel_of_halves};
use crate::rules::GameView;
use vstd::prelude::*;

verus! {

/// How long the credits are shown: 6 seconds.
pub const CREDITS_DURATION: i64 = 6_000_000;

/// The text of the credits screen.
pub struct Credits {
    pub title: String,
    pub author: String,
    pub acknowledgements: Vec<String>,
    pub version: String,
    pub description: String,
    pub website: String,
    pub license: String,
}

/// Tops of the rows of the credits screen, in pixels.
#[derive(Clone, Copy, Debug, PartialEq, Eq, Structural)]
pub struct CreditsRows {
    pub logo: i32,
    pub title: i32,
    pub author: i32,
    pub first_acknowledgement: i32,
    pub version: i32,
    pub description: i32,
    pub website: i32,
    pub license: i32,
}

/// The match after the credits screen looked at the clock: once more than
/// [`CREDITS_DURATION`] has passed, the match is shown and its countdown
/// starts at `time`.
pub open spec fn credits_elapsed(g: GameView, time: int) -> GameView {
    if time > CREDITS_DURATION {
        GameView { game_state: GameState::Playing, time_since_last_score: time, ..g }
    } else {
        g
    }
}

/// Opacity of the credits at `time`, before it is brought into `[0, 1]`: it
/// rises with the clock for the first half of the duration and falls with
/// the time that is left for the second.
pub open spec fn credits_alpha(time: int) -> int {
    if time < CREDITS_DURATION / 2 {
        time
    } else {
        CREDITS_DURATION - time
    }
}

/// Top of the uppermost row, in half pixels, for a viewport `screen_height`
/// pixels high and `count` acknowledgements: the block of rows is lifted by
/// 30 pixels per acknowledgement and by 290 pixels for the rest.
pub open spec fn credits_top_halves(screen_height: int, count: int) -> int {
    screen_height - 580 - 60 * count
}

/// Top of the first acknowledgement, in half pixels: below the logo, the
/// title and the author.
pub open spec fn credits_first_halves(screen_height: int, count: int, logo_height: int) -> int {
    credits_top_halves(screen_height, count) + 2 * logo_height + 300
}

/// The rows for a viewport `screen_height` pixels high, `count`
/// acknowledgements and a logo `logo_height` pixels high.
pub open spec fn credits_rows(screen_height: int, count: int, logo_height: int) -> CreditsRows {
    let top = credits_top_halves(screen_height, count);
    let title = top + 2 * logo_height + 100;
    let first = title + 200;
    let version = first + 60 * count;
    CreditsRows {
        logo: pixel_of_halves(top) as i32,
        title: pixel_of_halves(title) as i32,
        author: pixel_of_halves(title + 100) as i32,
        first_acknowledgement: pixel_of_halves(first) as i32,
        version: pixel_of_halves(version) as i32,
        description: pixel_of_halves(version + 60) as i32,
        website: pixel_of_halves(version + 120) as i32,
        license: pixel_of_halves(version + 180) as i32,
    }
}

impl Credits {
    /// The credits of this game.
    pub fn new() -> (credits: Credits)
        ensures
            credits.title@ == "Pong50th"@,
            credits.author@ == "PerfectlyFineCode"@,
            credits.acknowledgements@.len() == 1,
            credits.acknowledgements@[0]@ == "[raylib-rs] Paul Clement (github.com/deltaphc)"@,
            credits.version@ == "0.1.0"@,
            credits.description@
                == "A pong game celebrating 50th anniversary, made with raylib-rs"@,
            credits.website@ == "github.com/perfectlyfinecode/pong50th"@,
            credits.license@ == "MIT"@,
    {
        let mut acknowledgements: Vec<String> = Vec::new();
        acknowledgements.push("[raylib-rs] Paul Clement (github.com/deltaphc)".to_owned());
        Credits {
            title: "Pong50th".to_owned(),
            author: "PerfectlyFineCode".to_owned(),
            acknowledgements,
            version: "0.1.0".to_owned(),
            description: "A pong game celebrating 50th anniversary, made with raylib-rs".to_owned(),
            website: "github.com/perfectlyfinecode/pong50th".to_owned(),
            license: "MIT".to_owned(),
        }
    }

    /// Looks at the clock: once more than [`CREDITS_DURATION`] has passed,
    /// hands over to the match and starts its countdown at `time`.
    pub fn update(&mut self, game: &mut Game, time: Fixed)
        ensures
            final(game)@ == credits_elapsed(old(game)@, time@),
            final(game).wf() == old(game).wf(),
            *final(self) == *old(self),
    {
        if time.raw > CREDITS_DURATION {
            game.set_game_state(GameState::Playing);
            game.set_time_since_last_score(time);
        }
    }

    /// Opacity of the credits at `time`, before it is brought into `[0, 1]`.
    pub fn alpha(time: Fixed) -> (alpha: Fixed)
        ensures
            alpha@ == credits_alpha(time@),
    {
        if time.raw < CREDITS_DURATION / 2 {
            time
        } else {
            Fixed { raw: CREDITS_DURATION - time.raw }
        }
    }

    /// Tops of the rows in a viewport `screen_height` pixels high, below a
    /// logo `logo_height` pixels high.
    pub fn rows(&self, screen_height: i32, logo_height: i32) -> (rows: CreditsRows)
        ensures
            rows == credits_rows(
                screen_height as int,
                self.acknowledgements@.len() as int,
                logo_height as int,
            ),
    {
        let count: i128 = self.acknowledgements.len() as i128;
        let top: i128 = (screen_height as i128) - 580 - 60 * count;
        let title: i128 = top + 2 * (logo_height as i128) + 100;
        let first: i128 = title + 200;
        let version: i128 = first + 60 * count;
        CreditsRows {
            logo: pixel_from_halves(top),
            title: pixel_from_halves(title),
            author: pixel_from_halves(title + 100),
            first_acknowledgement: pixel_from_halves(first),
            version: pixel_from_halves(version),
            description: pixel_from_halves(version + 60),
            website: pixel_from_halves(version + 120),
            license: pixel_from_halves(version + 180),
        }
    }

    /// Top of acknowledgement `k` in a viewport `screen_height` pixels high,
    /// below a logo `logo_height` pixels high: 30 pixels below acknowledgement
    /// `k - 1`, the half pixel dropped only at the end.
    pub fn acknowledgement_row(&self, screen_height: i32, logo_height: i32, k: usize) -> (r: i32)
        ensures
            r == pixel_of_halves(
                credits_first_halves(
                    screen_height as int,
                    self.acknowledgements@.len() as int,
                    logo_height as int,
                ) + 60 * k,
            ),
            k == 0 ==> r == credits_rows(
                screen_height as int,
                self.acknowledgements@.len() as int,
                logo_height as int,
            ).first_acknowledgement,
    {
        let count: i128 = self.acknowledgements.len() as i128;
        let first: i128 = (screen_height as i128) - 580 - 60 * count + 2 * (logo_height as i128)
            + 300;
        pixel_from_halves(first + 60 * (k as i128))
    }
}

} // verus!
