//! Which screen the program shows.

use vstd::prelude::*;

verus! {

/// The two screens of the program.
#[derive(Clone, Copy, Debug, PartialEq, Eq, Structural)]
pub enum GameState {
    /// The title and credits screen shown at start-up.
    Credits,
    /// The match itself.
    Playing,
}

} // verus!
