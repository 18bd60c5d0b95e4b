//! What the player's devices report for one frame.

use crate::fixed::Fixed;
use vstd::prelude::*;

verus! {

/// Deflection of the analog stick beyond which it counts as a key: one half.
pub const STICK_THRESHOLD: i64 = 500_000;

/// State of a connected gamepad.
#[derive(Clone, Copy, Debug, PartialEq, Eq, Structural)]
pub struct GamepadInput {
    /// Vertical deflection of the left stick, from -1 (up) to 1 (down).
    pub left_stick_y: Fixed,
    /// The directional pad is held up.
    pub dpad_up: bool,
    /// The directional pad is held down.
    pub dpad_down: bool,
}

/// State of all movement sources for one frame.
#[derive(Clone, Copy, Debug)]
pub struct PlayerInput {
    /// First key pair, "up".
    pub key_w: bool,
    /// First key pair, "down".
    pub key_s: bool,
    /// Second key pair, "up".
    pub key_up: bool,
    /// Second key pair, "down".
    pub key_down: bool,
    /// The gamepad, if one is connected.
    pub gamepad: Option<GamepadInput>,
}

impl PlayerInput {
    /// No key held, no gamepad connected.
    pub fn idle() -> (r: PlayerInput)
        ensures
            r == (PlayerInput {
                key_w: false,
                key_s: false,
                key_up: false,
                key_down: false,
                gamepad: None,
            }),
    {
        PlayerInput { key_w: false, key_s: false, key_up: false, key_down: false, gamepad: None }
    }
}

/// The stick is pushed up far enough to count.
pub open spec fn stick_up(pad: GamepadInput) -> bool {
    pad.left_stick_y@ < -STICK_THRESHOLD
}

/// The stick is pushed down far enough to count.
pub open spec fn stick_down(pad: GamepadInput) -> bool {
    pad.left_stick_y@ > STICK_THRESHOLD
}

} // verus!
