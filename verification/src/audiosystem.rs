//! Sound-effect events.
//!
//! The simulation never plays anything: it appends events to a queue that the
//! caller owns and drains once per frame.

use crate::fixed::{Fixed, SCALE};
use vstd::prelude::*;

verus! {

/// Volume at which the simulation queues its effects: one half.
pub const SFX_VOLUME: i64 = 500_000;

/// Pitch at which the simulation queues its effects: one.
pub const SFX_PITCH: i64 = SCALE;

/// Which effect an event asks for.
#[derive(Clone, Copy, Debug, PartialEq, Eq, Hash, Structural)]
pub enum SoundType {
    /// The ball bounced off a wall or a paddle.
    Bounce,
    /// The ball left the field on the right: a point for the player.
    PlayerScored,
    /// The ball left the field on the left: a point for the opponent.
    OpponentScored,
}

/// One queued effect.
#[derive(Clone, Copy, Debug, PartialEq, Eq, Structural)]
pub struct SoundHandle {
    pub sound_type: SoundType,
    pub volume: Fixed,
    pub pitch: Fixed,
}

/// The event that the simulation queues for `sound_type`.
pub open spec fn sfx(sound_type: SoundType) -> SoundHandle {
    SoundHandle {
        sound_type,
        volume: Fixed { raw: SFX_VOLUME },
        pitch: Fixed { raw: SFX_PITCH },
    }
}

/// Appends one event to the end of `queue`.
pub fn play_sfx(queue: &mut Vec<SoundHandle>, sound_type: SoundType, volume: Fixed, pitch: Fixed)
    ensures
        final(queue)@ == old(queue)@.push(SoundHandle { sound_type, volume, pitch }),
{
    queue.push(SoundHandle { sound_type, volume, pitch });
}

/// Appends the simulation's standard event for `sound_type` to `queue`.
pub fn queue_sfx(queue: &mut Vec<SoundHandle>, sound_type: SoundType)
    ensures
        final(queue)@ == old(queue)@.push(sfx(sound_type)),
{
    play_sfx(queue, sound_type, Fixed { raw: SFX_VOLUME }, Fixed { raw: SFX_PITCH });
}

} // verus!
