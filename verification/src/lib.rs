//! A two-paddle arcade ball game: the simulation core.
//!
//! The library holds the real-time rules of the game as verified code over
//! fixed-point numbers: ball and paddle kinematics, collision detection and
//! reflection, scoring, the countdown and the opponent's tracking policy.
//! Drawing, audio playback and input devices live with the caller, which hands
//! in plain values each frame and reads the state back.

pub mod fixed;
pub mod vectorhelper;
pub mod audiosystem;
pub mod ai;
pub mod gamestate;
pub mod serve;
pub mod input;
pub mod rules;
pub mod game;
pub mod floathelper;
pub mod debug;
pub mod layout;
pub mod credits;
