//! Playback core for a beat-scripted visual novel.
//!
//! The library owns the dialogue state machine: it walks an ordered list of
//! beats, animates each one in and out, waits for pointer activation, and
//! resolves the next beat either linearly, through an explicit jump, or
//! through a player-selected choice.  All timing runs on integer units so
//! that every ramp is exact: alpha in thousandths (`ALPHA_ONE`), reveal
//! ratio in millionths (`REVEAL_ONE`), elapsed time in milliseconds.
//!
//! Rendering and audio stay outside: `update` returns the audio requests of
//! the frame and `draw` returns an ordered list of draw commands; a host
//! interprets both.

pub mod laws;
pub mod layer;
pub mod player;
pub mod script;
pub mod timing;
