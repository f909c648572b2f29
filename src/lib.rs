//! Cue playback and remote control core of a live-performance console.
//!
//! Gains are fixed point: one unit is a hundredth of the nominal device
//! volume, so `100` is unity gain. Durations are whole milliseconds.
pub mod gain;
pub mod fade;
pub mod text;
pub mod library;
pub mod session;
pub mod engine;
pub mod router;
pub mod lighting;
pub mod faders;
