//! A real-time, MIDI- and audio-reactive parameter engine for a hue field.
//!
//! All quantities are fixed-point integers counted in millionths
//! (see [`fixed`]): time in microseconds, magnitudes and hues in
//! micro-units.
pub mod fixed;
pub mod control;
pub mod time;
pub mod spectrum;
pub mod envelope;
pub mod midi;
pub mod visual;
pub mod engine;
