//! A sprite-sheet animation engine.
//!
//! A library of named animations (each an ordered, non-empty list of
//! sprite-sheet frame indices with a per-frame display duration) drives a
//! per-entity state machine: a repeating frame timer cycles the displayed
//! frame, and a one-shot "play this, then return to that" transition can be
//! scheduled on top. Time is measured in whole milliseconds. The engine does
//! no rendering or input handling of its own: a driver feeds it elapsed-time
//! ticks and animation commands, and it answers with the sprite-sheet frame
//! index to display.

pub mod animation;
pub mod debug;
pub mod game;
pub mod timer;
