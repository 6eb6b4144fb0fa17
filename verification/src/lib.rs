//! Driver-layer translation for a grid-style MIDI control surface.
//!
//! The crate maps the flat byte-oriented wire protocol (note numbers,
//! control-change indices, velocity bytes) to a typed model of the device's
//! physical elements: an 8x8 button grid, a column of side buttons, a row of
//! bottom buttons, one corner button, and eight sliders.

pub mod element_idx;
pub mod input;
pub mod midi;
