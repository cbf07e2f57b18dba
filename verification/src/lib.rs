//! Deterministic fixed-point animation engine for a ring of 12 RGB positions.
//!
//! A [`cue::Cue`] describes one cyclic two-color animation; [`color::Color`]
//! is the RGB value type it produces; [`iris::Iris`] owns a collection of
//! cues and tracks which one is active.

pub mod color;
pub mod cue;
pub mod iris;
