//! Wire protocol for mirroring a car-soccer simulation to an external viewer.
//!
//! - [`bytes`]: fixed-width little-endian codecs and the reader / writer they use.
//! - [`math`], [`sim`]: the fixed-size records a frame is made of.
//! - [`state`]: boost pads, cars and the variable-length game state frame.
//! - [`render`]: debug-overlay primitives and their add / remove envelopes.
//! - [`session`]: the decisions of the synchronisation session with a viewer.
//! - [`arena`]: small records and decisions of the engine interface.
//!
//! Single-precision floats are carried as their IEEE-754 bit patterns (`u32`),
//! so every encoding is exact, signed zeros and NaN payloads included.
pub mod arena;
pub mod bytes;
pub mod math;
pub mod render;
pub mod session;
pub mod sim;
pub mod state;
