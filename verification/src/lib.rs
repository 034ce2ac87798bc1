//! Decoder and compositor for a binary sprite-animation container.
//!
//! The library decodes a variant-tagged little-endian record into an
//! immutable [`types::Animation`] graph, reads per-sprite frame tapes into
//! transform operations, and walks the sprite tree to produce, for a given
//! frame, the ordered sequence of terminal shapes with their composed
//! transforms.
//!
//! Scalar fields that the container stores as 32-bit floats are carried
//! through as their raw bit patterns (`u32`); composed transforms are kept as
//! ordered sequences of primitive operations. Numeric evaluation of those
//! operations is left to the embedding application, which keeps every
//! decision the library makes provable.

pub mod decoder;
pub mod frame_reader;
pub mod laws;
pub mod render;
pub mod types;
