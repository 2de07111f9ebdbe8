//! A small in-memory raster-image toolkit: an owned pixel buffer addressed
//! by pixel coordinates, drawing primitives, quarter-turn rotations, cropping
//! and a PNG codec.
//!
//! Every function states what it returns or changes over a mathematical
//! model of its data, and those statements are machine checked.
pub mod codec;
pub mod color;
pub mod error;
pub mod geometry;
pub mod image;
pub mod prelude;
pub mod traits;
pub mod types;
