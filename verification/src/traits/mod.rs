//! The operations an image type offers, kept as traits so that each kind of
//! image can bring its own implementation.
pub mod draw;
pub mod resize;
pub mod rotate;

pub use draw::{CircleParams, Drawable, Drawing, RectParams, TriangleParams};
pub use resize::{BiCubicParams, BiLinearParams, NearestNeighborParams, Resizable};
pub use rotate::{Rotatable, RotationType};
