//! The names most programs need, in one place.
pub use crate::codec::decoders::Decoder;
pub use crate::codec::encoders::Encoder;
pub use crate::codec::{Codec, ImageCodec, VideoCodec};
pub use crate::color::{Color, ColorSpace};
pub use crate::error::Error;
pub use crate::geometry::{Point, Shape};
pub use crate::image::Image;
pub use crate::traits::{
    BiCubicParams, BiLinearParams, CircleParams, Drawable, Drawing, NearestNeighborParams,
    RectParams, Resizable, Rotatable, RotationType, TriangleParams,
};
