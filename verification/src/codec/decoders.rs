//! Reading images from byte streams, by format.
use super::png::spec_decode;
use super::{jpeg, png, Codec, ImageCodec};
use crate::color::ColorSpace;
use crate::error::Error;
use crate::image::Image;
use vstd::prelude::*;

verus! {

/// Something that can read an image from a byte stream.
pub trait Decoder {
    /// Reads an image from `data`.
    fn decode(&self, data: &[u8]) -> (image: Result<Image, Error>);
}

impl Decoder for Codec {
    /// Reads an image from a stream in this format. PNG is read as the PNG
    /// decoder reads it; JPEG has no decoder; a video format is no format
    /// for an image.
    fn decode(&self, data: &[u8]) -> (image: Result<Image, Error>)
        ensures
            match *self {
                Codec::Image(ImageCodec::PNG) => match image {
                    Ok(img) => img.wf() && img.spec_colorspace() == ColorSpace::RGB && spec_decode(
                        data@,
                    ) == Some((img.spec_shape(), img@)),
                    Err(e) => e is ImageDecodeError && spec_decode(data@) is None,
                },
                Codec::Image(ImageCodec::JPG) => image matches Err(e) && e is NotImplemented,
                Codec::Video(_) => image matches Err(e) && e is UnsupportedOperation,
            },
    {
        match self {
            Codec::Image(ImageCodec::PNG) => png::decode(data),
            Codec::Image(ImageCodec::JPG) => jpeg::decode(data),
            Codec::Video(_) => Err(
                Error::UnsupportedOperation("An image cannot be read from video".to_string()),
            ),
        }
    }
}

} // verus!
