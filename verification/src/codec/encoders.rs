//! Writing images as byte streams, by format.
use super::png::{spec_decode, spec_encode};
use super::{jpeg, png, Codec, ImageCodec};
use crate::error::Error;
use crate::image::Image;
use vstd::prelude::*;

verus! {

/// Something that can be written as a byte stream in a format of choice.
pub trait Encoder {
    /// What must hold of the value before it is written.
    spec fn encode_req(&self) -> bool;

    /// Writes the value in the format `codec`.
    fn encode(&self, codec: Codec) -> (stream: Result<Vec<u8>, Error>)
        requires
            self.encode_req(),
    ;
}

impl Encoder for Image {
    open spec fn encode_req(&self) -> bool {
        self.wf()
    }

    /// Writes the image in the format `codec`. PNG is written as the PNG
    /// encoder writes it; JPEG has no encoder; a video format is no format
    /// for an image.
    fn encode(&self, codec: Codec) -> (stream: Result<Vec<u8>, Error>)
        ensures
            match codec {
                Codec::Image(ImageCodec::PNG) => match stream {
                    Ok(bytes) => spec_encode(self) == Some(bytes@) && spec_decode(bytes@) == Some(
                        (self.spec_shape(), self@),
                    ),
                    Err(e) => e is ImageEncodeError && spec_encode(self) is None,
                },
                Codec::Image(ImageCodec::JPG) => stream matches Err(e) && e is NotImplemented,
                Codec::Video(_) => stream matches Err(e) && e is UnsupportedOperation,
            },
    {
        match codec {
            Codec::Image(ImageCodec::PNG) => png::encode(self),
            Codec::Image(ImageCodec::JPG) => jpeg::encode(self),
            Codec::Video(_) => Err(
                Error::UnsupportedOperation("An image cannot be written as video".to_string()),
            ),
        }
    }
}

} // verus!
