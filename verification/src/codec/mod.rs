//! Codecs: the formats images are stored in and the functions that read and
//! write them.
pub mod checksum;
pub mod decoders;
pub mod encoders;
pub mod formats;
pub mod jpeg;
pub mod png;
pub mod zlib;

use vstd::prelude::*;

verus! {

/// The formats data can be stored in.
#[derive(Debug, Clone, Copy, PartialEq, Eq, Structural)]
pub enum Codec {
    Image(ImageCodec),
    Video(VideoCodec),
}

/// The formats of still images.
#[derive(Debug, Clone, Copy, PartialEq, Eq, Structural)]
#[allow(clippy::upper_case_acronyms)]
pub enum ImageCodec {
    PNG,
    JPG,
}

/// The formats of moving images.
#[derive(Debug, Clone, Copy, PartialEq, Eq, Structural)]
pub enum VideoCodec {
    H264,
    H265,
}

} // verus!
