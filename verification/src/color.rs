//! Colours and the pixel formats of buffers.
use crate::error::Error;
use crate::image::Image;
use vstd::prelude::*;

verus! {

/// The pixel formats a buffer can be tagged with. Only the number of bytes
/// per pixel follows from the tag; no conversion between formats exists.
#[derive(Debug, PartialEq, Eq, Structural, Clone, Copy)]
#[allow(clippy::upper_case_acronyms)]
pub enum ColorSpace {
    RGB,
    RGBA,
    BGR,
    BGRA,
    /// Planar YUV 4:2:0; counted as three channels, with no plane layout.
    YUV420P,
    Gray,
}

/// A colour with red, green, blue and alpha channels, one byte each.
#[derive(Debug, Copy, Clone, PartialEq, Eq, Structural)]
pub struct Color {
    pub red: u8,
    pub green: u8,
    pub blue: u8,
    pub alpha: u8,
}

impl ColorSpace {
    /// The number of bytes per pixel.
    pub open spec fn spec_channels(&self) -> usize {
        match self {
            ColorSpace::RGB => 3,
            ColorSpace::RGBA => 4,
            ColorSpace::BGR => 3,
            ColorSpace::BGRA => 4,
            ColorSpace::YUV420P => 3,
            ColorSpace::Gray => 1,
        }
    }

    /// The number of bytes per pixel.
    #[verifier::when_used_as_spec(spec_channels)]
    pub fn channels(&self) -> (count: usize)
        ensures
            count == self.spec_channels(),
            1 <= count <= 4,
    {
        match self {
            ColorSpace::RGB => 3,
            ColorSpace::RGBA => 4,
            ColorSpace::BGR => 3,
            ColorSpace::BGRA => 4,
            ColorSpace::YUV420P => 3,
            ColorSpace::Gray => 1,
        }
    }

    /// The name of the format, as written in the enumeration.
    pub open spec fn spec_name(&self) -> Seq<char> {
        match self {
            ColorSpace::RGB => "RGB"@,
            ColorSpace::RGBA => "RGBA"@,
            ColorSpace::BGR => "BGR"@,
            ColorSpace::BGRA => "BGRA"@,
            ColorSpace::YUV420P => "YUV420P"@,
            ColorSpace::Gray => "Gray"@,
        }
    }

    /// The name of the format, as written in the enumeration.
    pub fn name(&self) -> (name: &'static str)
        ensures
            name@ == self.spec_name(),
    {
        match self {
            ColorSpace::RGB => "RGB",
            ColorSpace::RGBA => "RGBA",
            ColorSpace::BGR => "BGR",
            ColorSpace::BGRA => "BGRA",
            ColorSpace::YUV420P => "YUV420P",
            ColorSpace::Gray => "Gray",
        }
    }

    /// Whether a conversion to `color_space` would change the format: true
    /// exactly when the two formats differ.
    pub fn can_convert_to(&self, color_space: &ColorSpace) -> (possible: bool)
        ensures
            possible == (*color_space != *self),
    {
        *color_space != *self
    }

    /// Accepts a request to convert `image` to `color_space` when the two
    /// formats differ and refuses it when they are the same. The image is
    /// not touched either way.
    #[allow(unused_variables)]
    pub fn convert_to(&self, image: &Image, color_space: &ColorSpace) -> (outcome: Result<
        (),
        Error,
    >)
        ensures
            outcome is Ok <==> *color_space != *self,
            outcome matches Err(e) ==> e matches Error::UnsupportedOperation(details) && details@
                == "Cannot convert from "@ + self.spec_name() + " to "@ + color_space.spec_name(),
    {
        if !self.can_convert_to(color_space) {
            let mut details = "Cannot convert from ".to_string();
            details.append(self.name());
            details.append(" to ");
            details.append(color_space.name());
            Err(Error::UnsupportedOperation(details))
        } else {
            Ok(())
        }
    }
}

impl Color {
    /// A colour from its four channels. `alpha` is the opacity on the byte
    /// scale: 0 is transparent and 255 is opaque.
    pub fn new(red: u8, green: u8, blue: u8, alpha: u8) -> (color: Color)
        ensures
            color == (Color { red, green, blue, alpha }),
    {
        Color { red, green, blue, alpha }
    }

    /// The channels in the order red, green, blue, alpha.
    pub open spec fn spec_channels(&self) -> Seq<u8> {
        seq![self.red, self.green, self.blue, self.alpha]
    }

    /// The bytes of one pixel of this colour in a buffer with `count`
    /// channels: the first `count` channels of the colour.
    pub open spec fn spec_pixel(&self, count: int) -> Seq<u8>
        recommends
            0 <= count <= 4,
    {
        self.spec_channels().subrange(0, count)
    }

    /// The channels in the order red, green, blue, alpha.
    pub fn as_vec(&self) -> (channels: Vec<u8>)
        ensures
            channels@ == self.spec_channels(),
    {
        let channels = vec![self.red, self.green, self.blue, self.alpha];
        channels
    }

    /// The red, green and blue channels.
    pub fn as_rgb_slice(&self) -> (channels: [u8; 3])
        ensures
            channels@ == self.spec_channels().subrange(0, 3),
    {
        let channels = [self.red, self.green, self.blue];
        channels
    }

    /// The channel with the given ordinal: 0 is red, 1 green, 2 blue and 3
    /// alpha. Any other ordinal is refused.
    pub fn channel_at(&self, ordinal: usize) -> (channel: Result<u8, Error>)
        ensures
            match channel {
                Ok(value) => ordinal < 4 && value == self.spec_channels()[ordinal as int],
                Err(e) => ordinal >= 4 && e is InvalidChannel,
            },
    {
        match ordinal {
            0 => Ok(self.red),
            1 => Ok(self.green),
            2 => Ok(self.blue),
            3 => Ok(self.alpha),
            _ => Err(Error::InvalidChannel("A colour has channels 0 to 3".to_string())),
        }
    }
}

impl vstd::std_specs::core::IndexSpecImpl<usize> for Color {
    open spec fn index_req(&self, index: &usize) -> bool {
        *index < 4
    }
}

/// `color[ordinal]` is the channel with that ordinal, for ordinals 0 to 3.
impl core::ops::Index<usize> for Color {
    type Output = u8;

    fn index(&self, index: usize) -> (channel: &u8)
        ensures
            *channel == self.spec_channels()[index as int],
    {
        match index {
            0 => &self.red,
            1 => &self.green,
            2 => &self.blue,
            _ => &self.alpha,
        }
    }
}

} // verus!
