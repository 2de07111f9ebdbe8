//! The raster buffer and its pixel-level operations.
pub mod crop;
pub mod draw;
pub mod ops;
pub mod pixels;
pub mod resize;
pub mod rotate;

pub use crop::spec_cropped;
pub use pixels::{spec_painted, spec_pixel_at};

use crate::color::{Color, ColorSpace};
use crate::error::Error;
use crate::geometry::{self, Point, Shape};
use crop::{lemma_box_row, lemma_cropped_len, lemma_cropped_pixel};
use pixels::lemma_painted_pixels;
use vstd::prelude::*;

verus! {

/// An owned raster buffer.
///
/// Pixels are stored row by row, each pixel as `channels` consecutive
/// bytes, so pixel `(x, y)` occupies the bytes from
/// `(y * width + x) * channels` on.
///
/// The mathematical model of an image is its shape, its colour space and
/// the sequence of its bytes (its view).
#[derive(Debug)]
pub struct Image {
    shape: Shape,
    data: Vec<u8>,
    colorspace: ColorSpace,
}

/// The byte that a combination leaves: the result of the operation, or 255
/// where the result is larger.
pub open spec fn spec_clamped(value: u32) -> u8 {
    if value > 255 {
        255u8
    } else {
        value as u8
    }
}

/// Whether `out` is a byte that combining `a` and `b` with `op` can leave:
/// a result of the operation, clamped.
pub open spec fn spec_combined<F: Fn(u32, u32) -> u32>(op: F, a: u8, b: u8, out: u8) -> bool {
    exists|value: u32|
        #[trigger] call_ensures(op, (a as u32, b as u32), value) && out == spec_clamped(value)
}

fn wrong_length() -> (e: Error)
    ensures
        e is ShapeMismatch,
{
    Error::ShapeMismatch("Data length differs from the shape's size".to_string())
}

impl Image {
    /// The bytes of the buffer.
    pub closed spec fn view(&self) -> Seq<u8> {
        self.data@
    }

    /// The extent of the pixel grid.
    pub closed spec fn spec_shape(&self) -> Shape {
        self.shape
    }

    /// The pixel format the buffer is tagged with.
    pub closed spec fn spec_colorspace(&self) -> ColorSpace {
        self.colorspace
    }

    pub open spec fn spec_width(&self) -> usize {
        self.spec_shape().width
    }

    pub open spec fn spec_height(&self) -> usize {
        self.spec_shape().height
    }

    /// The number of bytes per pixel.
    pub open spec fn spec_channels(&self) -> usize {
        self.spec_shape().ndim
    }

    /// The invariant of every image: the shape counts the channels of the
    /// colour space, and the buffer holds exactly the bytes of the grid.
    pub open spec fn wf(&self) -> bool {
        &&& self.spec_shape().ndim == self.spec_colorspace().spec_channels()
        &&& self@.len() == self.spec_shape().spec_size()
    }

    /// Whether the two images have the same shape and colour space.
    pub open spec fn same_frame(&self, other: &Image) -> bool {
        &&& self.spec_shape() == other.spec_shape()
        &&& self.spec_colorspace() == other.spec_colorspace()
    }

    /// Whether pixel `(x, y)` lies inside the grid.
    pub open spec fn contains(&self, x: int, y: int) -> bool {
        0 <= x < self.spec_width() && 0 <= y < self.spec_height()
    }

    /// The offset of the first byte of pixel `(x, y)`.
    pub open spec fn spec_index(&self, x: int, y: int) -> int {
        geometry::spec_index(x, y, self.spec_width() as int, self.spec_channels() as int)
    }

    /// The bytes of pixel `(x, y)`.
    pub open spec fn spec_pixel(&self, x: int, y: int) -> Seq<u8> {
        spec_pixel_at(self@, self.spec_width() as int, self.spec_channels() as int, x, y)
    }

    /// Byte `c` of pixel `(x, y)`.
    pub open spec fn spec_channel(&self, x: int, y: int, c: int) -> u8 {
        self@[self.spec_index(x, y) + c]
    }

    /// Every pixel inside the grid has all its bytes inside the buffer.
    pub proof fn lemma_pixel_in_buffer(&self, x: int, y: int)
        requires
            self.wf(),
            self.contains(x, y),
        ensures
            0 <= self.spec_index(x, y),
            self.spec_index(x, y) + self.spec_channels() <= self@.len(),
    {
        geometry::lemma_index_in_grid(
            x,
            y,
            self.spec_width() as int,
            self.spec_height() as int,
            self.spec_channels() as int,
        );
    }

    /// The bytes of an image can be counted in a `usize`.
    pub proof fn size_fits(&self)
        requires
            self.wf(),
        ensures
            self@.len() <= usize::MAX,
            self.spec_shape().spec_size() <= usize::MAX,
    {
        assert(self.data@.len() == self.data.len());
    }

    /// A blank image: every byte is zero.
    pub fn new(shape: Shape, colorspace: ColorSpace) -> (image: Image)
        requires
            shape.ndim == colorspace.spec_channels(),
            shape.spec_size() <= usize::MAX,
        ensures
            image.wf(),
            image.spec_shape() == shape,
            image.spec_colorspace() == colorspace,
            image@.len() == shape.spec_size(),
            forall|i: int| 0 <= i < image@.len() ==> image@[i] == 0u8,
    {
        let data = vec![0u8; shape.size()];
        Image { shape, data, colorspace }
    }

    /// Wraps bytes that were produced elsewhere. The bytes are accepted
    /// exactly when there are as many as the shape asks for and the shape
    /// counts the channels of the colour space.
    pub fn from_data(data: Vec<u8>, shape: Shape, colorspace: ColorSpace) -> (image: Result<
        Image,
        Error,
    >)
        ensures
            match image {
                Ok(img) => img.wf() && img@ == data@ && img.spec_shape() == shape
                    && img.spec_colorspace() == colorspace,
                Err(e) => e is ShapeMismatch && (data@.len() != shape.spec_size() || shape.ndim
                    != colorspace.spec_channels()),
            },
    {
        if shape.ndim != colorspace.channels() {
            return Err(
                Error::ShapeMismatch("Shape and colour space disagree on channels".to_string()),
            );
        }
        let length: usize = data.len();
        match shape.checked_size() {
            Some(size) => {
                if length == size {
                    Ok(Image { shape, data, colorspace })
                } else {
                    Err(wrong_length())
                }
            },
            None => Err(wrong_length()),
        }
    }

    /// The extent of the pixel grid.
    pub fn shape(&self) -> (shape: Shape)
        ensures
            shape == self.spec_shape(),
    {
        self.shape
    }

    /// The pixel format the buffer is tagged with.
    pub fn colorspace(&self) -> (colorspace: ColorSpace)
        ensures
            colorspace == self.spec_colorspace(),
    {
        self.colorspace
    }

    #[verifier::when_used_as_spec(spec_width)]
    pub fn width(&self) -> (width: usize)
        ensures
            width == self.spec_width(),
    {
        self.shape.width
    }

    #[verifier::when_used_as_spec(spec_height)]
    pub fn height(&self) -> (height: usize)
        ensures
            height == self.spec_height(),
    {
        self.shape.height
    }

    /// The number of bytes in the buffer.
    pub fn size(&self) -> (size: usize)
        requires
            self.wf(),
        ensures
            size == self@.len(),
            size == self.spec_shape().spec_size(),
    {
        self.data.len()
    }

    /// Exchanges the bytes at two offsets.
    pub fn swap(&mut self, idx_a: usize, idx_b: usize)
        requires
            idx_a < old(self)@.len(),
            idx_b < old(self)@.len(),
        ensures
            final(self)@ == old(self)@.update(idx_a as int, old(self)@[idx_b as int]).update(
                idx_b as int,
                old(self)@[idx_a as int],
            ),
            final(self).same_frame(old(self)),
            old(self).wf() ==> final(self).wf(),
    {
        let a: u8 = self.data[idx_a];
        let b: u8 = self.data[idx_b];
        self.data[idx_a] = b;
        self.data[idx_b] = a;
    }

    /// The bytes from offset `start` up to, not including, `end`.
    pub fn slice(&self, start: usize, end: usize) -> (bytes: &[u8])
        requires
            start <= end <= self@.len(),
        ensures
            bytes@ == self@.subrange(start as int, end as int),
    {
        vstd::slice::slice_subrange(self.data.as_slice(), start, end)
    }

    /// The bytes from offset `start` up to, not including, `end`, for
    /// writing. What is written there is what the image holds afterwards;
    /// the bytes before and after are kept. The image stays well formed, as
    /// writing to a slice cannot change its length.
    pub fn mut_slice(&mut self, start: usize, end: usize) -> (bytes: &mut [u8])
        requires
            start <= end <= old(self)@.len(),
        ensures
            bytes@ == old(self)@.subrange(start as int, end as int),
            final(self)@ == old(self)@.subrange(0, start as int) + final(bytes)@
                + old(self)@.subrange(end as int, old(self)@.len() as int),
            final(self).same_frame(old(self)),
            old(self).wf() && final(bytes)@.len() == bytes@.len() ==> final(self).wf(),
    {
        let whole = self.data.as_mut_slice();
        let (_head, rest) = whole.split_at_mut(start);
        let (window, _tail) = rest.split_at_mut(end - start);
        window
    }

    /// The offset of the first byte of the pixel at `point`, when the pixel
    /// lies inside the grid.
    pub fn get_index(&self, point: &Point) -> (index: Result<usize, Error>)
        requires
            self.wf(),
        ensures
            match index {
                Ok(i) => self.contains(point.x as int, point.y as int) && i == self.spec_index(
                    point.x as int,
                    point.y as int,
                ),
                Err(e) => e is IndexOutOfBounds && !self.contains(point.x as int, point.y as int),
            },
    {
        self.get_index_from_xy(point.x, point.y)
    }

    /// The offset of the first byte of pixel `(x, y)`, when the pixel lies
    /// inside the grid.
    pub fn get_index_from_xy(&self, x: usize, y: usize) -> (index: Result<usize, Error>)
        requires
            self.wf(),
        ensures
            match index {
                Ok(i) => self.contains(x as int, y as int) && i == self.spec_index(
                    x as int,
                    y as int,
                ),
                Err(e) => e is IndexOutOfBounds && !self.contains(x as int, y as int),
            },
    {
        let length: usize = self.data.len();
        proof {
            if self.contains(x as int, y as int) {
                self.lemma_pixel_in_buffer(x as int, y as int);
            }
        }
        geometry::get_index_from_xywh(x, y, self.width(), self.height(), self.shape.ndim)
    }

    /// The bytes of the pixel at `point`.
    pub fn get_pixel(&self, point: &Point) -> (pixel: Result<&[u8], Error>)
        requires
            self.wf(),
        ensures
            match pixel {
                Ok(bytes) => self.contains(point.x as int, point.y as int) && bytes@
                    == self.spec_pixel(point.x as int, point.y as int),
                Err(e) => e is IndexOutOfBounds && !self.contains(point.x as int, point.y as int),
            },
    {
        let channels: usize = self.shape.ndim;
        let length: usize = self.data.len();
        match self.get_index(point) {
            Ok(index) => {
                proof {
                    self.lemma_pixel_in_buffer(point.x as int, point.y as int);
                }
                Ok(self.slice(index, index + channels))
            },
            Err(e) => Err(e),
        }
    }

    /// The bytes of the pixel at `point`, for writing. What is written
    /// there is what the pixel holds afterwards; all other bytes are kept.
    pub fn get_mut_pixel(&mut self, point: &Point) -> (pixel: Result<&mut [u8], Error>)
        requires
            old(self).wf(),
        ensures
            final(self).same_frame(old(self)),
            match pixel {
                Ok(bytes) => {
                    let index = old(self).spec_index(point.x as int, point.y as int);
                    &&& old(self).contains(point.x as int, point.y as int)
                    &&& bytes@ == old(self).spec_pixel(point.x as int, point.y as int)
                    &&& final(self)@ == old(self)@.subrange(0, index) + final(bytes)@
                        + old(self)@.subrange(
                        index + old(self).spec_channels(),
                        old(self)@.len() as int,
                    )
                },
                Err(e) => e is IndexOutOfBounds && !old(self).contains(
                    point.x as int,
                    point.y as int,
                ) && final(self)@ == old(self)@,
            },
    {
        let channels: usize = self.shape.ndim;
        let length: usize = self.data.len();
        match self.get_index(point) {
            Ok(index) => {
                proof {
                    self.lemma_pixel_in_buffer(point.x as int, point.y as int);
                }
                Ok(self.mut_slice(index, index + channels))
            },
            Err(e) => Err(e),
        }
    }

    /// Writes `color` to the pixel at `point`: the pixel's bytes become the
    /// first channels of the colour, as many as the image has per pixel, and
    /// no other byte changes. A point outside the grid is refused and
    /// nothing is written.
    pub fn set_pixel(&mut self, point: &Point, color: &Color) -> (outcome: Result<(), Error>)
        requires
            old(self).wf(),
        ensures
            final(self).wf(),
            final(self).same_frame(old(self)),
            match outcome {
                Ok(()) => {
                    &&& old(self).contains(point.x as int, point.y as int)
                    &&& final(self)@ == spec_painted(
                        old(self)@,
                        old(self).spec_index(point.x as int, point.y as int),
                        color.spec_pixel(old(self).spec_channels() as int),
                    )
                    &&& final(self).spec_pixel(point.x as int, point.y as int) == color.spec_pixel(
                        old(self).spec_channels() as int,
                    )
                    &&& forall|x: int, y: int|
                        old(self).contains(x, y) && (x != point.x || y != point.y)
                            ==> #[trigger] final(self).spec_pixel(x, y) == old(self).spec_pixel(
                            x,
                            y,
                        )
                },
                Err(e) => e is IndexOutOfBounds && !old(self).contains(
                    point.x as int,
                    point.y as int,
                ) && final(self)@ == old(self)@,
            },
    {
        let channels: usize = self.shape.ndim;
        let length: usize = self.data.len();
        match self.get_index(point) {
            Ok(index) => {
                proof {
                    self.lemma_pixel_in_buffer(point.x as int, point.y as int);
                }
                let mut i: usize = 0;
                while i < channels
                    invariant
                        i <= channels <= 4,
                        index + channels <= length,
                        self.data@.len() == length,
                        self.shape == old(self).shape,
                        self.colorspace == old(self).colorspace,
                        old(self)@.len() == length,
                        forall|j: int|
                            0 <= j < length ==> self.data@[j] == if index <= j < index + i {
                                color.spec_channels()[j - index]
                            } else {
                                old(self)@[j]
                            },
                    decreases channels - i,
                {
                    self.data[index + i] = color[i];
                    i += 1;
                }
                proof {
                    assert(self@ =~= spec_painted(
                        old(self)@,
                        index as int,
                        color.spec_pixel(channels as int),
                    ));
                    lemma_painted_pixels(
                        *old(self),
                        *self,
                        point.x as int,
                        point.y as int,
                        color.spec_pixel(channels as int),
                    );
                }
                Ok(())
            },
            Err(e) => Err(e),
        }
    }

    /// Whether the box of extent `shape` with its corner at `topleft` lies
    /// inside the grid.
    pub open spec fn spec_holds_box(&self, topleft: Point, shape: Shape) -> bool {
        &&& topleft.x + shape.width <= self.spec_width()
        &&& topleft.y + shape.height <= self.spec_height()
    }

    /// Cuts the box of extent `shape` with its corner at `topleft` out of
    /// the image: a new image of that width and height, with the channels
    /// and colour space of this one, that holds the pixels of the box row
    /// by row. A box that is not inside the grid is refused.
    pub fn crop(&self, topleft: Point, shape: Shape) -> (cropped: Result<Image, Error>)
        requires
            self.wf(),
        ensures
            match cropped {
                Ok(image) => {
                    &&& self.spec_holds_box(topleft, shape)
                    &&& image.wf()
                    &&& image.spec_shape() == (Shape {
                        width: shape.width,
                        height: shape.height,
                        ndim: self.spec_channels(),
                    })
                    &&& image.spec_colorspace() == self.spec_colorspace()
                    &&& image@ == spec_cropped(
                        self@,
                        self.spec_width() as int,
                        self.spec_channels() as int,
                        topleft.x as int,
                        topleft.y as int,
                        shape.width as int,
                        shape.height as int,
                    )
                    &&& forall|x: int, y: int|
                        image.contains(x, y) ==> #[trigger] image.spec_pixel(x, y)
                            == self.spec_pixel(topleft.x + x, topleft.y + y)
                },
                Err(e) => e is IndexOutOfBounds && !self.spec_holds_box(topleft, shape),
            },
    {
        let width: usize = self.shape.width;
        let height: usize = self.shape.height;
        let channels: usize = self.shape.ndim;
        let length: usize = self.data.len();
        let inside: bool = match topleft.x.checked_add(shape.width) {
            Some(right) => match topleft.y.checked_add(shape.height) {
                Some(bottom) => right <= width && bottom <= height,
                None => false,
            },
            None => false,
        };
        if !inside {
            return Err(Error::IndexOutOfBounds("The region leaves the image".to_string()));
        }
        let ghost w = width as int;
        let ghost h = height as int;
        let ghost ch = channels as int;
        let ghost x0 = topleft.x as int;
        let ghost y0 = topleft.y as int;
        let ghost span = shape.width as int;
        let mut data: Vec<u8> = Vec::new();
        let mut y: usize = 0;
        while y < shape.height
            invariant
                self.wf(),
                width == self.shape.width,
                height == self.shape.height,
                channels == self.shape.ndim,
                length == self.data@.len(),
                w == width,
                h == height,
                ch == channels,
                1 <= ch,
                x0 == topleft.x,
                y0 == topleft.y,
                span == shape.width,
                x0 + span <= w,
                y0 + shape.height <= h,
                y <= shape.height,
                data@ == spec_cropped(self@, w, ch, x0, y0, span, y as int),
            decreases shape.height - y,
        {
            proof {
                lemma_box_row(w, h, ch, x0, y0, span, shape.height as int, 0, y as int);
                lemma_box_row(w, h, ch, x0, y0, span, shape.height as int, span, y as int);
                assert(w * h <= w * h * ch) by (nonlinear_arith)
                    requires
                        ch >= 1,
                        w * h >= 0,
                ;
            }
            let start: usize = ((topleft.y + y) * width + topleft.x) * channels;
            let end: usize = start + shape.width * channels;
            data.extend_from_slice(self.slice(start, end));
            y += 1;
        }
        let frame = Shape { width: shape.width, height: shape.height, ndim: channels };
        proof {
            lemma_cropped_len(self@, w, h, ch, x0, y0, span, shape.height as int);
            assert(frame.spec_size() == shape.height * (span * ch)) by (nonlinear_arith)
                requires
                    frame.spec_size() == span * shape.height * ch,
            ;
        }
        match Image::from_data(data, frame, self.colorspace) {
            Ok(image) => {
                proof {
                    assert forall|x: int, y: int| image.contains(x, y) implies (
                    #[trigger] image.spec_pixel(x, y)) == self.spec_pixel(
                        topleft.x + x,
                        topleft.y + y,
                    ) by {
                        lemma_cropped_pixel(
                            self@,
                            w,
                            h,
                            ch,
                            x0,
                            y0,
                            span,
                            shape.height as int,
                            x,
                            y,
                        );
                    }
                }
                Ok(image)
            },
            Err(_) => Err(Error::IndexOutOfBounds("The region leaves the image".to_string())),
        }
    }

    /// Combines the image with `rhs` byte by byte: each byte becomes the
    /// result of `op` on it and the byte of `rhs` at the same offset, or
    /// 255 where the result is larger. Buffers of different sizes are
    /// refused and nothing is changed.
    pub fn combine<F>(&mut self, rhs: &Image, op: F) -> (outcome: Result<(), Error>) where
        F: Fn(u32, u32) -> u32,

        requires
            forall|a: u32, b: u32| a <= 255 && b <= 255 ==> call_requires(op, (a, b)),
        ensures
            final(self).same_frame(old(self)),
            final(self)@.len() == old(self)@.len(),
            old(self).wf() ==> final(self).wf(),
            match outcome {
                Ok(()) => {
                    &&& old(self)@.len() == rhs@.len()
                    &&& forall|i: int|
                        0 <= i < rhs@.len() ==> #[trigger] spec_combined(
                            op,
                            old(self)@[i],
                            rhs@[i],
                            final(self)@[i],
                        )
                },
                Err(e) => e is ShapeMismatch && old(self)@.len() != rhs@.len() && final(self)@
                    == old(self)@,
            },
    {
        let length: usize = self.data.len();
        if length != rhs.data.len() {
            return Err(Error::ShapeMismatch("The images differ in size".to_string()));
        }
        let mut i: usize = 0;
        while i < length
            invariant
                i <= length,
                length == rhs.data@.len(),
                self.data@.len() == length,
                old(self).data@.len() == length,
                self.shape == old(self).shape,
                self.colorspace == old(self).colorspace,
                forall|a: u32, b: u32| a <= 255 && b <= 255 ==> call_requires(op, (a, b)),
                forall|j: int|
                    0 <= j < i ==> #[trigger] spec_combined(
                        op,
                        old(self).data@[j],
                        rhs.data@[j],
                        self.data@[j],
                    ),
                forall|j: int| i <= j < length ==> self.data@[j] == old(self).data@[j],
            decreases length - i,
        {
            let value: u32 = op(self.data[i] as u32, rhs.data[i] as u32);
            let byte: u8 = if value > 255 {
                255
            } else {
                value as u8
            };
            self.data[i] = byte;
            i += 1;
        }
        Ok(())
    }
}

impl Clone for Image {
    /// A copy with the same shape, colour space and bytes.
    fn clone(&self) -> (copy: Image)
        ensures
            copy@ == self@,
            copy.same_frame(self),
    {
        let data = self.data.clone();
        Image { shape: self.shape, data, colorspace: self.colorspace }
    }
}

} // verus!
