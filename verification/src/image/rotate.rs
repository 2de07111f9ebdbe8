//! Turning an image by quarter and half turns.
use super::pixels::{
    lemma_pixels_apart, lemma_pixels_determine_view, spec_painted, spec_pixel_at,
};
use super::Image;
use crate::error::Error;
use crate::geometry::{self, Point, Shape};
use crate::traits::rotate::{Rotatable, RotationType};
use vstd::prelude::*;

verus! {

/// Where pixel `(x, y)` of a grid of `width` by `height` pixels lies after
/// the grid is turned by `angle` degrees. Angles other than the quarter and
/// half turns leave it where it is.
pub open spec fn spec_turn(x: int, y: int, width: int, height: int, angle: int) -> (int, int) {
    if Point::turns_right(angle) {
        (height - 1 - y, x)
    } else if Point::turns_half(angle) {
        (width - 1 - x, height - 1 - y)
    } else if Point::turns_left(angle) {
        (y, width - 1 - x)
    } else {
        (x, y)
    }
}

/// The shape of a grid of shape `shape` after it is turned by `angle`
/// degrees: quarter turns exchange width and height.
pub open spec fn spec_turned_shape(shape: Shape, angle: int) -> Shape {
    if Point::turns_right(angle) || Point::turns_left(angle) {
        Shape { width: shape.height, height: shape.width, ndim: shape.ndim }
    } else {
        shape
    }
}

/// Whether `after` is `before` turned by `angle` degrees: the shape is the
/// turned shape, the colour space is kept, and every pixel of `before` is
/// found in `after` at the place it is turned to.
pub open spec fn spec_is_turned(before: &Image, after: &Image, angle: int) -> bool {
    &&& after.spec_shape() == spec_turned_shape(before.spec_shape(), angle)
    &&& after.spec_colorspace() == before.spec_colorspace()
    &&& forall|x: int, y: int|
        before.contains(x, y) ==> after.spec_pixel(
            spec_turn(x, y, before.spec_width() as int, before.spec_height() as int, angle).0,
            spec_turn(x, y, before.spec_width() as int, before.spec_height() as int, angle).1,
        ) == #[trigger] before.spec_pixel(x, y)
}

/// Exchanges the pixels at `first` and `second`, all channels of them.
pub fn swap_pixels(image: &mut Image, first: &Point, second: &Point)
    requires
        old(image).wf(),
        old(image).contains(first.x as int, first.y as int),
        old(image).contains(second.x as int, second.y as int),
    ensures
        final(image).wf(),
        final(image).same_frame(old(image)),
        final(image).spec_pixel(first.x as int, first.y as int) == old(image).spec_pixel(
            second.x as int,
            second.y as int,
        ),
        final(image).spec_pixel(second.x as int, second.y as int) == old(image).spec_pixel(
            first.x as int,
            first.y as int,
        ),
        forall|x: int, y: int|
            old(image).contains(x, y) && (x != first.x || y != first.y) && (x != second.x || y
                != second.y) ==> #[trigger] final(image).spec_pixel(x, y) == old(image).spec_pixel(
                x,
                y,
            ),
{
    let channels: usize = image.shape().ndim;
    let length: usize = image.size();
    let ia: usize = match image.get_index(first) {
        Ok(index) => index,
        Err(_) => 0,
    };
    let ib: usize = match image.get_index(second) {
        Ok(index) => index,
        Err(_) => 0,
    };
    let ghost w = image.spec_width() as int;
    let ghost ch = channels as int;
    proof {
        image.lemma_pixel_in_buffer(first.x as int, first.y as int);
        image.lemma_pixel_in_buffer(second.x as int, second.y as int);
        if first.x != second.x || first.y != second.y {
            if first.y < second.y || (first.y == second.y && first.x < second.x) {
                geometry::lemma_index_orders_pixels(
                    first.x as int,
                    first.y as int,
                    second.x as int,
                    second.y as int,
                    w,
                    ch,
                );
            } else {
                geometry::lemma_index_orders_pixels(
                    second.x as int,
                    second.y as int,
                    first.x as int,
                    first.y as int,
                    w,
                    ch,
                );
            }
        }
    }
    let mut c: usize = 0;
    while c < channels
        invariant
            c <= channels,
            ia + channels <= length,
            ib + channels <= length,
            ia == ib || ia + channels <= ib || ib + channels <= ia,
            image@.len() == length,
            old(image)@.len() == length,
            image.same_frame(old(image)),
            forall|j: int|
                0 <= j < length ==> image@[j] == if ia <= j < ia + c {
                    old(image)@[ib + (j - ia)]
                } else if ib <= j < ib + c {
                    old(image)@[ia + (j - ib)]
                } else {
                    old(image)@[j]
                },
        decreases channels - c,
    {
        image.swap(ia + c, ib + c);
        c += 1;
    }
    proof {
        assert forall|x: int, y: int|
            old(image).contains(x, y) && (x != first.x || y != first.y) && (x != second.x || y
                != second.y) implies #[trigger] image.spec_pixel(x, y) == old(image).spec_pixel(
            x,
            y,
        ) by {
            old(image).lemma_pixel_in_buffer(x, y);
            lemma_pixels_apart(x, y, first.x as int, first.y as int, w, ch);
            lemma_pixels_apart(x, y, second.x as int, second.y as int, w, ch);
        }
    }
}

/// Whether the half turn in progress has already exchanged pixel `(a, b)`
/// with its mirror image, when it works through the left half of the grid
/// column by column and stands at column `x`, row `y`.
pub open spec fn spec_half_done(a: int, b: int, width: int, height: int, x: int, y: int) -> bool {
    let ma = width - 1 - a;
    let mb = height - 1 - b;
    ||| a < width / 2 && (a < x || (a == x && b < y))
    ||| ma < width / 2 && (ma < x || (ma == x && mb < y))
}

/// Turns the image by half a turn, in place: every pixel changes places
/// with the pixel opposite to it across the centre, each pair once.
fn half_turn(image: &mut Image, angle: i32)
    requires
        old(image).wf(),
        Point::turns_half(angle as int),
    ensures
        final(image).wf(),
        spec_is_turned(old(image), final(image), angle as int),
{
    let shape: Shape = image.shape();
    let width: usize = shape.width;
    let height: usize = shape.height;
    let ghost w = width as int;
    let ghost h = height as int;
    let mut x: usize = 0;
    while x < width / 2
        invariant
            image.wf(),
            image.same_frame(old(image)),
            shape == old(image).spec_shape(),
            width == shape.width,
            height == shape.height,
            w == width,
            h == height,
            Point::turns_half(angle as int),
            x <= width / 2,
            forall|a: int, b: int|
                old(image).contains(a, b) ==> #[trigger] image.spec_pixel(a, b)
                    == if spec_half_done(a, b, w, h, x as int, 0) {
                    old(image).spec_pixel(w - 1 - a, h - 1 - b)
                } else {
                    old(image).spec_pixel(a, b)
                },
        decreases width / 2 - x,
    {
        let mut y: usize = 0;
        while y < height
            invariant
                image.wf(),
                image.same_frame(old(image)),
                shape == old(image).spec_shape(),
                width == shape.width,
                height == shape.height,
                w == width,
                h == height,
                Point::turns_half(angle as int),
                x < width / 2,
                y <= height,
                forall|a: int, b: int|
                    old(image).contains(a, b) ==> #[trigger] image.spec_pixel(a, b)
                        == if spec_half_done(a, b, w, h, x as int, y as int) {
                        old(image).spec_pixel(w - 1 - a, h - 1 - b)
                    } else {
                        old(image).spec_pixel(a, b)
                    },
            decreases height - y,
        {
            let here = Point::new(x, y);
            let there = here.relocate(&shape, angle);
            swap_pixels(image, &here, &there);
            y += 1;
        }
        x += 1;
    }
    if width % 2 == 1 {
        let middle: usize = width / 2;
        let mut y: usize = 0;
        while y < height / 2
            invariant
                image.wf(),
                image.same_frame(old(image)),
                shape == old(image).spec_shape(),
                width == shape.width,
                height == shape.height,
                w == width,
                h == height,
                Point::turns_half(angle as int),
                width % 2 == 1,
                middle == width / 2,
                y <= height / 2,
                forall|a: int, b: int|
                    old(image).contains(a, b) ==> #[trigger] image.spec_pixel(a, b) == if a
                        != middle || b < y || h - 1 - b < y {
                        old(image).spec_pixel(w - 1 - a, h - 1 - b)
                    } else {
                        old(image).spec_pixel(a, b)
                    },
            decreases height / 2 - y,
        {
            let here = Point::new(middle, y);
            let there = here.relocate(&shape, angle);
            swap_pixels(image, &here, &there);
            y += 1;
        }
    }
}

/// Turns the image by a quarter turn: a new grid with width and height
/// exchanged receives every pixel at the place it is turned to, and takes
/// the place of the old one.
fn quarter_turn(image: &mut Image, angle: i32)
    requires
        old(image).wf(),
        Point::turns_right(angle as int) || Point::turns_left(angle as int),
    ensures
        final(image).wf(),
        spec_is_turned(old(image), final(image), angle as int),
{
    let shape: Shape = image.shape();
    let width: usize = shape.width;
    let height: usize = shape.height;
    let channels: usize = shape.ndim;
    let size: usize = image.size();
    let turned = Shape { width: height, height: width, ndim: channels };
    let ghost w = width as int;
    let ghost h = height as int;
    let ghost ch = channels as int;
    proof {
        assert(h * w * ch == w * h * ch) by (nonlinear_arith);
    }
    let mut rotated: Vec<u8> = vec![0u8; size];
    let mut x: usize = 0;
    while x < width
        invariant
            image.wf(),
            *image == *old(image),
            shape == image.spec_shape(),
            width == shape.width,
            height == shape.height,
            channels == shape.ndim,
            turned == (Shape { width: height, height: width, ndim: channels }),
            w == width,
            h == height,
            ch == channels,
            size == w * h * ch,
            rotated@.len() == size,
            Point::turns_right(angle as int) || Point::turns_left(angle as int),
            x <= width,
            forall|u: int, v: int|
                image.contains(u, v) && u < x ==> spec_pixel_at(
                    rotated@,
                    h,
                    ch,
                    spec_turn(u, v, w, h, angle as int).0,
                    spec_turn(u, v, w, h, angle as int).1,
                ) == #[trigger] image.spec_pixel(u, v),
        decreases width - x,
    {
        let mut y: usize = 0;
        while y < height
            invariant
                image.wf(),
                *image == *old(image),
                shape == image.spec_shape(),
                width == shape.width,
                height == shape.height,
                channels == shape.ndim,
                turned == (Shape { width: height, height: width, ndim: channels }),
                w == width,
                h == height,
                ch == channels,
                size == w * h * ch,
                rotated@.len() == size,
                Point::turns_right(angle as int) || Point::turns_left(angle as int),
                x < width,
                y <= height,
                forall|u: int, v: int|
                    image.contains(u, v) && (u < x || (u == x && v < y)) ==> spec_pixel_at(
                        rotated@,
                        h,
                        ch,
                        spec_turn(u, v, w, h, angle as int).0,
                        spec_turn(u, v, w, h, angle as int).1,
                    ) == #[trigger] image.spec_pixel(u, v),
            decreases height - y,
        {
            let here = Point::new(x, y);
            let there = here.relocate(&shape, angle);
            proof {
                image.lemma_pixel_in_buffer(x as int, y as int);
                geometry::lemma_index_in_grid(there.x as int, there.y as int, h, w, ch);
            }
            let idx_a: usize = match image.get_index(&here) {
                Ok(index) => index,
                Err(_) => 0,
            };
            let idx_b: usize = match geometry::get_index_from_point_and_shape(there, &turned) {
                Ok(index) => index,
                Err(_) => 0,
            };
            let source = image.slice(idx_a, idx_a + channels);
            let ghost before = rotated@;
            let mut c: usize = 0;
            while c < channels
                invariant
                    c <= channels,
                    source@.len() == channels,
                    idx_b + channels <= size,
                    rotated@.len() == size,
                    before.len() == size,
                    forall|j: int|
                        0 <= j < size ==> rotated@[j] == if idx_b <= j < idx_b + c {
                            source@[j - idx_b]
                        } else {
                            before[j]
                        },
                decreases channels - c,
            {
                rotated[idx_b + c] = source[c];
                c += 1;
            }
            proof {
                assert forall|u: int, v: int|
                    image.contains(u, v) && (u < x || (u == x && v < y + 1)) implies spec_pixel_at(
                    rotated@,
                    h,
                    ch,
                    spec_turn(u, v, w, h, angle as int).0,
                    spec_turn(u, v, w, h, angle as int).1,
                ) == #[trigger] image.spec_pixel(u, v) by {
                    let t = spec_turn(u, v, w, h, angle as int);
                    if u != x || v != y {
                        // A pixel that was placed before lies elsewhere in the
                        // turned grid and is not written over.
                        geometry::lemma_index_in_grid(t.0, t.1, h, w, ch);
                        lemma_pixels_apart(t.0, t.1, there.x as int, there.y as int, h, ch);
                    }
                }
            }
            y += 1;
        }
        x += 1;
    }
    let colorspace = image.colorspace();
    match Image::from_data(rotated, turned, colorspace) {
        Ok(fresh) => {
            *image = fresh;
        },
        Err(_) => {},
    }
}

impl Rotatable<RotationType> for Image {
    open spec fn rotate_req(&self) -> bool {
        self.wf()
    }

    /// Turns the image by a quarter, a half or three quarters of a turn in
    /// either direction. Half turns work in place and keep the shape;
    /// quarter turns build the turned grid anew, with width and height
    /// exchanged. A turn by any other angle is refused and the image is
    /// kept.
    fn rotate(&mut self, value: RotationType) -> (outcome: Result<(), Error>)
        ensures
            final(self).wf(),
            match value {
                RotationType::Custom(_) => {
                    &&& outcome matches Err(e) && e is NotImplemented
                    &&& final(self)@ == old(self)@
                    &&& final(self).same_frame(old(self))
                },
                _ => outcome is Ok && spec_is_turned(
                    old(self),
                    final(self),
                    value.spec_degree() as int,
                ),
            },
    {
        match value {
            RotationType::Custom(_) => Err(
                Error::NotImplemented("Rotation by an arbitrary angle".to_string()),
            ),
            RotationType::Clockwise180 | RotationType::Anticlockwise180 => {
                half_turn(self, value.degree());
                Ok(())
            },
            _ => {
                quarter_turn(self, value.degree());
                Ok(())
            },
        }
    }
}

impl Rotatable<i32> for Image {
    open spec fn rotate_req(&self) -> bool {
        self.wf()
    }

    /// Turning by a number of degrees is not available: every request is
    /// refused and the image is kept.
    #[allow(unused_variables)]
    fn rotate(&mut self, value: i32) -> (outcome: Result<(), Error>)
        ensures
            outcome matches Err(e) && e is NotImplemented,
            final(self)@ == old(self)@,
            final(self).same_frame(old(self)),
    {
        Err(Error::NotImplemented("Rotation by a number of degrees".to_string()))
    }
}

/// Two half turns, in whichever directions, give the image back: the
/// second result has the shape, the colour space and the bytes of the
/// image that was turned first.
pub proof fn lemma_half_turn_twice(start: Image, once: Image, twice: Image, first: int, second: int)
    requires
        start.wf(),
        once.wf(),
        twice.wf(),
        Point::turns_half(first),
        Point::turns_half(second),
        spec_is_turned(&start, &once, first),
        spec_is_turned(&once, &twice, second),
    ensures
        twice.same_frame(&start),
        twice@ == start@,
{
    lemma_pixels_determine_view(twice, start);
}

/// A quarter turn to the right followed by a quarter turn to the left, or
/// the other way round, gives the image back.
pub proof fn lemma_quarter_turn_back(
    start: Image,
    once: Image,
    twice: Image,
    first: int,
    second: int,
)
    requires
        start.wf(),
        once.wf(),
        twice.wf(),
        (Point::turns_right(first) && Point::turns_left(second)) || (Point::turns_left(first)
            && Point::turns_right(second)),
        spec_is_turned(&start, &once, first),
        spec_is_turned(&once, &twice, second),
    ensures
        twice.same_frame(&start),
        twice@ == start@,
{
    lemma_pixels_determine_view(twice, start);
}

} // verus!
