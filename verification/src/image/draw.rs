//! Drawing rectangles and circles on an image.
//!
//! Figures are drawn pixel by pixel and never clipped. What a figure leaves
//! behind is stated pixel by pixel too: for every pixel of the image, the
//! bytes it holds once the figure is drawn.
use super::Image;
use crate::color::Color;
use crate::error::Error;
use crate::geometry::Point;
use crate::traits::draw::{CircleParams, Drawable, Drawing, RectParams};
use vstd::prelude::*;

verus! {

/// Paints the pixel at `(x, y)`, where the coordinates may be any whole
/// numbers: a pixel outside the grid is refused and nothing is written.
fn paint(image: &mut Image, x: i128, y: i128, color: &Color) -> (outcome: Result<(), Error>)
    requires
        old(image).wf(),
    ensures
        final(image).wf(),
        final(image).same_frame(old(image)),
        outcome is Ok <==> old(image).contains(x as int, y as int),
        outcome matches Err(e) ==> e is IndexOutOfBounds && final(image)@ == old(image)@,
        outcome is Ok ==> final(image).spec_pixel(x as int, y as int) == color.spec_pixel(
            old(image).spec_channels() as int,
        ),
        forall|a: int, b: int|
            old(image).contains(a, b) && (a != x || b != y) ==> #[trigger] final(image).spec_pixel(
                a,
                b,
            ) == old(image).spec_pixel(a, b),
{
    if x < 0 || y < 0 || x > usize::MAX as i128 || y > usize::MAX as i128 {
        return Err(Error::IndexOutOfBounds("Invalid coordinates".to_string()));
    }
    let point = Point::new(x as usize, y as usize);
    image.set_pixel(&point, color)
}

/// The thickness of the outline that was asked for; 0 if none was.
pub open spec fn spec_border(params: &RectParams) -> int {
    match params.border_width {
        Some(value) => value as int,
        None => 0,
    }
}

/// How far the outline reaches to either side of the rectangle's edge: half
/// the thickness, rounded down.
pub open spec fn spec_half(params: &RectParams) -> int {
    spec_border(params) / 2
}

/// The length of each of the four strokes: the width of the rectangle plus
/// the thickness of the outline.
pub open spec fn spec_reach(params: &RectParams) -> int {
    params.shape.width + spec_border(params)
}

/// Whether `(i, k)` is a step of the outline: `i` is a position along the
/// strokes and `k` a position across them.
pub open spec fn spec_stroke_step(params: &RectParams, i: int, k: int) -> bool {
    0 <= i < spec_reach(params) && -spec_half(params) <= k <= spec_half(params)
}

/// Whether step `(i, k)` comes before step `(i_end, k_end)` in the order in
/// which the outline is painted: along the strokes first, across them
/// second.
pub open spec fn spec_step_before(i: int, k: int, i_end: int, k_end: int) -> bool {
    i < i_end || (i == i_end && k < k_end)
}

/// The pixel of the top stroke at step `(i, k)`.
pub open spec fn spec_top(params: &RectParams, i: int, k: int) -> (int, int) {
    (params.topleft.x + i - spec_half(params), params.topleft.y + k)
}

/// The pixel of the left stroke at step `(i, k)`.
pub open spec fn spec_left(params: &RectParams, i: int, k: int) -> (int, int) {
    (params.topleft.x + k, params.topleft.y + i - spec_half(params))
}

/// The pixel of the right stroke at step `(i, k)`.
pub open spec fn spec_right(params: &RectParams, i: int, k: int) -> (int, int) {
    (params.topleft.x + params.shape.width - k, params.topleft.y + i - spec_half(params))
}

/// The pixel of the bottom stroke at step `(i, k)`.
pub open spec fn spec_bottom(params: &RectParams, i: int, k: int) -> (int, int) {
    (params.topleft.x + i - spec_half(params), params.topleft.y + params.shape.height - k)
}

/// Whether pixel `(x, y)` is painted by a step of the outline that comes
/// before step `(i_end, k_end)`.
pub open spec fn spec_stroked(
    params: &RectParams,
    x: int,
    y: int,
    i_end: int,
    k_end: int,
) -> bool {
    let along_x = x - params.topleft.x + spec_half(params);
    let along_y = y - params.topleft.y + spec_half(params);
    let top = y - params.topleft.y;
    let left = x - params.topleft.x;
    let right = params.topleft.x + params.shape.width - x;
    let bottom = params.topleft.y + params.shape.height - y;
    ||| spec_stroke_step(params, along_x, top) && spec_step_before(along_x, top, i_end, k_end)
    ||| spec_stroke_step(params, along_y, left) && spec_step_before(along_y, left, i_end, k_end)
    ||| spec_stroke_step(params, along_y, right) && spec_step_before(along_y, right, i_end, k_end)
    ||| spec_stroke_step(params, along_x, bottom) && spec_step_before(
        along_x,
        bottom,
        i_end,
        k_end,
    )
}

/// Whether pixel `(x, y)` belongs to the outline: to the top, left, right or
/// bottom stroke.
pub open spec fn spec_on_border(params: &RectParams, x: int, y: int) -> bool {
    spec_stroked(params, x, y, spec_reach(params), -spec_half(params))
}

/// Whether the four pixels of step `(i, k)` lie inside the image.
pub open spec fn spec_step_inside(image: &Image, params: &RectParams, i: int, k: int) -> bool {
    &&& image.contains(spec_top(params, i, k).0, spec_top(params, i, k).1)
    &&& image.contains(spec_left(params, i, k).0, spec_left(params, i, k).1)
    &&& image.contains(spec_right(params, i, k).0, spec_right(params, i, k).1)
    &&& image.contains(spec_bottom(params, i, k).0, spec_bottom(params, i, k).1)
}

/// Whether every pixel of the outline lies inside the image.
pub open spec fn spec_border_inside(image: &Image, params: &RectParams) -> bool {
    forall|i: int, k: int|
        spec_stroke_step(params, i, k) ==> #[trigger] spec_step_inside(image, params, i, k)
}

/// Whether pixel `(x, y)` belongs to the inside that a fill covers: the box
/// from the top-left corner to the opposite corner, both corners counted.
pub open spec fn spec_in_fill(params: &RectParams, x: int, y: int) -> bool {
    &&& params.topleft.x <= x <= params.topleft.x + params.shape.width
    &&& params.topleft.y <= y <= params.topleft.y + params.shape.height
}

/// Whether every pixel that a fill covers lies inside the image, which is
/// so exactly when the far corner does.
pub open spec fn spec_fill_inside(image: &Image, params: &RectParams) -> bool {
    image.contains(
        params.topleft.x + params.shape.width,
        params.topleft.y + params.shape.height,
    )
}

/// Whether the whole figure lies inside the image: the outline, and the
/// inside if it is to be filled.
pub open spec fn spec_rect_inside(image: &Image, params: &RectParams) -> bool {
    &&& params.fill_color is Some ==> spec_fill_inside(image, params)
    &&& spec_border_inside(image, params)
}

/// Whether pixel `(x, y)` belongs to the figure: to the outline, or to the
/// inside if it is to be filled.
pub open spec fn spec_on_figure(params: &RectParams, x: int, y: int) -> bool {
    spec_on_border(params, x, y) || (params.fill_color is Some && spec_in_fill(params, x, y))
}

/// The bytes of pixel `(x, y)` once the figure is drawn on `image`: the
/// outline's colour on the outline, the fill colour on the rest of a filled
/// inside, and what the image held everywhere else.
pub open spec fn spec_rect_pixel(image: &Image, params: &RectParams, x: int, y: int) -> Seq<u8> {
    if spec_on_border(params, x, y) {
        params.color.spec_pixel(image.spec_channels() as int)
    } else if params.fill_color is Some && spec_in_fill(params, x, y) {
        params.fill_color->0.spec_pixel(image.spec_channels() as int)
    } else {
        image.spec_pixel(x, y)
    }
}

/// Paints the inside of the rectangle, corners and edges counted, with
/// `color`, column by column. Nothing is clipped: if any of it lies outside
/// the image the fill is refused, and the image may be left painted in
/// part. Pixels outside the rectangle are not touched either way.
pub fn fill_rect(image: &mut Image, params: &RectParams, color: &Color) -> (outcome: Result<
    (),
    Error,
>)
    requires
        old(image).wf(),
    ensures
        final(image).wf(),
        final(image).same_frame(old(image)),
        outcome is Ok <==> spec_fill_inside(old(image), params),
        outcome matches Err(e) ==> e is IndexOutOfBounds,
        forall|x: int, y: int|
            old(image).contains(x, y) && !spec_in_fill(params, x, y)
                ==> #[trigger] final(image).spec_pixel(x, y) == old(image).spec_pixel(
                x,
                y,
            ),
        outcome is Ok ==> forall|x: int, y: int|
            old(image).contains(x, y) ==> #[trigger] final(image).spec_pixel(x, y)
                == if spec_in_fill(params, x, y) {
                color.spec_pixel(old(image).spec_channels() as int)
            } else {
                old(image).spec_pixel(x, y)
            },
{
    let x0: i128 = params.topleft.x as i128;
    let y0: i128 = params.topleft.y as i128;
    let x1: i128 = x0 + params.shape.width as i128;
    let y1: i128 = y0 + params.shape.height as i128;
    let ghost px = color.spec_pixel(old(image).spec_channels() as int);
    let mut i: i128 = x0;
    while i <= x1
        invariant
            image.wf(),
            image.same_frame(old(image)),
            x0 == params.topleft.x,
            y0 == params.topleft.y,
            x1 == x0 + params.shape.width,
            y1 == y0 + params.shape.height,
            x0 <= i <= x1 + 1,
            px == color.spec_pixel(old(image).spec_channels() as int),
            x0 < i ==> old(image).contains(i - 1, y1 as int),
            forall|x: int, y: int|
                old(image).contains(x, y) ==> #[trigger] image.spec_pixel(x, y) == if x0 <= x < i
                    && y0 <= y <= y1 {
                    px
                } else {
                    old(image).spec_pixel(x, y)
                },
        decreases x1 + 1 - i,
    {
        let mut j: i128 = y0;
        while j <= y1
            invariant
                image.wf(),
                image.same_frame(old(image)),
                x0 == params.topleft.x,
                y0 == params.topleft.y,
                x1 == x0 + params.shape.width,
                y1 == y0 + params.shape.height,
                x0 <= i <= x1,
                y0 <= j <= y1 + 1,
                px == color.spec_pixel(old(image).spec_channels() as int),
                y0 < j ==> old(image).contains(i as int, j - 1),
                forall|x: int, y: int|
                    old(image).contains(x, y) ==> #[trigger] image.spec_pixel(x, y) == if y0 <= y
                        <= y1 && (x0 <= x < i || (x == i && y < j)) {
                        px
                    } else {
                        old(image).spec_pixel(x, y)
                    },
            decreases y1 + 1 - j,
        {
            match paint(image, i, j, color) {
                Ok(()) => {},
                Err(e) => {
                    return Err(e);
                },
            }
            j += 1;
        }
        i += 1;
    }
    Ok(())
}

/// Paints the outline of the rectangle with the outline's colour: for each
/// position along the strokes and each position across them, one pixel of
/// the top, the left, the right and the bottom stroke. Nothing is clipped:
/// if any of these pixels lies outside the image the outline is refused, and
/// the image may be left painted in part. Pixels off the outline are not
/// touched either way.
pub fn stroke_rect(image: &mut Image, params: &RectParams) -> (outcome: Result<(), Error>)
    requires
        old(image).wf(),
    ensures
        final(image).wf(),
        final(image).same_frame(old(image)),
        outcome is Ok <==> spec_border_inside(old(image), params),
        outcome matches Err(e) ==> e is IndexOutOfBounds,
        forall|x: int, y: int|
            old(image).contains(x, y) && !spec_on_border(params, x, y)
                ==> #[trigger] final(image).spec_pixel(x, y) == old(image).spec_pixel(
                x,
                y,
            ),
        outcome is Ok ==> forall|x: int, y: int|
            old(image).contains(x, y) ==> #[trigger] final(image).spec_pixel(x, y)
                == if spec_on_border(params, x, y) {
                params.color.spec_pixel(old(image).spec_channels() as int)
            } else {
                old(image).spec_pixel(x, y)
            },
{
    let border: usize = match params.border_width {
        Some(value) => value,
        None => 0,
    };
    let half: i128 = (border / 2) as i128;
    let reach: i128 = params.shape.width as i128 + border as i128;
    let x0: i128 = params.topleft.x as i128;
    let y0: i128 = params.topleft.y as i128;
    let x1: i128 = x0 + params.shape.width as i128;
    let y1: i128 = y0 + params.shape.height as i128;
    let ghost px = params.color.spec_pixel(old(image).spec_channels() as int);
    let mut i: i128 = 0;
    while i < reach
        invariant
            image.wf(),
            image.same_frame(old(image)),
            half == spec_half(params),
            reach == spec_reach(params),
            x0 == params.topleft.x,
            y0 == params.topleft.y,
            x1 == x0 + params.shape.width,
            y1 == y0 + params.shape.height,
            0 <= half <= usize::MAX,
            0 <= i <= reach,
            px == params.color.spec_pixel(old(image).spec_channels() as int),
            forall|x: int, y: int|
                old(image).contains(x, y) ==> #[trigger] image.spec_pixel(x, y) == if spec_stroked(
                    params,
                    x,
                    y,
                    i as int,
                    -half as int,
                ) {
                    px
                } else {
                    old(image).spec_pixel(x, y)
                },
            forall|i2: int, k2: int|
                spec_stroke_step(params, i2, k2) && spec_step_before(i2, k2, i as int, -half as int)
                    ==> #[trigger] spec_step_inside(old(image), params, i2, k2),
        decreases reach - i,
    {
        let mut k: i128 = -half;
        while k <= half
            invariant
                image.wf(),
                image.same_frame(old(image)),
                half == spec_half(params),
                reach == spec_reach(params),
                x0 == params.topleft.x,
                y0 == params.topleft.y,
                x1 == x0 + params.shape.width,
                y1 == y0 + params.shape.height,
                0 <= half <= usize::MAX,
                0 <= i < reach,
                -half <= k <= half + 1,
                px == params.color.spec_pixel(old(image).spec_channels() as int),
                forall|x: int, y: int|
                    old(image).contains(x, y) ==> #[trigger] image.spec_pixel(x, y)
                        == if spec_stroked(params, x, y, i as int, k as int) {
                        px
                    } else {
                        old(image).spec_pixel(x, y)
                    },
                forall|i2: int, k2: int|
                    spec_stroke_step(params, i2, k2) && spec_step_before(
                        i2,
                        k2,
                        i as int,
                        k as int,
                    ) ==> #[trigger] spec_step_inside(old(image), params, i2, k2),
            decreases half + 1 - k,
        {
            match paint(image, x0 + i - half, y0 + k, &params.color) {
                Ok(()) => {},
                Err(e) => {
                    assert(!spec_step_inside(old(image), params, i as int, k as int));
                    return Err(e);
                },
            }
            match paint(image, x0 + k, y0 + i - half, &params.color) {
                Ok(()) => {},
                Err(e) => {
                    assert(!spec_step_inside(old(image), params, i as int, k as int));
                    return Err(e);
                },
            }
            match paint(image, x1 - k, y0 + i - half, &params.color) {
                Ok(()) => {},
                Err(e) => {
                    assert(!spec_step_inside(old(image), params, i as int, k as int));
                    return Err(e);
                },
            }
            match paint(image, x0 + i - half, y1 - k, &params.color) {
                Ok(()) => {},
                Err(e) => {
                    assert(!spec_step_inside(old(image), params, i as int, k as int));
                    return Err(e);
                },
            }
            k += 1;
        }
        i += 1;
    }
    Ok(())
}

impl Drawable<RectParams> for Image {
    open spec fn draw_req(&self, params: &RectParams) -> bool {
        self.wf()
    }

    /// Draws a rectangle: the inside first, if a fill colour is given, and
    /// the outline over it. Nothing is clipped: the figure is drawn in full
    /// or refused, and a refused figure may leave the image painted in part.
    /// Pixels that do not belong to the figure are not touched either way.
    fn draw(&mut self, params: &RectParams) -> (outcome: Result<(), Error>)
        ensures
            final(self).wf(),
            final(self).same_frame(old(self)),
            outcome is Ok <==> spec_rect_inside(old(self), params),
            outcome matches Err(e) ==> e is IndexOutOfBounds,
            forall|x: int, y: int|
                old(self).contains(x, y) && !spec_on_figure(params, x, y)
                    ==> #[trigger] final(self).spec_pixel(x, y) == old(self).spec_pixel(
                    x,
                    y,
                ),
            outcome is Ok ==> forall|x: int, y: int|
                old(self).contains(x, y) ==> #[trigger] final(self).spec_pixel(x, y)
                    == spec_rect_pixel(old(self), params, x, y),
    {
        if let Some(color) = params.fill_color {
            match fill_rect(self, params, &color) {
                Ok(()) => {},
                Err(e) => {
                    return Err(e);
                },
            }
        }
        let ghost filled = *self;
        let outcome = stroke_rect(self, params);
        proof {
            assert forall|i: int, k: int|
                #![trigger spec_step_inside(&filled, params, i, k)]
                #![trigger spec_step_inside(old(self), params, i, k)]
                spec_step_inside(&filled, params, i, k) == spec_step_inside(
                    old(self),
                    params,
                    i,
                    k,
                ) by {}
        }
        outcome
    }
}


/// The bytes of pixel `(a, b)` after one pair of circle points is drawn
/// over `current`: the pixels at `left` and `right` of row `row` get the
/// outline, and the pixels strictly between them get the fill, if there is
/// one.
pub open spec fn spec_pair_pixel(
    current: Seq<u8>,
    left: int,
    right: int,
    row: int,
    outline: Seq<u8>,
    fill: Option<Seq<u8>>,
    a: int,
    b: int,
) -> Seq<u8> {
    if b == row && (a == left || a == right) {
        outline
    } else if fill is Some && b == row && left < a < right {
        fill->0
    } else {
        current
    }
}

/// The bytes of pixel `(a, b)` after one round of the circle is drawn over
/// `current`: the four pairs of points that mirror the offset `(x, y)`
/// around the centre `(cx, cy)`, in the order below-wide, above-wide,
/// below-narrow, above-narrow.
pub open spec fn spec_round_pixel(
    current: Seq<u8>,
    cx: int,
    cy: int,
    x: int,
    y: int,
    outline: Seq<u8>,
    fill: Option<Seq<u8>>,
    a: int,
    b: int,
) -> Seq<u8> {
    let first = spec_pair_pixel(current, cx - x, cx + x, cy + y, outline, fill, a, b);
    let second = spec_pair_pixel(first, cx - x, cx + x, cy - y, outline, fill, a, b);
    let third = spec_pair_pixel(second, cx - y, cx + y, cy + x, outline, fill, a, b);
    spec_pair_pixel(third, cx - y, cx + y, cy - x, outline, fill, a, b)
}

/// The bytes of pixel `(a, b)` after the rest of a circle is drawn over
/// `current` by the midpoint method, from the offset `(x, y)` and the
/// decision value `p` on.
///
/// Each round draws the four pairs of the offset and moves one row on; the
/// decision value says whether the offset also moves one column in. The
/// rounds end when the offset has crossed the diagonal.
pub open spec fn spec_circle_pixel(
    current: Seq<u8>,
    cx: int,
    cy: int,
    x: int,
    y: int,
    p: int,
    outline: Seq<u8>,
    fill: Option<Seq<u8>>,
    a: int,
    b: int,
) -> Seq<u8>
    decreases x - y + 2,
{
    if x < y {
        current
    } else {
        let painted = spec_round_pixel(current, cx, cy, x, y, outline, fill, a, b);
        if p <= 0 {
            spec_circle_pixel(painted, cx, cy, x, y + 1, p + 2 * (y + 1) + 1, outline, fill, a, b)
        } else {
            spec_circle_pixel(
                painted,
                cx,
                cy,
                x - 1,
                y + 1,
                p + 2 * (y + 1) - 2 * (x - 1) + 1,
                outline,
                fill,
                a,
                b,
            )
        }
    }
}

/// The bytes of one pixel of the fill colour, if there is one.
pub open spec fn spec_fill_pixel(fill: Option<Color>, channels: int) -> Option<Seq<u8>> {
    match fill {
        Some(color) => Some(color.spec_pixel(channels)),
        None => None,
    }
}

/// Whether pixel `(a, b)` lies in the square around the circle: no farther
/// from the centre than the radius, in either direction.
pub open spec fn spec_in_square(params: &CircleParams, a: int, b: int) -> bool {
    &&& params.center.x - params.radius <= a <= params.center.x + params.radius
    &&& params.center.y - params.radius <= b <= params.center.y + params.radius
}

/// Whether the whole circle lies inside the image, which is so exactly when
/// the square around it does.
pub open spec fn spec_circle_inside(image: &Image, params: &CircleParams) -> bool {
    &&& image.contains(params.center.x - params.radius, params.center.y - params.radius)
    &&& image.contains(params.center.x + params.radius, params.center.y + params.radius)
}

/// The bytes of pixel `(a, b)` once the circle is drawn on `image`.
pub open spec fn spec_circle_drawn(image: &Image, params: &CircleParams, a: int, b: int) -> Seq<
    u8,
> {
    spec_circle_pixel(
        image.spec_pixel(a, b),
        params.center.x as int,
        params.center.y as int,
        params.radius as int,
        0,
        1 - params.radius,
        params.color.spec_pixel(image.spec_channels() as int),
        spec_fill_pixel(params.fill_color, image.spec_channels() as int),
        a,
        b,
    )
}

/// A circle changes nothing outside the square around it: a pixel farther
/// from the centre than the radius, in either direction, keeps its bytes
/// through every round.
pub proof fn lemma_circle_keeps_outside(
    current: Seq<u8>,
    cx: int,
    cy: int,
    radius: int,
    x: int,
    y: int,
    p: int,
    outline: Seq<u8>,
    fill: Option<Seq<u8>>,
    a: int,
    b: int,
)
    requires
        0 <= y,
        x <= radius,
        a < cx - radius || a > cx + radius || b < cy - radius || b > cy + radius,
    ensures
        spec_circle_pixel(current, cx, cy, x, y, p, outline, fill, a, b) == current,
    decreases x - y + 2,
{
    if x >= y {
        if p <= 0 {
            lemma_circle_keeps_outside(
                current,
                cx,
                cy,
                radius,
                x,
                y + 1,
                p + 2 * (y + 1) + 1,
                outline,
                fill,
                a,
                b,
            );
        } else {
            lemma_circle_keeps_outside(
                current,
                cx,
                cy,
                radius,
                x - 1,
                y + 1,
                p + 2 * (y + 1) - 2 * (x - 1) + 1,
                outline,
                fill,
                a,
                b,
            );
        }
    }
}

/// Drawing a circle leaves every pixel outside the square around the circle
/// as it was.
pub proof fn lemma_circle_stays_in_square(image: &Image, params: &CircleParams, a: int, b: int)
    requires
        a < params.center.x - params.radius || a > params.center.x + params.radius || b
            < params.center.y - params.radius || b > params.center.y + params.radius,
    ensures
        spec_circle_drawn(image, params, a, b) == image.spec_pixel(a, b),
{
    lemma_circle_keeps_outside(
        image.spec_pixel(a, b),
        params.center.x as int,
        params.center.y as int,
        params.radius as int,
        params.radius as int,
        0,
        1 - params.radius,
        params.color.spec_pixel(image.spec_channels() as int),
        spec_fill_pixel(params.fill_color, image.spec_channels() as int),
        a,
        b,
    );
}

/// Draws one pair of circle points in row `row`: the pixels strictly
/// between `left` and `right` with the fill colour, if there is one, and
/// the two end pixels with the outline colour.
fn draw_pair(
    image: &mut Image,
    left: i128,
    right: i128,
    row: i128,
    outline: &Color,
    fill: &Option<Color>,
) -> (outcome: Result<(), Error>)
    requires
        old(image).wf(),
        left <= right,
        -0x1_0000_0000_0000_0000_0000 <= left,
        right <= 0x1_0000_0000_0000_0000_0000,
    ensures
        final(image).wf(),
        final(image).same_frame(old(image)),
        outcome is Ok <==> old(image).contains(left as int, row as int) && old(image).contains(
            right as int,
            row as int,
        ),
        outcome matches Err(e) ==> e is IndexOutOfBounds,
        forall|a: int, b: int|
            old(image).contains(a, b) && (b != row || a < left || a > right)
                ==> #[trigger] final(image).spec_pixel(a, b) == old(image).spec_pixel(
                a,
                b,
            ),
        outcome is Ok ==> forall|a: int, b: int|
            old(image).contains(a, b) ==> #[trigger] final(image).spec_pixel(a, b)
                == spec_pair_pixel(
                old(image).spec_pixel(a, b),
                left as int,
                right as int,
                row as int,
                outline.spec_pixel(old(image).spec_channels() as int),
                spec_fill_pixel(*fill, old(image).spec_channels() as int),
                a,
                b,
            ),
{
    if let Some(color) = fill {
        let ghost px = color.spec_pixel(old(image).spec_channels() as int);
        let mut at: i128 = left;
        while at < right - 1
            invariant
                image.wf(),
                image.same_frame(old(image)),
                left <= at,
                left <= right,
                at < right || at == left,
                -0x1_0000_0000_0000_0000_0000 <= left,
                right <= 0x1_0000_0000_0000_0000_0000,
                px == color.spec_pixel(old(image).spec_channels() as int),
                forall|a: int, b: int|
                    old(image).contains(a, b) ==> #[trigger] image.spec_pixel(a, b) == if b == row
                        && left < a <= at {
                        px
                    } else {
                        old(image).spec_pixel(a, b)
                    },
            decreases right - at,
        {
            at += 1;
            match paint(image, at, row, color) {
                Ok(()) => {},
                Err(e) => {
                    return Err(e);
                },
            }
        }
    }
    match paint(image, left, row, outline) {
        Ok(()) => {},
        Err(e) => {
            return Err(e);
        },
    }
    match paint(image, right, row, outline) {
        Ok(()) => {},
        Err(e) => {
            return Err(e);
        },
    }
    Ok(())
}

impl Drawable<CircleParams> for Image {
    open spec fn draw_req(&self, params: &CircleParams) -> bool {
        self.wf()
    }

    /// Draws a circle by the midpoint method. Each round draws four pairs
    /// of points that mirror one offset around the centre; where a fill
    /// colour is given, the pixels between the two points of a pair are
    /// filled before the pair itself is drawn in the outline colour.
    ///
    /// Nothing is clipped: the circle is drawn in full or refused, and a
    /// refused circle may leave the image painted in part. Pixels outside
    /// the square around the circle are not touched either way.
    fn draw(&mut self, params: &CircleParams) -> (outcome: Result<(), Error>)
        ensures
            final(self).wf(),
            final(self).same_frame(old(self)),
            outcome is Ok <==> spec_circle_inside(old(self), params),
            outcome matches Err(e) ==> e is IndexOutOfBounds,
            forall|a: int, b: int|
                old(self).contains(a, b) && !spec_in_square(params, a, b)
                    ==> #[trigger] final(self).spec_pixel(a, b) == old(self).spec_pixel(
                    a,
                    b,
                ),
            outcome is Ok ==> forall|a: int, b: int|
                old(self).contains(a, b) ==> #[trigger] final(self).spec_pixel(a, b)
                    == spec_circle_drawn(old(self), params, a, b),
    {
        let cx: i128 = params.center.x as i128;
        let cy: i128 = params.center.y as i128;
        let radius: i128 = params.radius as i128;
        let ghost outline = params.color.spec_pixel(old(self).spec_channels() as int);
        let ghost fill = spec_fill_pixel(params.fill_color, old(self).spec_channels() as int);
        let mut x: i128 = radius;
        let mut y: i128 = 0;
        let mut p: i128 = 1 - radius;
        while x >= y
            invariant
                self.wf(),
                self.same_frame(old(self)),
                cx == params.center.x,
                cy == params.center.y,
                radius == params.radius,
                outline == params.color.spec_pixel(old(self).spec_channels() as int),
                fill == spec_fill_pixel(params.fill_color, old(self).spec_channels() as int),
                0 <= y,
                -1 <= x <= radius,
                y == 0 ==> x == radius,
                y >= 1 ==> spec_circle_inside(old(self), params),
                x < y || -2 * x < p <= 2 * y + 1,
                forall|a: int, b: int|
                    old(self).contains(a, b) && !spec_in_square(params, a, b)
                        ==> #[trigger] self.spec_pixel(a, b) == old(self).spec_pixel(a, b),
                forall|a: int, b: int|
                    old(self).contains(a, b) ==> spec_circle_pixel(
                        #[trigger] self.spec_pixel(a, b),
                        cx as int,
                        cy as int,
                        x as int,
                        y as int,
                        p as int,
                        outline,
                        fill,
                        a,
                        b,
                    ) == spec_circle_drawn(old(self), params, a, b),
            decreases x - y + 2,
        {
            match draw_pair(self, cx - x, cx + x, cy + y, &params.color, &params.fill_color) {
                Ok(()) => {},
                Err(e) => {
                    return Err(e);
                },
            }
            match draw_pair(self, cx - x, cx + x, cy - y, &params.color, &params.fill_color) {
                Ok(()) => {},
                Err(e) => {
                    return Err(e);
                },
            }
            match draw_pair(self, cx - y, cx + y, cy + x, &params.color, &params.fill_color) {
                Ok(()) => {},
                Err(e) => {
                    return Err(e);
                },
            }
            match draw_pair(self, cx - y, cx + y, cy - x, &params.color, &params.fill_color) {
                Ok(()) => {},
                Err(e) => {
                    return Err(e);
                },
            }
            y += 1;
            if p <= 0 {
                p = p + 2 * y + 1;
            } else {
                x -= 1;
                p = p + 2 * y - 2 * x + 1;
            }
        }
        Ok(())
    }
}

impl Drawing for Image {
    open spec fn drawing_req(&self) -> bool {
        self.wf()
    }

    /// Draws the outline of the rectangle and leaves its inside alone,
    /// whether or not a fill colour is given.
    fn rect(&mut self, params: &RectParams) -> (outcome: Result<(), Error>)
        ensures
            final(self).wf(),
            final(self).same_frame(old(self)),
            outcome is Ok <==> spec_border_inside(old(self), params),
            outcome matches Err(e) ==> e is IndexOutOfBounds,
            forall|x: int, y: int|
                old(self).contains(x, y) && !spec_on_border(params, x, y)
                    ==> #[trigger] final(self).spec_pixel(x, y) == old(self).spec_pixel(
                    x,
                    y,
                ),
            outcome is Ok ==> forall|x: int, y: int|
                old(self).contains(x, y) ==> #[trigger] final(self).spec_pixel(x, y)
                    == if spec_on_border(params, x, y) {
                    params.color.spec_pixel(old(self).spec_channels() as int)
                } else {
                    old(self).spec_pixel(x, y)
                },
    {
        stroke_rect(self, params)
    }

    /// Draws the outline of a square, which is a rectangle like any other.
    fn square(&mut self, params: &RectParams) -> (outcome: Result<(), Error>)
        ensures
            final(self).wf(),
            final(self).same_frame(old(self)),
            outcome is Ok <==> spec_border_inside(old(self), params),
            outcome matches Err(e) ==> e is IndexOutOfBounds,
            forall|x: int, y: int|
                old(self).contains(x, y) && !spec_on_border(params, x, y)
                    ==> #[trigger] final(self).spec_pixel(x, y) == old(self).spec_pixel(
                    x,
                    y,
                ),
            outcome is Ok ==> forall|x: int, y: int|
                old(self).contains(x, y) ==> #[trigger] final(self).spec_pixel(x, y)
                    == if spec_on_border(params, x, y) {
                    params.color.spec_pixel(old(self).spec_channels() as int)
                } else {
                    old(self).spec_pixel(x, y)
                },
    {
        self.rect(params)
    }

    /// Circles are not drawn by name: every request is refused and the
    /// image is kept. They are drawn as a figure instead.
    #[allow(unused_variables)]
    fn circle(&mut self, params: &CircleParams) -> (outcome: Result<(), Error>)
        ensures
            outcome matches Err(e) && e is NotImplemented,
            final(self)@ == old(self)@,
            final(self).same_frame(old(self)),
    {
        Err(Error::NotImplemented("Drawing a circle by name".to_string()))
    }
}

} // verus!
