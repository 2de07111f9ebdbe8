//! The bytes of a box cut out of a grid, and where its pixels come from.
use super::pixels::spec_pixel_at;
use crate::geometry;
use vstd::prelude::*;

verus! {

/// The first `rows` rows of the box that starts at pixel `(x0, y0)` and is
/// `span` pixels wide, cut out of the buffer `data` of a grid that is
/// `width` pixels wide with `channels` bytes per pixel.
pub open spec fn spec_cropped(
    data: Seq<u8>,
    width: int,
    channels: int,
    x0: int,
    y0: int,
    span: int,
    rows: int,
) -> Seq<u8>
    decreases rows,
{
    if rows <= 0 {
        Seq::empty()
    } else {
        spec_cropped(data, width, channels, x0, y0, span, rows - 1) + data.subrange(
            geometry::spec_index(x0, y0 + rows - 1, width, channels),
            geometry::spec_index(x0, y0 + rows - 1, width, channels) + span * channels,
        )
    }
}

/// A row of a box inside a grid lies inside the grid's buffer, and the
/// pixels of the row follow one another in it.
pub proof fn lemma_box_row(
    width: int,
    height: int,
    channels: int,
    x0: int,
    y0: int,
    span: int,
    rows: int,
    x: int,
    y: int,
)
    requires
        0 <= x0,
        0 <= y0,
        0 <= span,
        0 <= channels,
        x0 + span <= width,
        y0 + rows <= height,
        0 <= y < rows,
        0 <= x <= span,
    ensures
        0 <= geometry::spec_index(x0, y0 + y, width, channels),
        geometry::spec_index(x0, y0 + y, width, channels) + span * channels <= width * height
            * channels,
        geometry::spec_index(x0 + x, y0 + y, width, channels) == geometry::spec_index(
            x0,
            y0 + y,
            width,
            channels,
        ) + x * channels,
        0 <= x * channels <= span * channels,
        y * (span * channels) + x * channels == geometry::spec_index(x, y, span, channels),
        (y + 1) * (span * channels) == y * (span * channels) + span * channels,
        0 <= y * (span * channels),
        (y + 1) * (span * channels) <= rows * (span * channels),
        (x + 1) * channels == x * channels + channels,
        0 <= (y0 + y) * width,
        (y0 + y) * width + x0 + span <= width * height,
{
    let row = (y0 + y) * width;
    assert((x + 1) * channels == x * channels + channels) by (nonlinear_arith);
    assert(0 <= row && row + width <= height * width) by (nonlinear_arith)
        requires
            0 <= y0 + y < height,
            0 <= width,
            row == (y0 + y) * width,
    ;
    assert((row + x0 + x) * channels == (row + x0) * channels + x * channels && 0 <= (row + x0)
        * channels && 0 <= x * channels <= span * channels && (row + x0) * channels + span
        * channels <= (height * width) * channels) by (nonlinear_arith)
        requires
            0 <= row,
            0 <= x0,
            0 <= x <= span,
            0 <= channels,
            row + x0 + span <= height * width,
    ;
    assert(height * width * channels == width * height * channels) by (nonlinear_arith);
    assert(y * (span * channels) + x * channels == (y * span + x) * channels && (y + 1) * (span
        * channels) == y * (span * channels) + span * channels && 0 <= y * (span * channels) && (y
        + 1) * (span * channels) <= rows * (span * channels)) by (nonlinear_arith)
        requires
            0 <= y < rows,
            0 <= span,
            0 <= channels,
    ;
}

/// A box of `rows` rows cut out of a grid takes `rows * span * channels`
/// bytes.
pub proof fn lemma_cropped_len(
    data: Seq<u8>,
    width: int,
    height: int,
    channels: int,
    x0: int,
    y0: int,
    span: int,
    rows: int,
)
    requires
        0 <= x0,
        0 <= y0,
        0 <= span,
        0 <= channels,
        0 <= rows,
        x0 + span <= width,
        y0 + rows <= height,
        data.len() == width * height * channels,
    ensures
        spec_cropped(data, width, channels, x0, y0, span, rows).len() == rows * (span * channels),
    decreases rows,
{
    if rows > 0 {
        lemma_box_row(width, height, channels, x0, y0, span, rows, 0, rows - 1);
        lemma_cropped_len(data, width, height, channels, x0, y0, span, rows - 1);
    } else {
        assert(rows * (span * channels) == 0) by (nonlinear_arith)
            requires
                rows == 0,
        ;
    }
}

/// Pixel `(x, y)` of a box cut out of a grid is the pixel of the grid that
/// lies `(x, y)` away from the corner of the box.
pub proof fn lemma_cropped_pixel(
    data: Seq<u8>,
    width: int,
    height: int,
    channels: int,
    x0: int,
    y0: int,
    span: int,
    rows: int,
    x: int,
    y: int,
)
    requires
        0 <= x0,
        0 <= y0,
        0 <= span,
        0 <= channels,
        x0 + span <= width,
        y0 + rows <= height,
        data.len() == width * height * channels,
        0 <= x < span,
        0 <= y < rows,
    ensures
        spec_pixel_at(
            spec_cropped(data, width, channels, x0, y0, span, rows),
            span,
            channels,
            x,
            y,
        ) == spec_pixel_at(data, width, channels, x0 + x, y0 + y),
    decreases rows,
{
    lemma_cropped_len(data, width, height, channels, x0, y0, span, rows);
    lemma_cropped_len(data, width, height, channels, x0, y0, span, rows - 1);
    lemma_box_row(width, height, channels, x0, y0, span, rows, x, y);
    lemma_box_row(width, height, channels, x0, y0, span, rows, x + 1, y);
    lemma_box_row(width, height, channels, x0, y0, span, rows, 0, rows - 1);
    if y < rows - 1 {
        // The pixel lies in the box of the rows before the last, which the
        // box of all rows starts with.
        lemma_cropped_pixel(data, width, height, channels, x0, y0, span, rows - 1, x, y);
        lemma_box_row(width, height, channels, x0, y0, span, rows - 1, x + 1, y);
    }
}

} // verus!
