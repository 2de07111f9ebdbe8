//! Pixels as ranges of bytes: where they lie in a buffer and how they keep
//! apart.
use super::Image;
use crate::geometry;
use vstd::prelude::*;

verus! {

/// The bytes of pixel `(x, y)` in the buffer `data` of a grid that is
/// `width` pixels wide with `channels` bytes per pixel.
pub open spec fn spec_pixel_at(data: Seq<u8>, width: int, channels: int, x: int, y: int) -> Seq<
    u8,
> {
    data.subrange(
        geometry::spec_index(x, y, width, channels),
        geometry::spec_index(x, y, width, channels) + channels,
    )
}

/// The bytes `data` with the pixel that starts at offset `index` replaced by
/// the bytes `pixel`.
pub open spec fn spec_painted(data: Seq<u8>, index: int, pixel: Seq<u8>) -> Seq<u8> {
    data.subrange(0, index) + pixel + data.subrange(index + pixel.len(), data.len() as int)
}

/// Replacing the bytes of one pixel changes that pixel and no other.
pub proof fn lemma_painted_pixels(before: Image, after: Image, px: int, py: int, pixel: Seq<u8>)
    requires
        before.wf(),
        after.same_frame(&before),
        before.contains(px, py),
        pixel.len() == before.spec_channels(),
        after@ == spec_painted(before@, before.spec_index(px, py), pixel),
    ensures
        after.wf(),
        after.spec_pixel(px, py) == pixel,
        forall|x: int, y: int|
            before.contains(x, y) && (x != px || y != py) ==> #[trigger] after.spec_pixel(x, y)
                == before.spec_pixel(x, y),
{
    let w = before.spec_width() as int;
    let ch = before.spec_channels() as int;
    before.lemma_pixel_in_buffer(px, py);
    assert forall|x: int, y: int| before.contains(x, y) && (x != px || y != py) implies (
    #[trigger] after.spec_pixel(x, y)) == before.spec_pixel(x, y) by {
        before.lemma_pixel_in_buffer(x, y);
        if y < py || (y == py && x < px) {
            geometry::lemma_index_orders_pixels(x, y, px, py, w, ch);
        } else {
            geometry::lemma_index_orders_pixels(px, py, x, y, w, ch);
        }
    }
}

/// The bytes of two different pixels of a grid do not overlap.
pub proof fn lemma_pixels_apart(x1: int, y1: int, x2: int, y2: int, width: int, channels: int)
    requires
        0 <= x1 < width,
        0 <= x2 < width,
        0 <= y1,
        0 <= y2,
        0 <= channels,
        x1 != x2 || y1 != y2,
    ensures
        geometry::spec_index(x1, y1, width, channels) + channels <= geometry::spec_index(
            x2,
            y2,
            width,
            channels,
        ) || geometry::spec_index(x2, y2, width, channels) + channels <= geometry::spec_index(
            x1,
            y1,
            width,
            channels,
        ),
{
    if y1 < y2 || (y1 == y2 && x1 < x2) {
        geometry::lemma_index_orders_pixels(x1, y1, x2, y2, width, channels);
    } else {
        geometry::lemma_index_orders_pixels(x2, y2, x1, y1, width, channels);
    }
}

/// An image is what its pixels are: two images of the same shape and colour
/// space that agree on every pixel hold the same bytes.
pub proof fn lemma_pixels_determine_view(a: Image, b: Image)
    requires
        a.wf(),
        b.wf(),
        a.same_frame(&b),
        forall|x: int, y: int| a.contains(x, y) ==> a.spec_pixel(x, y) == b.spec_pixel(x, y),
    ensures
        a@ == b@,
{
    let w = a.spec_width() as int;
    let h = a.spec_height() as int;
    let ch = a.spec_channels() as int;
    assert forall|i: int| 0 <= i < a@.len() implies a@[i] == b@[i] by {
        assert(w > 0 && h > 0 && ch > 0) by (nonlinear_arith)
            requires
                0 <= i < w * h * ch,
                0 <= w,
                0 <= h,
                0 <= ch,
        ;
        let q = i / ch;
        let c = i % ch;
        let y = q / w;
        let x = q % w;
        assert(i == q * ch + c && 0 <= c < ch && 0 <= q && q < w * h) by (nonlinear_arith)
            requires
                q == i / ch,
                c == i % ch,
                0 <= i < w * h * ch,
                ch > 0,
        ;
        assert(q == y * w + x && 0 <= x < w && 0 <= y && y < h) by (nonlinear_arith)
            requires
                y == q / w,
                x == q % w,
                0 <= q < w * h,
                w > 0,
        ;
        a.lemma_pixel_in_buffer(x, y);
        assert(b.spec_pixel(x, y)[c] == b@[i]);
    }
}

/// The last pixel of the last row lies inside the grid, and the place one
/// step to the right of it does not.
pub proof fn lemma_corner_is_last(image: Image)
    requires
        image.wf(),
        image.spec_width() > 0,
        image.spec_height() > 0,
    ensures
        image.contains(image.spec_width() - 1, image.spec_height() - 1),
        !image.contains(image.spec_width() as int, image.spec_height() - 1),
{
}

} // verus!
