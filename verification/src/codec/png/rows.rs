//! The rows of a PNG image: how they are laid out for compression, how
//! filters are taken off them, and how palette indices become colours.
use super::chunk::malformed;
use crate::error::Error;
use vstd::prelude::*;

verus! {

/// Row `y` of a grid of `rows` rows of `stride` bytes lies inside the grid.
pub proof fn lemma_row_bounds(y: int, rows: int, stride: int)
    requires
        0 <= y < rows,
        0 <= stride,
    ensures
        0 <= y * stride,
        (y + 1) * stride == y * stride + stride,
        (y + 1) * stride <= rows * stride,
{
    assert(0 <= y * stride && (y + 1) * stride == y * stride + stride && (y + 1) * stride <= rows
        * stride) by (nonlinear_arith)
        requires
            0 <= y < rows,
            0 <= stride,
    ;
}

/// The first `rows` rows of `pixels`, each `stride` bytes long and each
/// preceded by the filter byte 0, which says the row is stored as it is.
pub open spec fn spec_scanlines(pixels: Seq<u8>, stride: int, rows: int) -> Seq<u8>
    decreases rows,
{
    if rows <= 0 {
        Seq::empty()
    } else {
        spec_scanlines(pixels, stride, rows - 1) + seq![0u8] + pixels.subrange(
            (rows - 1) * stride,
            rows * stride,
        )
    }
}

/// The scanlines of `rows` rows of `stride` bytes take `rows * (stride + 1)`
/// bytes.
pub proof fn lemma_scanlines_len(pixels: Seq<u8>, stride: int, rows: int)
    requires
        0 <= stride,
        0 <= rows,
        rows * stride <= pixels.len(),
    ensures
        spec_scanlines(pixels, stride, rows).len() == rows * (stride + 1),
    decreases rows,
{
    if rows > 0 {
        lemma_row_bounds(rows - 1, rows, stride);
        lemma_row_bounds(rows - 1, rows, stride + 1);
        lemma_scanlines_len(pixels, stride, rows - 1);
    } else {
        assert(rows * (stride + 1) == 0) by (nonlinear_arith)
            requires
                rows == 0,
        ;
    }
}

/// The filter byte of row `y` of `raw`, whose rows hold `stride` bytes
/// behind it.
pub open spec fn spec_filter_byte(raw: Seq<u8>, stride: int, y: int) -> u8 {
    raw[y * (stride + 1)]
}

/// Whether each of the first `rows` rows of `raw` starts with one of the
/// five filter types PNG defines: 0 for none, 1 for sub, 2 for up, 3 for
/// average and 4 for Paeth.
pub open spec fn spec_filters_known(raw: Seq<u8>, stride: int, rows: int) -> bool {
    forall|y: int| 0 <= y < rows ==> #[trigger] spec_filter_byte(raw, stride, y) <= 4u8
}

/// The Paeth predictor: whichever of the bytes to the left (`a`), above
/// (`b`) and above to the left (`c`) lies nearest to `a + b - c`, the
/// earlier one in that order where two lie equally near.
pub open spec fn spec_paeth(a: int, b: int, c: int) -> int {
    let estimate = a + b - c;
    let da = if estimate >= a {
        estimate - a
    } else {
        a - estimate
    };
    let db = if estimate >= b {
        estimate - b
    } else {
        b - estimate
    };
    let dc = if estimate >= c {
        estimate - c
    } else {
        c - estimate
    };
    if da <= db && da <= dc {
        a
    } else if db <= dc {
        b
    } else {
        c
    }
}

/// What the filter of type `filter` predicts for a byte from the bytes to
/// its left (`a`), above it (`b`) and above to its left (`c`).
pub open spec fn spec_predicted(filter: u8, a: u8, b: u8, c: u8) -> int {
    if filter == 1 {
        a as int
    } else if filter == 2 {
        b as int
    } else if filter == 3 {
        (a + b) / 2
    } else if filter == 4 {
        spec_paeth(a as int, b as int, c as int)
    } else {
        0
    }
}

/// The byte that the filter of type `filter` stored as `stored`: the stored
/// byte plus what the filter predicts, modulo 256.
pub open spec fn spec_unfilter_byte(filter: u8, stored: u8, a: u8, b: u8, c: u8) -> u8 {
    ((stored + spec_predicted(filter, a, b, c)) % 256) as u8
}

/// The first `count` bytes of a row with the filter taken off. `line` is
/// the row as stored, `above` is the row above it with its filter taken
/// off, and `bpp` is the number of bytes per pixel. A byte has nothing to
/// its left where it belongs to the first pixel of the row.
pub open spec fn spec_unfilter_row(
    filter: u8,
    line: Seq<u8>,
    above: Seq<u8>,
    bpp: int,
    count: int,
) -> Seq<u8>
    decreases count,
{
    if count <= 0 {
        Seq::empty()
    } else {
        let done = spec_unfilter_row(filter, line, above, bpp, count - 1);
        let i = count - 1;
        let a = if i >= bpp {
            done[i - bpp]
        } else {
            0u8
        };
        let b = above[i];
        let c = if i >= bpp {
            above[i - bpp]
        } else {
            0u8
        };
        done.push(spec_unfilter_byte(filter, line[i], a, b, c))
    }
}

/// The row above the next row to take the filter off, when the rows `done`
/// have theirs taken off already: the last `stride` bytes of `done`, or a
/// row of zeros where the next row is the first.
pub open spec fn spec_row_above(done: Seq<u8>, stride: int, first: bool) -> Seq<u8> {
    if first {
        Seq::new(stride as nat, |i: int| 0u8)
    } else {
        done.subrange(done.len() - stride, done.len() as int)
    }
}

/// The first `rows` rows of `raw` with their filters taken off and their
/// filter bytes left out.
pub open spec fn spec_unfiltered(raw: Seq<u8>, stride: int, bpp: int, rows: int) -> Seq<u8>
    decreases rows,
{
    if rows <= 0 {
        Seq::empty()
    } else {
        let done = spec_unfiltered(raw, stride, bpp, rows - 1);
        let start = (rows - 1) * (stride + 1);
        done + spec_unfilter_row(
            raw[start],
            raw.subrange(start + 1, start + 1 + stride),
            spec_row_above(done, stride, rows == 1),
            bpp,
            stride,
        )
    }
}

/// Taking the filter off `count` bytes of a row gives `count` bytes.
pub proof fn lemma_unfilter_row_len(filter: u8, line: Seq<u8>, above: Seq<u8>, bpp: int, count: int)
    requires
        0 <= count,
    ensures
        spec_unfilter_row(filter, line, above, bpp, count).len() == count,
    decreases count,
{
    if count > 0 {
        lemma_unfilter_row_len(filter, line, above, bpp, count - 1);
    }
}

/// The first `rows` rows of `raw`, with their filters taken off, take
/// `rows * stride` bytes.
pub proof fn lemma_unfiltered_len(raw: Seq<u8>, stride: int, bpp: int, rows: int)
    requires
        0 <= stride,
        0 <= rows,
    ensures
        spec_unfiltered(raw, stride, bpp, rows).len() == rows * stride,
    decreases rows,
{
    if rows > 0 {
        let done = spec_unfiltered(raw, stride, bpp, rows - 1);
        let start = (rows - 1) * (stride + 1);
        lemma_row_bounds(rows - 1, rows, stride);
        lemma_unfiltered_len(raw, stride, bpp, rows - 1);
        lemma_unfilter_row_len(
            raw[start],
            raw.subrange(start + 1, start + 1 + stride),
            spec_row_above(done, stride, rows == 1),
            bpp,
            stride,
        );
    } else {
        assert(rows * stride == 0) by (nonlinear_arith)
            requires
                rows == 0,
        ;
    }
}

/// The Paeth predictor of three bytes.
pub fn paeth(a: u8, b: u8, c: u8) -> (nearest: u8)
    ensures
        nearest == spec_paeth(a as int, b as int, c as int),
{
    let estimate: i32 = a as i32 + b as i32 - c as i32;
    let da: i32 = if estimate >= a as i32 {
        estimate - a as i32
    } else {
        a as i32 - estimate
    };
    let db: i32 = if estimate >= b as i32 {
        estimate - b as i32
    } else {
        b as i32 - estimate
    };
    let dc: i32 = if estimate >= c as i32 {
        estimate - c as i32
    } else {
        c as i32 - estimate
    };
    if da <= db && da <= dc {
        a
    } else if db <= dc {
        b
    } else {
        c
    }
}

/// Takes the filter of type `filter` off one stored byte, given the bytes
/// to its left, above it and above to its left.
pub fn unfilter_byte(filter: u8, stored: u8, a: u8, b: u8, c: u8) -> (byte: u8)
    ensures
        byte == spec_unfilter_byte(filter, stored, a, b, c),
{
    let predicted: u16 = if filter == 1 {
        a as u16
    } else if filter == 2 {
        b as u16
    } else if filter == 3 {
        (a as u16 + b as u16) / 2
    } else if filter == 4 {
        paeth(a, b, c) as u16
    } else {
        0
    };
    ((stored as u16 + predicted) % 256) as u8
}

/// Takes the filter of type `filter` off the stored row `line` and appends
/// the row to `plain`, which holds the rows above it. The row above is read
/// from the end of `plain`, unless the row is the first.
pub fn unfilter_row(filter: u8, line: &[u8], plain: &mut Vec<u8>, bpp: usize, first: bool)
    requires
        1 <= bpp,
        !first ==> old(plain)@.len() >= line@.len(),
    ensures
        final(plain)@ == old(plain)@ + spec_unfilter_row(
            filter,
            line@,
            spec_row_above(old(plain)@, line@.len() as int, first),
            bpp as int,
            line@.len() as int,
        ),
{
    let stride: usize = line.len();
    let ghost above = spec_row_above(old(plain)@, stride as int, first);
    let ghost base = old(plain)@.len() as int;
    let mut i: usize = 0;
    while i < stride
        invariant
            i <= stride,
            stride == line@.len(),
            1 <= bpp,
            base == old(plain)@.len(),
            !first ==> base >= stride,
            above == spec_row_above(old(plain)@, stride as int, first),
            plain@.len() == base + i,
            plain@ == old(plain)@ + spec_unfilter_row(filter, line@, above, bpp as int, i as int),
        decreases stride - i,
    {
        let n: usize = plain.len();
        proof {
            lemma_unfilter_row_len(filter, line@, above, bpp as int, i as int);
        }
        let a: u8 = if i >= bpp {
            plain[n - bpp]
        } else {
            0
        };
        let b: u8 = if first {
            0
        } else {
            plain[n - stride]
        };
        let c: u8 = if first || i < bpp {
            0
        } else {
            plain[n - stride - bpp]
        };
        plain.push(unfilter_byte(filter, line[i], a, b, c));
        i += 1;
    }
}

/// Takes the filters off the first `rows` rows of `raw`, each of which is a
/// filter byte followed by `stride` stored bytes, and returns the rows one
/// after the other. A row with a filter byte above 4 is refused.
pub fn unfilter(raw: &[u8], stride: usize, bpp: usize, rows: usize) -> (plain: Result<
    Vec<u8>,
    Error,
>)
    requires
        1 <= bpp,
        rows * (stride + 1) <= raw@.len(),
    ensures
        match plain {
            Ok(bytes) => spec_filters_known(raw@, stride as int, rows as int) && bytes@
                == spec_unfiltered(raw@, stride as int, bpp as int, rows as int),
            Err(e) => e is ImageDecodeError && !spec_filters_known(
                raw@,
                stride as int,
                rows as int,
            ),
        },
{
    let available: usize = raw.len();
    let mut plain: Vec<u8> = Vec::new();
    if rows == 0 {
        return Ok(plain);
    }
    proof {
        assert(rows * (stride + 1) >= stride + 1) by (nonlinear_arith)
            requires
                rows >= 1,
                stride >= 0,
        ;
    }
    let row: usize = stride + 1;
    let mut y: usize = 0;
    while y < rows
        invariant
            y <= rows,
            1 <= bpp,
            row == stride + 1,
            rows * row <= available,
            available == raw@.len(),
            plain@ == spec_unfiltered(raw@, stride as int, bpp as int, y as int),
            spec_filters_known(raw@, stride as int, y as int),
        decreases rows - y,
    {
        proof {
            lemma_row_bounds(y as int, rows as int, row as int);
            lemma_unfiltered_len(raw@, stride as int, bpp as int, y as int);
            if y >= 1 {
                assert(y * stride >= stride) by (nonlinear_arith)
                    requires
                        y >= 1,
                        stride >= 0,
                ;
            }
        }
        let start: usize = y * row;
        let filter: u8 = raw[start];
        if filter > 4 {
            assert(spec_filter_byte(raw@, stride as int, y as int) > 4);
            return Err(malformed("A row uses a filter that PNG does not define"));
        }
        let line = vstd::slice::slice_subrange(raw, start + 1, start + row);
        unfilter_row(filter, line, &mut plain, bpp, y == 0);
        y += 1;
    }
    Ok(plain)
}

/// Whether the palette has an entry of three bytes for every index.
pub open spec fn spec_palette_covers(indices: Seq<u8>, palette: Seq<u8>) -> bool {
    forall|i: int| 0 <= i < indices.len() ==> 3 * (#[trigger] indices[i]) + 3 <= palette.len()
}

/// The pixels that the palette gives for the indices: for each index the
/// three bytes of its entry.
pub open spec fn spec_expanded(indices: Seq<u8>, palette: Seq<u8>) -> Seq<u8>
    decreases indices.len(),
{
    if indices.len() == 0 {
        Seq::empty()
    } else {
        spec_expanded(indices.drop_last(), palette) + palette.subrange(
            3 * indices.last(),
            3 * indices.last() + 3,
        )
    }
}

/// The pixels of covered indices take three bytes per index.
pub proof fn lemma_expanded_len(indices: Seq<u8>, palette: Seq<u8>)
    requires
        spec_palette_covers(indices, palette),
    ensures
        spec_expanded(indices, palette).len() == 3 * indices.len(),
    decreases indices.len(),
{
    if indices.len() > 0 {
        lemma_expanded_len(indices.drop_last(), palette);
    }
}

/// Looks every index up in the palette and returns the three bytes of
/// each entry, one entry after the other. An index without an entry is
/// refused.
pub fn expand(indices: &[u8], palette: &[u8]) -> (pixels: Result<Vec<u8>, Error>)
    ensures
        match pixels {
            Ok(bytes) => spec_palette_covers(indices@, palette@) && bytes@ == spec_expanded(
                indices@,
                palette@,
            ),
            Err(e) => e is ImageDecodeError && !spec_palette_covers(indices@, palette@),
        },
{
    let count: usize = indices.len();
    let entries: usize = palette.len();
    let mut pixels: Vec<u8> = Vec::new();
    let mut i: usize = 0;
    while i < count
        invariant
            i <= count,
            count == indices@.len(),
            entries == palette@.len(),
            pixels@ == spec_expanded(indices@.subrange(0, i as int), palette@),
            spec_palette_covers(indices@.subrange(0, i as int), palette@),
        decreases count - i,
    {
        let entry: usize = indices[i] as usize * 3;
        if entry + 3 > entries {
            return Err(malformed("An index has no palette entry"));
        }
        pixels.extend_from_slice(vstd::slice::slice_subrange(palette, entry, entry + 3));
        proof {
            let done = indices@.subrange(0, i + 1);
            assert(done.drop_last() =~= indices@.subrange(0, i as int));
        }
        i += 1;
    }
    assert(indices@.subrange(0, count as int) =~= indices@);
    Ok(pixels)
}

/// Row `y` of the scanlines of `pixels` is the filter byte 0 followed by
/// row `y` of `pixels`.
pub proof fn lemma_scanline_row(pixels: Seq<u8>, stride: int, rows: int, y: int)
    requires
        0 <= stride,
        0 <= y < rows,
        rows * stride <= pixels.len(),
    ensures
        spec_scanlines(pixels, stride, rows).len() == rows * (stride + 1),
        spec_filter_byte(spec_scanlines(pixels, stride, rows), stride, y) == 0u8,
        spec_scanlines(pixels, stride, rows).subrange(
            y * (stride + 1) + 1,
            (y + 1) * (stride + 1),
        ) == pixels.subrange(y * stride, (y + 1) * stride),
    decreases rows,
{
    lemma_row_bounds(rows - 1, rows, stride);
    lemma_row_bounds(rows - 1, rows, stride + 1);
    lemma_row_bounds(y, rows, stride);
    lemma_row_bounds(y, rows, stride + 1);
    lemma_scanlines_len(pixels, stride, rows);
    lemma_scanlines_len(pixels, stride, rows - 1);
    if y < rows - 1 {
        // The row lies in the scanlines of the rows before the last, which
        // the scanlines of all rows start with.
        lemma_scanline_row(pixels, stride, rows - 1, y);
        lemma_row_bounds(y, rows - 1, stride + 1);
    }
}

/// A row stored with filter type 0 is the row itself.
pub proof fn lemma_unfilter_row_plain(line: Seq<u8>, above: Seq<u8>, bpp: int, count: int)
    requires
        0 <= count <= line.len(),
    ensures
        spec_unfilter_row(0, line, above, bpp, count) == line.subrange(0, count),
    decreases count,
{
    if count > 0 {
        lemma_unfilter_row_plain(line, above, bpp, count - 1);
    }
}

/// Taking the filters off the scanlines of `pixels` gives `pixels` back,
/// row by row.
pub proof fn lemma_unfilter_scanlines(
    pixels: Seq<u8>,
    stride: int,
    bpp: int,
    rows: int,
    upto: int,
)
    requires
        0 <= stride,
        0 <= upto <= rows,
        rows * stride <= pixels.len(),
    ensures
        upto * stride <= pixels.len(),
        spec_unfiltered(spec_scanlines(pixels, stride, rows), stride, bpp, upto)
            == pixels.subrange(0, upto * stride),
        spec_filters_known(spec_scanlines(pixels, stride, rows), stride, upto),
    decreases upto,
{
    let all = spec_scanlines(pixels, stride, rows);
    if upto > 0 {
        lemma_unfilter_scanlines(pixels, stride, bpp, rows, upto - 1);
        lemma_scanline_row(pixels, stride, rows, upto - 1);
        lemma_row_bounds(upto - 1, rows, stride);
        lemma_row_bounds(upto - 1, rows, stride + 1);
        let done = spec_unfiltered(all, stride, bpp, upto - 1);
        let start = (upto - 1) * (stride + 1);
        let line = all.subrange(start + 1, start + 1 + stride);
        lemma_unfilter_row_plain(line, spec_row_above(done, stride, upto == 1), bpp, stride);
    } else {
        assert(upto * stride == 0) by (nonlinear_arith)
            requires
                upto == 0,
        ;
    }
}

} // verus!
