//! The PNG codec.
//!
//! The encoder writes 8-bit truecolour images with unfiltered rows. The
//! decoder reads 8-bit truecolour and 8-bit palette images without
//! interlacing, with any of the five row filters, and passes over checksums.
//! The model of both is a function on byte sequences; compression is left to
//! `flate2` and enters the model by name only.
pub mod bytes;
pub mod chunk;
pub mod rows;

pub use bytes::{be_bytes, be_value, lemma_be_round_trip, spec_be_bytes, spec_be_value};
pub use chunk::{
    create_chunk, lemma_chunk_at, read_chunks, read_header, spec_ancillary, spec_chunk,
    spec_chunk_at, spec_header, spec_kind_data, spec_kind_end, spec_kind_header,
    spec_kind_palette, spec_no_parts, spec_read_chunks, spec_signature, Chunks, Header, Parts,
};
pub use rows::{
    lemma_expanded_len, lemma_row_bounds, lemma_scanline_row, lemma_scanlines_len,
    lemma_unfilter_row_len, lemma_unfilter_row_plain, lemma_unfilter_scanlines,
    lemma_unfiltered_len, paeth, spec_expanded, spec_filter_byte, spec_filters_known,
    spec_paeth, spec_palette_covers, spec_predicted, spec_row_above, spec_scanlines,
    expand, spec_unfilter_byte, spec_unfilter_row, spec_unfiltered, unfilter, unfilter_byte,
    unfilter_row,
};

use crate::codec::zlib::{zlib_compress, zlib_decompress, zlib_deflated, zlib_inflated};
use crate::color::ColorSpace;
use crate::error::Error;
use crate::geometry::Shape;
use crate::image::Image;
use chunk::malformed;
use vstd::prelude::*;

verus! {

/// The thirteen bytes of the header chunk that the encoder writes: width,
/// height, eight bits per sample, truecolour, and the only compression,
/// filter and interlace methods it uses, which are all zero.
pub open spec fn spec_header_bytes(width: u32, height: u32) -> Seq<u8> {
    spec_be_bytes(width) + spec_be_bytes(height) + seq![8u8, 2, 0, 0, 0]
}

/// The header that the encoder writes for an image of `width` by `height`
/// pixels.
pub open spec fn spec_truecolor_header(width: u32, height: u32) -> Header {
    Header { width, height, bit_depth: 8, color_type: 2, compression: 0, filter: 0, interlace: 0 }
}

/// A whole PNG stream around already compressed pixel data: signature,
/// header chunk, one data chunk and the end chunk.
pub open spec fn spec_png(width: u32, height: u32, compressed: Seq<u8>) -> Seq<u8> {
    spec_signature() + spec_chunk(spec_kind_header(), spec_header_bytes(width, height))
        + spec_chunk(spec_kind_data(), compressed) + spec_chunk(spec_kind_end(), Seq::empty())
}

/// The images the encoder can write: three bytes per pixel, sides that fit
/// the header's four-byte fields, and rows that can be laid out in memory
/// with their filter bytes.
pub open spec fn spec_encodable(image: &Image) -> bool {
    &&& image.spec_channels() == 3
    &&& image.spec_width() <= u32::MAX
    &&& image.spec_height() <= u32::MAX
    &&& image.spec_height() * (3 * image.spec_width() + 1) <= usize::MAX
}

/// The PNG stream that the encoder writes for `image`: the stream around
/// the compressed scanlines of the image. There is none when the image is
/// not encodable, when the compressor fails on the scanlines, or when what
/// it returns does not fit the four-byte length field of a chunk.
pub open spec fn spec_encode(image: &Image) -> Option<Seq<u8>> {
    if !spec_encodable(image) {
        None
    } else {
        match zlib_deflated(
            spec_scanlines(image@, 3 * image.spec_width(), image.spec_height() as int),
        ) {
            Some(compressed) => if compressed.len() <= u32::MAX {
                Some(spec_png(image.spec_width() as u32, image.spec_height() as u32, compressed))
            } else {
                None
            },
            None => None,
        }
    }
}

/// Lays out the rows of a three-channel image for compression: every row
/// preceded by the filter byte 0.
pub fn scanlines(image: &Image) -> (rows: Vec<u8>)
    requires
        image.wf(),
        spec_encodable(image),
    ensures
        rows@ == spec_scanlines(
            image@,
            3 * image.spec_width(),
            image.spec_height() as int,
        ),
{
    let width: usize = image.width();
    let height: usize = image.height();
    let total: usize = image.size();
    proof {
        assert(image.spec_shape().spec_size() == height * (3 * width)) by (nonlinear_arith)
            requires
                image.spec_shape().spec_size() == width * height * 3,
        ;
        assert(height * (3 * width + 1) >= 3 * width + 1 || height == 0) by (nonlinear_arith)
            requires
                height >= 0,
                width >= 0,
        ;
    }
    if height == 0 {
        return Vec::new();
    }
    let stride: usize = 3 * width;
    assert((1 + stride) * height == height * (3 * width + 1)) by (nonlinear_arith)
        requires
            stride == 3 * width,
    ;
    let mut rows: Vec<u8> = Vec::with_capacity((1 + stride) * height);
    let mut y: usize = 0;
    while y < height
        invariant
            y <= height,
            image.wf(),
            stride == 3 * width,
            total == image@.len(),
            total == height * stride,
            rows@ == spec_scanlines(image@, stride as int, y as int),
        decreases height - y,
    {
        proof {
            lemma_row_bounds(y as int, height as int, stride as int);
        }
        rows.push(0);
        let start: usize = y * stride;
        let end: usize = start + stride;
        rows.extend_from_slice(image.slice(start, end));
        y += 1;
    }
    rows
}

/// Puts a PNG stream together around pixel data that is already compressed.
/// The data must fit the four-byte length field of its chunk.
pub fn assemble(width: u32, height: u32, compressed: &[u8]) -> (stream: Result<Vec<u8>, Error>)
    ensures
        match stream {
            Ok(bytes) => compressed@.len() <= u32::MAX && bytes@ == spec_png(
                width,
                height,
                compressed@,
            ),
            Err(e) => e is ImageEncodeError && compressed@.len() > u32::MAX,
        },
{
    if compressed.len() > u32::MAX as usize {
        return Err(Error::ImageEncodeError("Compressed data exceeds a chunk".to_string()));
    }
    let signature: [u8; 8] = [0x89, 0x50, 0x4e, 0x47, 0x0d, 0x0a, 0x1a, 0x0a];
    let mut stream: Vec<u8> = Vec::new();
    stream.extend_from_slice(signature.as_slice());

    let w = be_bytes(width);
    let h = be_bytes(height);
    let header: [u8; 13] = [w[0], w[1], w[2], w[3], h[0], h[1], h[2], h[3], 8, 2, 0, 0, 0];
    assert(header@ =~= spec_header_bytes(width, height));
    let kind_header: [u8; 4] = [73, 72, 68, 82];
    let header_chunk = create_chunk(kind_header.as_slice(), header.as_slice());
    stream.extend_from_slice(header_chunk.as_slice());

    let kind_data: [u8; 4] = [73, 68, 65, 84];
    let data_chunk = create_chunk(kind_data.as_slice(), compressed);
    stream.extend_from_slice(data_chunk.as_slice());

    let kind_end: [u8; 4] = [73, 69, 78, 68];
    let nothing: [u8; 0] = [];
    let end_chunk = create_chunk(kind_end.as_slice(), nothing.as_slice());
    stream.extend_from_slice(end_chunk.as_slice());

    Ok(stream)
}

/// The error for an image that cannot be written, with `details` as its
/// detail.
fn refused(details: &str) -> (e: Error)
    ensures
        e is ImageEncodeError,
        Error::spec_details(e) == details@,
{
    Error::ImageEncodeError(details.to_string())
}

/// Writes `image` as a PNG stream: signature, a header chunk for 8-bit
/// truecolour, one data chunk with the compressed scanlines, and the end
/// chunk.
///
/// The stream is written exactly when the image is encodable, the
/// compressor returns a stream for its scanlines, and that stream fits the
/// length field of a chunk; every other image is refused. A stream that is
/// written decodes to an image of the same shape with the same bytes.
pub fn encode(image: &Image) -> (stream: Result<Vec<u8>, Error>)
    requires
        image.wf(),
    ensures
        match stream {
            Ok(bytes) => spec_encode(image) == Some(bytes@) && spec_decode(bytes@) == Some(
                (image.spec_shape(), image@),
            ),
            Err(e) => e is ImageEncodeError && spec_encode(image) is None,
        },
{
    let width: usize = image.width();
    let height: usize = image.height();
    if image.shape().ndim != 3 {
        return Err(refused("Only three-channel images can be written"));
    }
    if width > u32::MAX as usize || height > u32::MAX as usize {
        return Err(refused("Image sides exceed the header's fields"));
    }
    if height > 0 {
        // With at least one row, the rows can be laid out only if one can.
        assert(height * (3 * width + 1) >= 3 * width + 1) by (nonlinear_arith)
            requires
                height >= 1,
                width >= 0,
        ;
        let fits: bool = match width.checked_mul(3) {
            Some(stride) => match stride.checked_add(1) {
                Some(row) => match height.checked_mul(row) {
                    Some(_) => true,
                    None => false,
                },
                None => false,
            },
            None => false,
        };
        if !fits {
            return Err(refused("Image rows exceed addressable memory"));
        }
    } else {
        assert(height * (3 * width + 1) == 0) by (nonlinear_arith)
            requires
                height == 0,
        ;
    }
    assert(spec_encodable(image));
    let raw = scanlines(image);
    match zlib_compress(raw.as_slice()) {
        Ok(compressed) => {
            let stream = assemble(width as u32, height as u32, compressed.as_slice());
            proof {
                if stream is Ok {
                    image.size_fits();
                    lemma_png_round_trip(width as u32, height as u32, image@, compressed@);
                }
            }
            stream
        },
        Err(details) => Err(Error::ImageEncodeError(details)),
    }
}

/// The headers the decoder can handle: eight bits per sample, truecolour or
/// palette indices, no interlacing, and the only compression and filter
/// methods PNG defines.
pub open spec fn spec_supported(header: Header) -> bool {
    &&& header.bit_depth == 8
    &&& (header.color_type == 2 || header.color_type == 3)
    &&& header.compression == 0
    &&& header.filter == 0
    &&& header.interlace == 0
}

/// The number of bytes in one row of the decompressed data, not counting
/// the filter byte: three per pixel for truecolour, one per pixel for
/// palette indices.
pub open spec fn spec_stride(header: Header) -> int {
    if header.color_type == 2 {
        3 * header.width
    } else {
        header.width as int
    }
}

/// The number of bytes in one pixel of the decompressed data: three for
/// truecolour, one for palette indices. Filters look this far to the left.
pub open spec fn spec_bpp(header: Header) -> int {
    if header.color_type == 2 {
        3
    } else {
        1
    }
}

/// The image that the chunks `parts` and the decompressed data `raw`
/// describe: its shape and its bytes, three per pixel.
///
/// There is none when the header is missing or not supported, when the
/// image would not fit in memory, when `raw` is shorter than the rows the
/// header announces, when a row has a filter byte that PNG does not define,
/// or when an index has no palette entry.
pub open spec fn spec_unpack(parts: Parts, raw: Seq<u8>) -> Option<(Shape, Seq<u8>)> {
    match parts.header {
        None => None,
        Some(header) => {
            let stride = spec_stride(header);
            let rows = header.height as int;
            let plain = spec_unfiltered(raw, stride, spec_bpp(header), rows);
            let shape = Shape {
                width: header.width as usize,
                height: header.height as usize,
                ndim: 3,
            };
            if !spec_supported(header) || header.width * header.height * 3 > usize::MAX
                || raw.len() < rows * (stride + 1) || !spec_filters_known(raw, stride, rows) {
                None
            } else if header.color_type == 2 {
                Some((shape, plain))
            } else if !spec_palette_covers(plain, parts.palette) {
                None
            } else {
                Some((shape, spec_expanded(plain, parts.palette)))
            }
        },
    }
}

/// The image that the PNG stream `stream` holds: its shape and its bytes.
/// There is none when the stream does not start with the signature, when
/// its chunks cannot be read, when its data does not decompress, or when
/// the decompressed data does not describe an image.
pub open spec fn spec_decode(stream: Seq<u8>) -> Option<(Shape, Seq<u8>)> {
    if stream.len() < 8 || stream.subrange(0, 8) != spec_signature() {
        None
    } else {
        match spec_read_chunks(stream, 8, spec_no_parts()) {
            None => None,
            Some(parts) => match zlib_inflated(parts.data) {
                None => None,
                Some(raw) => spec_unpack(parts, raw),
            },
        }
    }
}

/// Builds the image that the chunks and the decompressed data describe.
///
/// The filters are taken off the rows; a row with a filter byte that PNG
/// does not define is refused. Palette indices are expanded to the three
/// bytes of their palette entry, so the image has three channels either
/// way.
pub fn unpack(chunks: &Chunks, raw: &[u8]) -> (image: Result<Image, Error>)
    ensures
        match image {
            Ok(img) => img.wf() && img.spec_colorspace() == ColorSpace::RGB && spec_unpack(
                chunks@,
                raw@,
            ) == Some((img.spec_shape(), img@)),
            Err(e) => e is ImageDecodeError && spec_unpack(chunks@, raw@) is None,
        },
{
    let header: Header = match chunks.header {
        Some(h) => h,
        None => {
            return Err(malformed("The stream has no header chunk"));
        },
    };
    let supported: bool = header.bit_depth == 8 && (header.color_type == 2 || header.color_type
        == 3) && header.compression == 0 && header.filter == 0 && header.interlace == 0;
    if !supported {
        return Err(malformed("The header asks for a format that is not supported"));
    }
    let width: usize = header.width as usize;
    let height: usize = header.height as usize;
    let shape = Shape { width, height, ndim: 3 };
    let size: usize = match shape.checked_size() {
        Some(n) => n,
        None => {
            return Err(malformed("The image exceeds addressable memory"));
        },
    };
    let available: usize = raw.len();
    let ghost stride_spec = spec_stride(header);
    if height == 0 {
        proof {
            assert(shape.spec_size() == 0) by (nonlinear_arith)
                requires
                    shape.spec_size() == width * height * 3,
                    height == 0,
            ;
            assert(height * (stride_spec + 1) == 0) by (nonlinear_arith)
                requires
                    height == 0,
            ;
        }
        let nothing: Vec<u8> = Vec::new();
        return match Image::from_data(nothing, shape, ColorSpace::RGB) {
            Ok(img) => Ok(img),
            Err(_) => Err(malformed("The image exceeds addressable memory")),
        };
    }
    proof {
        assert(width * height * 3 >= width * 3) by (nonlinear_arith)
            requires
                height >= 1,
                width >= 0,
        ;
        assert(height * (stride_spec + 1) >= stride_spec + 1) by (nonlinear_arith)
            requires
                height >= 1,
                stride_spec >= 0,
        ;
    }
    let stride: usize = if header.color_type == 2 {
        width * 3
    } else {
        width
    };
    let needed: Option<usize> = match stride.checked_add(1) {
        Some(row) => height.checked_mul(row),
        None => None,
    };
    let needed: usize = match needed {
        Some(n) => n,
        None => {
            return Err(malformed("The data is shorter than the image"));
        },
    };
    if available < needed {
        return Err(malformed("The data is shorter than the image"));
    }
    let bpp: usize = if header.color_type == 2 {
        3
    } else {
        1
    };
    let plain: Vec<u8> = match unfilter(raw, stride, bpp, height) {
        Ok(bytes) => bytes,
        Err(e) => {
            return Err(e);
        },
    };
    proof {
        lemma_unfiltered_len(raw@, stride as int, bpp as int, height as int);
    }
    if header.color_type == 2 {
        proof {
            assert(height * (width * 3) == width * height * 3) by (nonlinear_arith);
        }
        return match Image::from_data(plain, shape, ColorSpace::RGB) {
            Ok(img) => Ok(img),
            Err(_) => Err(malformed("The image exceeds addressable memory")),
        };
    }
    let pixels: Vec<u8> = match expand(plain.as_slice(), chunks.palette.as_slice()) {
        Ok(bytes) => bytes,
        Err(e) => {
            return Err(e);
        },
    };
    proof {
        lemma_expanded_len(plain@, chunks.palette@);
    }
    match Image::from_data(pixels, shape, ColorSpace::RGB) {
        Ok(img) => Ok(img),
        Err(_) => Err(malformed("The image exceeds addressable memory")),
    }
}

/// Reads an image from a PNG stream.
///
/// The stream must start with the PNG signature and hold a header chunk,
/// the compressed rows in one or more data chunks, and the end chunk.
/// Ancillary chunks are passed over, and so are the checksums of all chunks.
/// Eight-bit truecolour and eight-bit palette images without interlacing are
/// read, whichever filters their rows use; both give a three-channel RGB
/// image.
pub fn decode(stream: &[u8]) -> (image: Result<Image, Error>)
    ensures
        match image {
            Ok(img) => img.wf() && img.spec_colorspace() == ColorSpace::RGB && spec_decode(
                stream@,
            ) == Some((img.spec_shape(), img@)),
            Err(e) => e is ImageDecodeError && spec_decode(stream@) is None,
        },
{
    if stream.len() < 8 {
        return Err(malformed("Invalid PNG Signature"));
    }
    let head = vstd::slice::slice_subrange(stream, 0, 8);
    let signed: bool = head[0] == 0x89 && head[1] == 0x50 && head[2] == 0x4e && head[3] == 0x47
        && head[4] == 0x0d && head[5] == 0x0a && head[6] == 0x1a && head[7] == 0x0a;
    proof {
        if signed {
            assert(head@ =~= spec_signature());
        }
    }
    if !signed {
        return Err(malformed("Invalid PNG Signature"));
    }
    let chunks: Chunks = match read_chunks(stream, 8) {
        Ok(found) => found,
        Err(e) => {
            return Err(e);
        },
    };
    let raw: Vec<u8> = match zlib_decompress(chunks.data.as_slice()) {
        Ok(bytes) => bytes,
        Err(details) => {
            return Err(Error::ImageDecodeError(details));
        },
    };
    unpack(&chunks, raw.as_slice())
}

/// The header bytes that the encoder writes read back as the header it
/// meant.
pub proof fn lemma_header_round_trip(width: u32, height: u32)
    ensures
        spec_header_bytes(width, height).len() == 13,
        spec_header(spec_header_bytes(width, height)) == spec_truecolor_header(width, height),
{
    lemma_be_round_trip(width);
    lemma_be_round_trip(height);
}

/// The chunks of a stream that the encoder puts together say what the
/// encoder meant: its header, no palette, and the compressed data.
pub proof fn lemma_png_chunks(width: u32, height: u32, compressed: Seq<u8>)
    requires
        compressed.len() <= u32::MAX,
    ensures
        spec_png(width, height, compressed).len() >= 8,
        spec_png(width, height, compressed).subrange(0, 8) == spec_signature(),
        spec_read_chunks(spec_png(width, height, compressed), 8, spec_no_parts()) == Some(
            Parts {
                header: Some(spec_truecolor_header(width, height)),
                palette: Seq::empty(),
                data: compressed,
            },
        ),
{
    let stream = spec_png(width, height, compressed);
    let sig = spec_signature();
    let header_bytes = spec_header_bytes(width, height);
    let c1 = spec_chunk(spec_kind_header(), header_bytes);
    let c2 = spec_chunk(spec_kind_data(), compressed);
    let c3 = spec_chunk(spec_kind_end(), Seq::empty());
    let none = Seq::<u8>::empty();
    let bare = spec_no_parts();
    let headed = Parts { header: Some(spec_truecolor_header(width, height)), ..bare };
    let loaded = Parts { data: compressed, ..headed };
    let a1 = 8int;
    let a2 = a1 + 12 + 13;
    let a3 = a2 + 12 + compressed.len();

    lemma_header_round_trip(width, height);
    // The chunk types differ from one another in their second byte.
    assert(spec_kind_header()[1] == 72 && spec_kind_data()[1] == 68 && spec_kind_end()[1] == 69
        && spec_kind_palette()[1] == 76);

    assert(spec_chunk_at(stream, a3) == Some((spec_kind_end(), none, a3 + 12))) by {
        lemma_chunk_at(sig + c1 + c2, spec_kind_end(), none, none);
        lemma_chunk_at(sig, spec_kind_header(), header_bytes, none);
        lemma_chunk_at(sig, spec_kind_data(), compressed, none);
    }

    assert(spec_chunk_at(stream, a2) == Some((spec_kind_data(), compressed, a3))) by {
        lemma_chunk_at(sig + c1, spec_kind_data(), compressed, c3);
        lemma_chunk_at(sig, spec_kind_header(), header_bytes, none);
    }
    assert(spec_read_chunks(stream, a2, headed) == spec_read_chunks(stream, a3, loaded));

    assert(spec_chunk_at(stream, a1) == Some((spec_kind_header(), header_bytes, a2))) by {
        lemma_chunk_at(sig, spec_kind_header(), header_bytes, c2 + c3);
    }
    assert(spec_read_chunks(stream, a1, bare) == spec_read_chunks(stream, a2, headed));
}

/// Writing and reading back: the stream that the encoder puts together for
/// a three-channel image of `width` by `height` pixels, around any
/// compressed data that decompresses to the scanlines of the image, decodes
/// to an image of the same width and height with the same bytes.
pub proof fn lemma_png_round_trip(width: u32, height: u32, pixels: Seq<u8>, compressed: Seq<u8>)
    requires
        pixels.len() == width * height * 3,
        pixels.len() <= usize::MAX,
        compressed.len() <= u32::MAX,
        zlib_inflated(compressed) == Some(spec_scanlines(pixels, 3 * width, height as int)),
    ensures
        spec_decode(spec_png(width, height, compressed)) == Some(
            (Shape { width: width as usize, height: height as usize, ndim: 3 }, pixels),
        ),
{
    lemma_png_chunks(width, height, compressed);
    assert(height * (3 * width) == width * height * 3) by (nonlinear_arith);
    lemma_scanlines_len(pixels, 3 * width, height as int);
    lemma_unfilter_scanlines(pixels, 3 * width, 3, height as int, height as int);
}

} // verus!
