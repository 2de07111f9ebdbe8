//! The container format of PNG: a signature followed by chunks, each with a
//! length, a type, data and a checksum.
use super::bytes::{be_bytes, be_value, lemma_be_round_trip, spec_be_bytes, spec_be_value};
use crate::codec::checksum::crc32;
use crate::error::Error;
use vstd::prelude::*;

verus! {

/// The eight bytes every PNG stream starts with.
pub open spec fn spec_signature() -> Seq<u8> {
    seq![0x89u8, 0x50, 0x4e, 0x47, 0x0d, 0x0a, 0x1a, 0x0a]
}

/// The chunk type `IHDR`: the header of the image.
pub open spec fn spec_kind_header() -> Seq<u8> {
    seq![73u8, 72, 68, 82]
}

/// The chunk type `PLTE`: the palette of an indexed image.
pub open spec fn spec_kind_palette() -> Seq<u8> {
    seq![80u8, 76, 84, 69]
}

/// The chunk type `IDAT`: a piece of the compressed pixel data.
pub open spec fn spec_kind_data() -> Seq<u8> {
    seq![73u8, 68, 65, 84]
}

/// The chunk type `IEND`: the end of the stream.
pub open spec fn spec_kind_end() -> Seq<u8> {
    seq![73u8, 69, 78, 68]
}

/// One chunk of a PNG stream: the length of `data` in four bytes, the four
/// bytes of `kind`, `data`, and the checksum of `kind` followed by `data`
/// in four bytes.
pub open spec fn spec_chunk(kind: Seq<u8>, data: Seq<u8>) -> Seq<u8> {
    spec_be_bytes(data.len() as u32) + kind + data + spec_be_bytes(crc32(kind + data))
}

/// Frames `data` as a chunk of type `chunk_type`.
pub fn create_chunk(chunk_type: &[u8], data: &[u8]) -> (chunk: Vec<u8>)
    requires
        chunk_type@.len() == 4,
        data@.len() <= u32::MAX,
    ensures
        chunk@ == spec_chunk(chunk_type@, data@),
{
    let mut chunk: Vec<u8> = Vec::new();
    let length = be_bytes(data.len() as u32);
    chunk.extend_from_slice(length.as_slice());
    chunk.extend_from_slice(chunk_type);
    chunk.extend_from_slice(data);
    let covered = vstd::slice::slice_subrange(chunk.as_slice(), 4, chunk.len());
    assert(covered@ =~= chunk_type@ + data@);
    let checksum = be_bytes(crc32fast::hash(covered));
    chunk.extend_from_slice(checksum.as_slice());
    chunk
}

/// The fields of a header chunk.
#[derive(Debug, Clone, Copy, PartialEq, Eq, Structural)]
pub struct Header {
    pub width: u32,
    pub height: u32,
    pub bit_depth: u8,
    pub color_type: u8,
    pub compression: u8,
    pub filter: u8,
    pub interlace: u8,
}

/// What the chunks of a stream say, as mathematical values: the header of
/// the last header chunk, the bytes of the last palette chunk, and the
/// bytes of all data chunks in their order.
pub struct Parts {
    pub header: Option<Header>,
    pub palette: Seq<u8>,
    pub data: Seq<u8>,
}

/// What the chunks of a stream say.
#[derive(Debug)]
pub struct Chunks {
    pub header: Option<Header>,
    pub palette: Vec<u8>,
    pub data: Vec<u8>,
}

impl Chunks {
    pub open spec fn view(&self) -> Parts {
        Parts { header: self.header, palette: self.palette@, data: self.data@ }
    }
}

/// What is known before the first chunk is read: nothing.
pub open spec fn spec_no_parts() -> Parts {
    Parts { header: None, palette: Seq::empty(), data: Seq::empty() }
}

/// The header that the first thirteen bytes of `data` describe.
pub open spec fn spec_header(data: Seq<u8>) -> Header
    recommends
        data.len() >= 13,
{
    Header {
        width: spec_be_value(data.subrange(0, 4)),
        height: spec_be_value(data.subrange(4, 8)),
        bit_depth: data[8],
        color_type: data[9],
        compression: data[10],
        filter: data[11],
        interlace: data[12],
    }
}

/// Whether a reader that does not know the chunk type `kind` may pass over
/// it: the type's first letter is a small one, which is to say that bit 5 of
/// its first byte is set.
pub open spec fn spec_ancillary(kind: Seq<u8>) -> bool
    recommends
        kind.len() == 4,
{
    kind[0] / 32 % 2 == 1
}

/// The chunk that starts at offset `at` of `stream`: its type, its data and
/// the offset behind its checksum. There is none when the stream ends
/// before the chunk does.
pub open spec fn spec_chunk_at(stream: Seq<u8>, at: int) -> Option<(Seq<u8>, Seq<u8>, int)> {
    if 0 <= at && at + 8 <= stream.len() {
        let length = spec_be_value(stream.subrange(at, at + 4)) as int;
        if at + 12 + length <= stream.len() {
            Some(
                (
                    stream.subrange(at + 4, at + 8),
                    stream.subrange(at + 8, at + 8 + length),
                    at + 12 + length,
                ),
            )
        } else {
            None
        }
    } else {
        None
    }
}

/// What the chunks of `stream` from offset `at` on add to `parts`, up to
/// the end chunk. There is no result when a chunk is cut short, when a
/// header chunk has fewer than thirteen bytes, when a chunk has a type that
/// is neither known nor ancillary, or when the end chunk is missing.
pub open spec fn spec_read_chunks(stream: Seq<u8>, at: int, parts: Parts) -> Option<Parts>
    decreases stream.len() - at,
{
    match spec_chunk_at(stream, at) {
        None => None,
        Some((kind, data, next)) => {
            if kind == spec_kind_end() {
                Some(parts)
            } else if kind == spec_kind_header() {
                if data.len() < 13 {
                    None
                } else {
                    spec_read_chunks(
                        stream,
                        next,
                        Parts { header: Some(spec_header(data)), ..parts },
                    )
                }
            } else if kind == spec_kind_palette() {
                spec_read_chunks(stream, next, Parts { palette: data, ..parts })
            } else if kind == spec_kind_data() {
                spec_read_chunks(stream, next, Parts { data: parts.data + data, ..parts })
            } else if spec_ancillary(kind) {
                spec_read_chunks(stream, next, parts)
            } else {
                None
            }
        },
    }
}

/// The error for a stream that is not a PNG this crate can read, with
/// `details` as its detail.
pub(crate) fn malformed(details: &str) -> (e: Error)
    ensures
        e is ImageDecodeError,
        Error::spec_details(e) == details@,
{
    Error::ImageDecodeError(details.to_string())
}

/// Whether the four bytes `kind` are the bytes `a`, `b`, `c`, `d`.
fn kind_is(kind: &[u8], a: u8, b: u8, c: u8, d: u8) -> (same: bool)
    requires
        kind@.len() == 4,
    ensures
        same == (kind@ == seq![a, b, c, d]),
{
    let same: bool = kind[0] == a && kind[1] == b && kind[2] == c && kind[3] == d;
    proof {
        let other = seq![a, b, c, d];
        if same {
            assert(kind@ =~= other);
        } else {
            assert(kind@[0] != other[0] || kind@[1] != other[1] || kind@[2] != other[2]
                || kind@[3] != other[3]);
        }
    }
    same
}

/// Reads the fields of a header chunk from its data.
pub fn read_header(data: &[u8]) -> (header: Header)
    requires
        data@.len() >= 13,
    ensures
        header == spec_header(data@),
{
    let width: u32 = be_value(data, 0);
    let height: u32 = be_value(data, 4);
    Header {
        width,
        height,
        bit_depth: data[8],
        color_type: data[9],
        compression: data[10],
        filter: data[11],
        interlace: data[12],
    }
}

/// Reads the chunks of `stream` from offset `start` up to the end chunk and
/// collects what they say. Checksums are passed over unread.
pub fn read_chunks(stream: &[u8], start: usize) -> (chunks: Result<Chunks, Error>)
    requires
        start <= stream@.len(),
    ensures
        match chunks {
            Ok(found) => spec_read_chunks(stream@, start as int, spec_no_parts()) == Some(found@),
            Err(e) => e is ImageDecodeError && spec_read_chunks(
                stream@,
                start as int,
                spec_no_parts(),
            ) is None,
        },
{
    let total: usize = stream.len();
    let mut at: usize = start;
    let mut header: Option<Header> = None;
    let mut palette: Vec<u8> = Vec::new();
    let mut data: Vec<u8> = Vec::new();
    loop
        invariant
            at <= total,
            total == stream@.len(),
            spec_read_chunks(stream@, start as int, spec_no_parts()) == spec_read_chunks(
                stream@,
                at as int,
                Parts { header, palette: palette@, data: data@ },
            ),
        decreases total - at,
    {
        if total - at < 8 {
            return Err(malformed("The stream ends inside a chunk"));
        }
        let length: usize = be_value(stream, at) as usize;
        if total - at - 8 < 4 || total - at - 12 < length {
            return Err(malformed("The stream ends inside a chunk"));
        }
        let kind = vstd::slice::slice_subrange(stream, at + 4, at + 8);
        let body = vstd::slice::slice_subrange(stream, at + 8, at + 8 + length);
        let next: usize = at + 12 + length;
        let ghost before = Parts { header, palette: palette@, data: data@ };
        if kind_is(kind, 73, 69, 78, 68) {
            return Ok(Chunks { header, palette, data });
        } else if kind_is(kind, 73, 72, 68, 82) {
            if length < 13 {
                return Err(malformed("The header chunk is too short"));
            }
            header = Some(read_header(body));
        } else if kind_is(kind, 80, 76, 84, 69) {
            palette = vstd::slice::slice_to_vec(body);
        } else if kind_is(kind, 73, 68, 65, 84) {
            data.extend_from_slice(body);
            assert(data@ =~= before.data + body@);
        } else if kind[0] / 32 % 2 != 1 {
            return Err(malformed("The stream holds a critical chunk of an unknown type"));
        }
        at = next;
    }
}

/// A chunk that stands in a stream is found where it starts, with its type
/// and data, whatever stands before and behind it.
pub proof fn lemma_chunk_at(before: Seq<u8>, kind: Seq<u8>, data: Seq<u8>, behind: Seq<u8>)
    requires
        kind.len() == 4,
        data.len() <= u32::MAX,
    ensures
        spec_chunk(kind, data).len() == 12 + data.len(),
        spec_chunk_at(before + spec_chunk(kind, data) + behind, before.len() as int) == Some(
            (kind, data, (before.len() + 12 + data.len()) as int),
        ),
{
    let stream = before + spec_chunk(kind, data) + behind;
    let at = before.len() as int;
    lemma_be_round_trip(data.len() as u32);
    assert(stream.subrange(at, at + 4) =~= spec_be_bytes(data.len() as u32));
}

} // verus!
