//! Compression and decompression of zlib streams, done by `flate2`.
//!
//! What this file states of `flate2` is believed rather than proved.
use flate2::read::ZlibDecoder;
use flate2::write::ZlibEncoder;
use flate2::Compression;
use std::io::{Read, Write};
use vstd::prelude::*;

verus! {

/// The zlib stream that `flate2` produces for `data` at its default
/// compression level, or `None` when it reports a failure instead.
pub uninterp spec fn zlib_deflated(data: Seq<u8>) -> Option<Seq<u8>>;

/// The bytes that `flate2` recovers from the zlib stream `stream`, or `None`
/// when it reports the stream as corrupt or incomplete.
pub uninterp spec fn zlib_inflated(stream: Seq<u8>) -> Option<Seq<u8>>;

/// Compresses `data` with `flate2::write::ZlibEncoder` into a fresh vector:
/// one encoder at the default level, all of `data` written to it, and the
/// stream finished.
///
/// Believed, not proved: the outcome depends on the bytes of `data` alone.
/// It is the named result: the stream, or a failure with the text of the
/// crate's error where the encoder reports one. A stream that comes back is
/// one that the same crate's decoder turns back into `data`, which is what
/// the crate offers compression and decompression for. On which data the
/// encoder fails, if on any, is not said.
#[verifier::external_body]
pub(crate) fn zlib_compress(data: &[u8]) -> (stream: Result<Vec<u8>, String>)
    ensures
        match stream {
            Ok(bytes) => zlib_deflated(data@) == Some(bytes@) && zlib_inflated(bytes@) == Some(
                data@,
            ),
            Err(_) => zlib_deflated(data@) is None,
        },
{
    let mut encoder = ZlibEncoder::new(Vec::new(), Compression::default());
    match encoder.write_all(data) {
        Ok(()) => match encoder.finish() {
            Ok(bytes) => Ok(bytes),
            Err(e) => Err(e.to_string()),
        },
        Err(e) => Err(e.to_string()),
    }
}

/// Decompresses the zlib stream `stream` with `flate2::read::ZlibDecoder`,
/// reading the decoder to its end.
///
/// Believed, not proved: the outcome depends on the bytes of `stream` alone.
/// It is the named result: the recovered bytes, or a failure with the text
/// of the crate's error where the decoder rejects the stream.
#[verifier::external_body]
pub(crate) fn zlib_decompress(stream: &[u8]) -> (data: Result<Vec<u8>, String>)
    ensures
        match data {
            Ok(bytes) => zlib_inflated(stream@) == Some(bytes@),
            Err(_) => zlib_inflated(stream@) is None,
        },
{
    let mut bytes = Vec::new();
    match ZlibDecoder::new(stream).read_to_end(&mut bytes) {
        Ok(_) => Ok(bytes),
        Err(e) => Err(e.to_string()),
    }
}

} // verus!
