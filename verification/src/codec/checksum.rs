//! The checksum of PNG chunks, computed by `crc32fast`.
//!
//! What this file states of `crc32fast` is believed rather than proved.
use vstd::prelude::*;

verus! {

/// The CRC-32 checksum of `bytes`, as `crc32fast` computes it: the
/// polynomial of IEEE 802.3, which is the one PNG prescribes for its chunks.
pub uninterp spec fn crc32(bytes: Seq<u8>) -> u32;

/// `crc32fast::hash` feeds the whole slice to a fresh hasher and returns the
/// finished checksum. Nothing but the bytes enters the computation, so the
/// result is the named checksum of the slice's bytes. This is believed, not
/// proved.
pub assume_specification[ crc32fast::hash ](buf: &[u8]) -> (checksum: u32)
    ensures
        checksum == crc32(buf@),
;

} // verus!
