//! Scanning the chunk list of a RIFF container.
//!
//! Past its fixed prefix a RIFF stream is a run of chunks, each an 8-byte
//! header — a 4-byte tag and a `u32` little-endian body size — followed by
//! that many body bytes. [`find_chunk`] walks the headers from a starting
//! offset, skipping each body whole, until it meets the first chunk whose
//! tag equals the target; it never reads a body and never writes.
//!
//! The walk takes the declared body size at face value: an odd-sized body
//! is skipped by exactly its declared size, with no padding byte added, and
//! a size that overruns the stream simply leaves no room for another chunk
//! header, which surfaces as [`ScanError::UnexpectedEof`] on the next read.

use vstd::prelude::*;

use crate::header::HEADER_LEN;
use crate::le::{le32_at, read_u32_le};

verus! {

/// Why the scan came back empty-handed.
#[derive(Clone, Copy, Debug, PartialEq, Eq, Structural)]
pub enum ScanError {
    /// The stream ran out before a chunk with the target tag was met.
    UnexpectedEof,
}

/// The result of walking the chunk list of `s` from offset `pos` for the
/// first chunk tagged `target`: the chunk's declared body size paired with
/// the offset of its first body byte, or `None` when the walk falls off the
/// end of the stream first.
///
/// A full 8-byte chunk header must fit for a chunk to count; a final
/// truncated header, or a previous body size pointing past the end, ends
/// the walk empty-handed.
pub open spec fn scan_find(s: Seq<u8>, pos: int, target: Seq<u8>) -> Option<(u32, int)>
    decreases s.len() - pos,
{
    if pos < 0 || pos + 8 > s.len() {
        None
    } else {
        let size = le32_at(s, pos + 4);
        if s.subrange(pos, pos + 4) == target {
            Some((size, pos + 8))
        } else if pos + 8 + size > s.len() {
            None
        } else {
            scan_find(s, pos + 8 + size, target)
        }
    }
}

/// Compares the four bytes at `i..i + 4` of `b` with the tag `t`.
fn tag_eq(b: &[u8], i: usize, t: &[u8; 4]) -> (r: bool)
    requires
        i + 4 <= b@.len(),
    ensures
        r <==> b@.subrange(i as int, i + 4) == t@,
{
    let r = b[i] == t[0] && b[i + 1] == t[1] && b[i + 2] == t[2] && b[i + 3] == t[3];
    proof {
        if r {
            assert(b@.subrange(i as int, i + 4) =~= t@);
        } else {
            assert(b@.subrange(i as int, i + 4) != t@) by {
                if b@.subrange(i as int, i + 4) == t@ {
                    assert(b@[i as int + 0] == t@[0]);
                    assert(b@[i as int + 1] == t@[1]);
                    assert(b@[i as int + 2] == t@[2]);
                    assert(b@[i as int + 3] == t@[3]);
                }
            }
        }
    }
    r
}

/// Walks the chunk list of `stream` from offset `start` and returns, for
/// the first chunk whose tag equals `target`, the declared body size and
/// the offset of the first body byte — the place a reader's cursor stands
/// when it is about to consume the body. The body itself is not touched.
///
/// Fails with [`ScanError::UnexpectedEof`] exactly when no chunk with the
/// target tag is reachable: every earlier chunk has a different tag, and
/// the stream ends (or a declared size jumps past its end) before the next
/// full chunk header.
pub fn find_chunk(stream: &[u8], start: usize, target: &[u8; 4]) -> (r: Result<
    (u32, usize),
    ScanError,
>)
    ensures
        r is Ok <==> scan_find(stream@, start as int, target@) is Some,
        r matches Ok((size, body)) ==> scan_find(stream@, start as int, target@) == Some(
            (size, body as int),
        ),
        r is Err ==> r->Err_0 == ScanError::UnexpectedEof,
{
    let mut pos = start;
    loop
        invariant
            scan_find(stream@, start as int, target@) == scan_find(stream@, pos as int, target@),
        decreases stream@.len() - pos,
    {
        if pos > stream.len() || stream.len() - pos < 8 {
            return Err(ScanError::UnexpectedEof);
        }
        let size = read_u32_le(stream, pos + 4);
        if tag_eq(stream, pos, target) {
            return Ok((size, pos + 8));
        }
        let body_start = pos + 8;
        if stream.len() - body_start < size as usize {
            return Err(ScanError::UnexpectedEof);
        }
        pos = body_start + size as usize;
    }
}

/// Walks the chunk list that follows the fixed 44-byte header for the first
/// `data` chunk and returns its declared body size, as a caller that has
/// just decoded the header wants it. The stream must be the whole
/// container, from byte 0.
pub fn find_data_chunk(stream: &[u8]) -> (r: Result<u32, ScanError>)
    ensures
        r is Ok <==> scan_find(stream@, HEADER_LEN as int, data_tag()) is Some,
        r matches Ok(size) ==> scan_find(stream@, HEADER_LEN as int, data_tag()) matches Some(
            found,
        ) && found.0 == size,
        r is Err ==> r->Err_0 == ScanError::UnexpectedEof,
{
    let target: [u8; 4] = [0x64, 0x61, 0x74, 0x61];
    proof {
        assert(target@ =~= data_tag());
    }
    match find_chunk(stream, HEADER_LEN, &target) {
        Ok((size, _)) => Ok(size),
        Err(e) => Err(e),
    }
}

/// The ASCII bytes of the `data` tag.
pub open spec fn data_tag() -> Seq<u8> {
    seq![0x64u8, 0x61u8, 0x74u8, 0x61u8]
}

/// Law: the scan is deterministic. Its outcome is a function of the stream
/// contents, the starting offset and the target tag alone, so two scans
/// over identical contents from the same cursor agree — and [`find_chunk`]
/// returns exactly this outcome on every call.
pub proof fn lemma_scan_deterministic(s1: Seq<u8>, s2: Seq<u8>, pos: int, target: Seq<u8>)
    requires
        s1 == s2,
    ensures
        scan_find(s1, pos, target) == scan_find(s2, pos, target),
{
}

} // verus!
