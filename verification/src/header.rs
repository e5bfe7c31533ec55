//! The fixed-layout 44-byte WAVE header.
//!
//! A canonical WAVE file starts with a `RIFF` chunk header, the `WAVE` form
//! tag, a 16-byte `fmt ` subchunk, and a subchunk header at bytes 36..44.
//! [`parse_wav_header`] copies that fixed window field by field; it checks
//! only that enough bytes are present, never the tag contents, so malformed
//! or non-ASCII tags are carried through verbatim as raw bytes.

use vstd::prelude::*;

use crate::le::{le16_at, le32_at, read_u16_le, read_u32_le};

verus! {

/// The number of bytes the fixed header occupies, and the offset at which
/// the chunk list begins.
pub const HEADER_LEN: usize = 44;

/// The fixed 44-byte prefix of a WAVE container, decoded field by field.
///
/// Tags are kept as raw bytes: they are conventionally ASCII (`RIFF`,
/// `WAVE`, `fmt `, `data`) but nothing enforces that, and decoding must not
/// lose or reject unusual bytes. The two `data_subchunk` fields mirror
/// bytes 36..44 of the prefix; they name the real data chunk only in
/// canonical files where nothing stands between `fmt ` and `data` — the
/// chunk scanner is the reliable way to locate it.
#[derive(Clone, Copy, Debug)]
pub struct WavHeader {
    /// Bytes 0..4, `RIFF` in a well-formed container.
    pub chunk_id: [u8; 4],
    /// Bytes 4..8, the total file size minus 8.
    pub chunk_size: u32,
    /// Bytes 8..12, `WAVE` in a well-formed container.
    pub format: [u8; 4],
    /// Bytes 12..16, `fmt ` in a well-formed container.
    pub fmt_subchunk_id: [u8; 4],
    /// Bytes 16..20, the size of the format subchunk body (16 for PCM).
    pub fmt_subchunk_size: u32,
    /// Bytes 20..22, the compression code (1 for PCM).
    pub audio_format: u16,
    /// Bytes 22..24, the channel count.
    pub num_channels: u16,
    /// Bytes 24..28, samples per second.
    pub sample_rate: u32,
    /// Bytes 28..32, average bytes per second.
    pub byte_rate: u32,
    /// Bytes 32..34, bytes per sample frame.
    pub block_align: u16,
    /// Bytes 34..36, bit depth of one sample.
    pub bits_per_sample: u16,
    /// Bytes 36..40, `data` only in canonical files.
    pub data_subchunk_id: [u8; 4],
    /// Bytes 40..44, the size field beside `data_subchunk_id`.
    pub data_subchunk_size: u32,
}

/// Why header decoding failed.
#[derive(Clone, Copy, Debug, PartialEq, Eq, Structural)]
pub enum DecodeError {
    /// The buffer holds fewer than the 44 bytes the fixed header needs.
    InsufficientData,
}

/// Copies bytes `i..i + 4` of `b` into a 4-byte tag.
fn read_tag(b: &[u8], i: usize) -> (r: [u8; 4])
    requires
        i + 4 <= b@.len(),
    ensures
        r@ == b@.subrange(i as int, i + 4),
{
    let r: [u8; 4] = [b[i], b[i + 1], b[i + 2], b[i + 3]];
    proof {
        assert(r@ =~= b@.subrange(i as int, i + 4));
    }
    r
}

/// Decodes the fixed 44-byte WAVE header from the front of `buffer`.
///
/// Succeeds exactly when at least [`HEADER_LEN`] bytes are present; every
/// field is then read from its fixed offset, integers little-endian, tags
/// verbatim. Content is never validated, so no other error can occur.
pub fn parse_wav_header(buffer: &[u8]) -> (r: Result<WavHeader, DecodeError>)
    ensures
        r is Ok <==> buffer@.len() >= HEADER_LEN,
        r is Err ==> r->Err_0 == DecodeError::InsufficientData,
        r matches Ok(h) ==> {
            &&& h.chunk_id@ == buffer@.subrange(0, 4)
            &&& h.chunk_size == le32_at(buffer@, 4)
            &&& h.format@ == buffer@.subrange(8, 12)
            &&& h.fmt_subchunk_id@ == buffer@.subrange(12, 16)
            &&& h.fmt_subchunk_size == le32_at(buffer@, 16)
            &&& h.audio_format == le16_at(buffer@, 20)
            &&& h.num_channels == le16_at(buffer@, 22)
            &&& h.sample_rate == le32_at(buffer@, 24)
            &&& h.byte_rate == le32_at(buffer@, 28)
            &&& h.block_align == le16_at(buffer@, 32)
            &&& h.bits_per_sample == le16_at(buffer@, 34)
            &&& h.data_subchunk_id@ == buffer@.subrange(36, 40)
            &&& h.data_subchunk_size == le32_at(buffer@, 40)
        },
{
    if buffer.len() < HEADER_LEN {
        return Err(DecodeError::InsufficientData);
    }
    Ok(
        WavHeader {
            chunk_id: read_tag(buffer, 0),
            chunk_size: read_u32_le(buffer, 4),
            format: read_tag(buffer, 8),
            fmt_subchunk_id: read_tag(buffer, 12),
            fmt_subchunk_size: read_u32_le(buffer, 16),
            audio_format: read_u16_le(buffer, 20),
            num_channels: read_u16_le(buffer, 22),
            sample_rate: read_u32_le(buffer, 24),
            byte_rate: read_u32_le(buffer, 28),
            block_align: read_u16_le(buffer, 32),
            bits_per_sample: read_u16_le(buffer, 34),
            data_subchunk_id: read_tag(buffer, 36),
            data_subchunk_size: read_u32_le(buffer, 40),
        },
    )
}

} // verus!
