use wavscan::header::{parse_wav_header, DecodeError};
use wavscan::le::{read_u16_le, read_u32_le, write_u16_le, write_u32_le};

/// A canonical 44-byte header: PCM, stereo, 44.1 kHz, 16-bit, with a
/// `data` subchunk of `data_size` bytes declared at the fixed offset.
fn canonical_header(data_size: u32) -> Vec<u8> {
    let mut h = Vec::new();
    h.extend_from_slice(b"RIFF");
    h.extend_from_slice(&write_u32_le(36 + data_size));
    h.extend_from_slice(b"WAVE");
    h.extend_from_slice(b"fmt ");
    h.extend_from_slice(&write_u32_le(16));
    h.extend_from_slice(&write_u16_le(1)); // PCM
    h.extend_from_slice(&write_u16_le(2)); // stereo
    h.extend_from_slice(&write_u32_le(44100));
    h.extend_from_slice(&write_u32_le(176400));
    h.extend_from_slice(&write_u16_le(4));
    h.extend_from_slice(&write_u16_le(16));
    h.extend_from_slice(b"data");
    h.extend_from_slice(&write_u32_le(data_size));
    assert_eq!(h.len(), 44);
    h
}

#[test]
fn parses_canonical_header_fields() {
    let bytes = canonical_header(1000);
    let h = parse_wav_header(&bytes).expect("44 bytes must decode");
    assert_eq!(&h.chunk_id, b"RIFF");
    assert_eq!(h.chunk_size, 1036);
    assert_eq!(&h.format, b"WAVE");
    assert_eq!(&h.fmt_subchunk_id, b"fmt ");
    assert_eq!(h.fmt_subchunk_size, 16);
    assert_eq!(h.audio_format, 1);
    assert_eq!(h.num_channels, 2);
    assert_eq!(h.sample_rate, 44100);
    assert_eq!(h.byte_rate, 176400);
    assert_eq!(h.block_align, 4);
    assert_eq!(h.bits_per_sample, 16);
    assert_eq!(&h.data_subchunk_id, b"data");
    assert_eq!(h.data_subchunk_size, 1000);
}

#[test]
fn short_buffer_fails_regardless_of_content() {
    let h = canonical_header(8);
    for len in [0usize, 1, 20, 43] {
        let r = parse_wav_header(&h[..len]);
        assert!(matches!(r, Err(DecodeError::InsufficientData)));
    }
}

#[test]
fn exact_44_bytes_always_decode() {
    // Arbitrary content, including bytes that are not valid ASCII or UTF-8:
    // decoding only needs the length, and tags come through verbatim.
    let bytes: Vec<u8> = (0..44u8).map(|i| 0xF0u8.wrapping_add(i)).collect();
    let h = parse_wav_header(&bytes).expect("exactly 44 bytes must decode");
    assert_eq!(h.chunk_id, [0xF0, 0xF1, 0xF2, 0xF3]);
    assert_eq!(h.data_subchunk_id, [0x14, 0x15, 0x16, 0x17]);
    assert_eq!(h.chunk_size, u32::from_le_bytes([0xF4, 0xF5, 0xF6, 0xF7]));
}

#[test]
fn longer_buffer_uses_first_44_bytes_only() {
    let mut bytes = canonical_header(7);
    bytes.extend_from_slice(&[0xAA; 300]);
    let h = parse_wav_header(&bytes).expect("long buffer must decode");
    assert_eq!(&h.chunk_id, b"RIFF");
    assert_eq!(h.data_subchunk_size, 7);
}

#[test]
fn u32_field_byte_round_trip() {
    // Decoding then re-encoding a stored field is lossless.
    for bytes in [
        [0x00, 0x00, 0x00, 0x00],
        [0x44, 0xAC, 0x00, 0x00],
        [0x10, 0xB1, 0x02, 0x00],
        [0xFF, 0xFF, 0xFF, 0xFF],
        [0x78, 0x56, 0x34, 0x12],
    ] {
        let v = read_u32_le(&bytes, 0);
        assert_eq!(write_u32_le(v), bytes);
    }
    assert_eq!(read_u32_le(&[0x44, 0xAC, 0x00, 0x00], 0), 44100);
}

#[test]
fn u16_field_byte_round_trip() {
    for bytes in [[0x00, 0x00], [0x01, 0x00], [0x10, 0x00], [0xFF, 0xFF], [0x34, 0x12]] {
        let v = read_u16_le(&bytes, 0);
        assert_eq!(write_u16_le(v), bytes);
    }
    assert_eq!(read_u16_le(&[0x34, 0x12], 0), 0x1234);
}

#[test]
fn value_round_trip_matches_std_encoding() {
    for v in [0u32, 1, 255, 256, 44100, 176400, 0xDEADBEEF, u32::MAX] {
        assert_eq!(write_u32_le(v), v.to_le_bytes());
        assert_eq!(read_u32_le(&v.to_le_bytes(), 0), v);
    }
    for v in [0u16, 1, 255, 256, 0x1234, u16::MAX] {
        assert_eq!(write_u16_le(v), v.to_le_bytes());
        assert_eq!(read_u16_le(&v.to_le_bytes(), 0), v);
    }
}

#[test]
fn reads_at_nonzero_offsets() {
    let bytes = [0xEEu8, 0x01, 0x02, 0x03, 0x04, 0x05, 0x06];
    assert_eq!(read_u16_le(&bytes, 1), 0x0201);
    assert_eq!(read_u32_le(&bytes, 3), 0x06050403);
}
