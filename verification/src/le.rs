//! Little-endian views of byte sequences.
//!
//! Every multi-byte integer field of a RIFF container is stored
//! least-significant byte first. The spec functions here give the
//! mathematical meaning of such a field, the exec functions read and write
//! it, and the lemmas show that decoding and encoding are mutually inverse.

use vstd::prelude::*;

verus! {

/// The unsigned 16-bit value stored little-endian at offset `i` of `s`.
pub open spec fn le16_at(s: Seq<u8>, i: int) -> u16
    recommends
        0 <= i,
        i + 2 <= s.len(),
{
    (s[i] + s[i + 1] * 0x100) as u16
}

/// The unsigned 32-bit value stored little-endian at offset `i` of `s`.
pub open spec fn le32_at(s: Seq<u8>, i: int) -> u32
    recommends
        0 <= i,
        i + 4 <= s.len(),
{
    (s[i] + s[i + 1] * 0x100 + s[i + 2] * 0x1_0000 + s[i + 3] * 0x100_0000) as u32
}

/// The 2-byte little-endian encoding of `v`.
pub open spec fn u16_le_bytes(v: u16) -> Seq<u8> {
    seq![(v % 0x100) as u8, ((v / 0x100) % 0x100) as u8]
}

/// The 4-byte little-endian encoding of `v`.
pub open spec fn u32_le_bytes(v: u32) -> Seq<u8> {
    seq![
        (v % 0x100) as u8,
        ((v / 0x100) % 0x100) as u8,
        ((v / 0x1_0000) % 0x100) as u8,
        ((v / 0x100_0000) % 0x100) as u8,
    ]
}

/// Reads the little-endian `u16` stored at offset `i` of `b`.
pub fn read_u16_le(b: &[u8], i: usize) -> (r: u16)
    requires
        i + 2 <= b@.len(),
    ensures
        r == le16_at(b@, i as int),
{
    b[i] as u16 + (b[i + 1] as u16) * 0x100
}

/// Reads the little-endian `u32` stored at offset `i` of `b`.
pub fn read_u32_le(b: &[u8], i: usize) -> (r: u32)
    requires
        i + 4 <= b@.len(),
    ensures
        r == le32_at(b@, i as int),
{
    b[i] as u32 + (b[i + 1] as u32) * 0x100 + (b[i + 2] as u32) * 0x1_0000 + (b[i + 3] as u32)
        * 0x100_0000
}

/// Writes `v` as its 2-byte little-endian encoding.
pub fn write_u16_le(v: u16) -> (r: [u8; 2])
    ensures
        r@ == u16_le_bytes(v),
{
    let r: [u8; 2] = [(v % 0x100) as u8, ((v / 0x100) % 0x100) as u8];
    proof {
        assert(r@ =~= u16_le_bytes(v));
    }
    r
}

/// Writes `v` as its 4-byte little-endian encoding.
pub fn write_u32_le(v: u32) -> (r: [u8; 4])
    ensures
        r@ == u32_le_bytes(v),
{
    let r: [u8; 4] = [
        (v % 0x100) as u8,
        ((v / 0x100) % 0x100) as u8,
        ((v / 0x1_0000) % 0x100) as u8,
        ((v / 0x100_0000) % 0x100) as u8,
    ];
    proof {
        assert(r@ =~= u32_le_bytes(v));
    }
    r
}

/// Law: re-encoding the `u16` decoded from two bytes gives those bytes back.
/// Every 2-byte window is a valid little-endian encoding, and decoding it
/// loses nothing.
pub proof fn lemma_le16_bytes_round_trip(s: Seq<u8>, i: int)
    requires
        0 <= i,
        i + 2 <= s.len(),
    ensures
        u16_le_bytes(le16_at(s, i)) == s.subrange(i, i + 2),
{
    let v = le16_at(s, i) as int;
    vstd::arithmetic::div_mod::lemma_fundamental_div_mod_converse(
        v,
        0x100,
        s[i + 1] as int,
        s[i] as int,
    );
    assert(u16_le_bytes(le16_at(s, i)) =~= s.subrange(i, i + 2));
}

/// Law: re-encoding the `u32` decoded from four bytes gives those bytes back.
pub proof fn lemma_le32_bytes_round_trip(s: Seq<u8>, i: int)
    requires
        0 <= i,
        i + 4 <= s.len(),
    ensures
        u32_le_bytes(le32_at(s, i)) == s.subrange(i, i + 4),
{
    let v = le32_at(s, i) as int;
    let b0 = s[i] as int;
    let b1 = s[i + 1] as int;
    let b2 = s[i + 2] as int;
    let b3 = s[i + 3] as int;
    assert(v == b0 + (b1 + b2 * 0x100 + b3 * 0x1_0000) * 0x100);
    vstd::arithmetic::div_mod::lemma_fundamental_div_mod_converse(
        v,
        0x100,
        b1 + b2 * 0x100 + b3 * 0x1_0000,
        b0,
    );
    vstd::arithmetic::div_mod::lemma_fundamental_div_mod_converse(
        v / 0x100,
        0x100,
        b2 + b3 * 0x100,
        b1,
    );
    vstd::arithmetic::div_mod::lemma_fundamental_div_mod_converse(
        v / 0x100 / 0x100,
        0x100,
        b3,
        b2,
    );
    vstd::arithmetic::div_mod::lemma_div_denominator(v, 0x100, 0x100);
    vstd::arithmetic::div_mod::lemma_div_denominator(v, 0x1_0000, 0x100);
    assert(u32_le_bytes(le32_at(s, i)) =~= s.subrange(i, i + 4));
}

/// Law: decoding the 2-byte encoding of `v` gives `v` back.
pub proof fn lemma_le16_value_round_trip(v: u16)
    ensures
        le16_at(u16_le_bytes(v), 0) == v,
{
    vstd::arithmetic::div_mod::lemma_fundamental_div_mod(v as int, 0x100);
}

/// Law: decoding the 4-byte encoding of `v` gives `v` back.
pub proof fn lemma_le32_value_round_trip(v: u32)
    ensures
        le32_at(u32_le_bytes(v), 0) == v,
{
    vstd::arithmetic::div_mod::lemma_fundamental_div_mod(v as int, 0x100);
    vstd::arithmetic::div_mod::lemma_fundamental_div_mod(v as int / 0x100, 0x100);
    vstd::arithmetic::div_mod::lemma_fundamental_div_mod(v as int / 0x100 / 0x100, 0x100);
    vstd::arithmetic::div_mod::lemma_div_denominator(v as int, 0x100, 0x100);
    vstd::arithmetic::div_mod::lemma_div_denominator(v as int, 0x1_0000, 0x100);
}

} // verus!
