//! Little-endian byte layouts of integers, as `to_le_bytes` and `from_le_bytes` give them.

use vstd::prelude::*;

verus! {

/// The little-endian bytes of a `u64` (`u64::to_le_bytes`).
pub open spec fn le_bytes_u64(v: u64) -> Seq<u8> {
    seq![
        v as u8,
        (v >> 8u64) as u8,
        (v >> 16u64) as u8,
        (v >> 24u64) as u8,
        (v >> 32u64) as u8,
        (v >> 40u64) as u8,
        (v >> 48u64) as u8,
        (v >> 56u64) as u8,
    ]
}

/// The little-endian bytes of a `u32` (`u32::to_le_bytes`).
pub open spec fn le_bytes_u32(v: u32) -> Seq<u8> {
    seq![v as u8, (v >> 8u32) as u8, (v >> 16u32) as u8, (v >> 24u32) as u8]
}

/// The `u32` whose little-endian bytes are `b0, b1, b2, b3` (`u32::from_le_bytes`).
pub open spec fn u32_from_le(b0: u8, b1: u8, b2: u8, b3: u8) -> u32 {
    (b0 as u32) | ((b1 as u32) << 8u32) | ((b2 as u32) << 16u32) | ((b3 as u32) << 24u32)
}

/// The `u64` whose little-endian bytes are `b` (`u64::from_le_bytes`).
pub open spec fn u64_from_le(b: Seq<u8>) -> u64 {
    (b[0] as u64) | ((b[1] as u64) << 8u64) | ((b[2] as u64) << 16u64) | ((b[3] as u64) << 24u64)
        | ((b[4] as u64) << 32u64) | ((b[5] as u64) << 40u64) | ((b[6] as u64) << 48u64) | ((
    b[7] as u64) << 56u64)
}

/// Reading the little-endian bytes of a `u32` gives the value back.
pub proof fn lemma_u32_le_roundtrip(v: u32)
    ensures
        u32_from_le(le_bytes_u32(v)[0], le_bytes_u32(v)[1], le_bytes_u32(v)[2], le_bytes_u32(v)[3])
            == v,
{
    let b = le_bytes_u32(v);
    assert(b[0] == v as u8 && b[1] == (v >> 8u32) as u8 && b[2] == (v >> 16u32) as u8 && b[3] == (v
        >> 24u32) as u8);
    assert(((v as u8) as u32) | ((((v >> 8u32) as u8) as u32) << 8u32) | ((((v >> 16u32) as u8)
        as u32) << 16u32) | ((((v >> 24u32) as u8) as u32) << 24u32) == v) by (bit_vector);
}

/// Reading the little-endian bytes of a `u64` gives the value back.
pub proof fn lemma_u64_le_roundtrip(v: u64)
    ensures
        u64_from_le(le_bytes_u64(v)) == v,
{
    let b = le_bytes_u64(v);
    assert(b[0] == v as u8 && b[1] == (v >> 8u64) as u8 && b[2] == (v >> 16u64) as u8 && b[3] == (v
        >> 24u64) as u8);
    assert(b[4] == (v >> 32u64) as u8 && b[5] == (v >> 40u64) as u8 && b[6] == (v >> 48u64) as u8
        && b[7] == (v >> 56u64) as u8);
    assert(((v as u8) as u64) | ((((v >> 8u64) as u8) as u64) << 8u64) | ((((v >> 16u64) as u8)
        as u64) << 16u64) | ((((v >> 24u64) as u8) as u64) << 24u64) | ((((v >> 32u64) as u8)
        as u64) << 32u64) | ((((v >> 40u64) as u8) as u64) << 40u64) | ((((v >> 48u64) as u8)
        as u64) << 48u64) | ((((v >> 56u64) as u8) as u64) << 56u64) == v) by (bit_vector);
}

/// The little-endian bytes of a `u32` are its base-256 digits, least significant first.
pub proof fn law_le_bytes_u32_digits(v: u32)
    ensures
        le_bytes_u32(v).len() == 4,
        le_bytes_u32(v)[0] == v % 256,
        le_bytes_u32(v)[1] == (v / 256) % 256,
        le_bytes_u32(v)[2] == (v / 65536) % 256,
        le_bytes_u32(v)[3] == v / 16777216,
{
    assert(((v as u8) as u32) == v % 256) by (bit_vector);
    assert((((v >> 8u32) as u8) as u32) == (v / 256) % 256) by (bit_vector);
    assert((((v >> 16u32) as u8) as u32) == (v / 65536) % 256) by (bit_vector);
    assert((((v >> 24u32) as u8) as u32) == v / 16777216) by (bit_vector);
}

/// The little-endian bytes of a `u64` are its base-256 digits, least significant first.
pub proof fn law_le_bytes_u64_digits(v: u64)
    ensures
        le_bytes_u64(v).len() == 8,
        le_bytes_u64(v)[0] == v % 0x100,
        le_bytes_u64(v)[1] == (v / 0x100) % 0x100,
        le_bytes_u64(v)[2] == (v / 0x1_0000) % 0x100,
        le_bytes_u64(v)[3] == (v / 0x100_0000) % 0x100,
        le_bytes_u64(v)[4] == (v / 0x1_0000_0000) % 0x100,
        le_bytes_u64(v)[5] == (v / 0x100_0000_0000) % 0x100,
        le_bytes_u64(v)[6] == (v / 0x1_0000_0000_0000) % 0x100,
        le_bytes_u64(v)[7] == v / 0x100_0000_0000_0000,
{
    assert(((v as u8) as u64) == v % 0x100) by (bit_vector);
    assert((((v >> 8u64) as u8) as u64) == (v / 0x100) % 0x100) by (bit_vector);
    assert((((v >> 16u64) as u8) as u64) == (v / 0x1_0000) % 0x100) by (bit_vector);
    assert((((v >> 24u64) as u8) as u64) == (v / 0x100_0000) % 0x100) by (bit_vector);
    assert((((v >> 32u64) as u8) as u64) == (v / 0x1_0000_0000) % 0x100) by (bit_vector);
    assert((((v >> 40u64) as u8) as u64) == (v / 0x100_0000_0000) % 0x100) by (bit_vector);
    assert((((v >> 48u64) as u8) as u64) == (v / 0x1_0000_0000_0000) % 0x100) by (bit_vector);
    assert((((v >> 56u64) as u8) as u64) == v / 0x100_0000_0000_0000) by (bit_vector);
}

/// Reading four bytes little-endian gives the number whose base-256 digits they
/// are, least significant first.
pub proof fn law_u32_from_le_value(b0: u8, b1: u8, b2: u8, b3: u8)
    ensures
        u32_from_le(b0, b1, b2, b3) == b0 + 256 * b1 + 65536 * b2 + 16777216 * b3,
{
    assert((b0 as u32) | ((b1 as u32) << 8u32) | ((b2 as u32) << 16u32) | ((b3 as u32) << 24u32)
        == b0 + 256 * b1 + 65536 * b2 + 16777216 * b3) by (bit_vector);
}

/// Appends the little-endian bytes of `v`.
pub(crate) fn push_le_u64(out: &mut Vec<u8>, v: u64)
    ensures
        final(out)@ == old(out)@ + le_bytes_u64(v),
{
    out.push(v as u8);
    out.push((v >> 8u64) as u8);
    out.push((v >> 16u64) as u8);
    out.push((v >> 24u64) as u8);
    out.push((v >> 32u64) as u8);
    out.push((v >> 40u64) as u8);
    out.push((v >> 48u64) as u8);
    out.push((v >> 56u64) as u8);
    assert(final(out)@ =~= old(out)@ + le_bytes_u64(v));
}

/// Appends the little-endian bytes of `v`.
pub(crate) fn push_le_u32(out: &mut Vec<u8>, v: u32)
    ensures
        final(out)@ == old(out)@ + le_bytes_u32(v),
{
    out.push(v as u8);
    out.push((v >> 8u32) as u8);
    out.push((v >> 16u32) as u8);
    out.push((v >> 24u32) as u8);
    assert(final(out)@ =~= old(out)@ + le_bytes_u32(v));
}

/// Reads a little-endian `u32` from four bytes.
pub(crate) fn read_le_u32(b0: u8, b1: u8, b2: u8, b3: u8) -> (r: u32)
    ensures
        r == u32_from_le(b0, b1, b2, b3),
{
    (b0 as u32) | ((b1 as u32) << 8u32) | ((b2 as u32) << 16u32) | ((b3 as u32) << 24u32)
}

} // verus!
