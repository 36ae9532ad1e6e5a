//! Little-endian byte layouts of the fixed-width integers that the
//! canonical key encoding is built from.

use vstd::prelude::*;

verus! {

/// The 8-byte little-endian layout of a `u64`.
pub open spec fn u64_le_bytes(x: u64) -> Seq<u8> {
    seq![
        (x & 0xff) as u8,
        ((x >> 8) & 0xff) as u8,
        ((x >> 16) & 0xff) as u8,
        ((x >> 24) & 0xff) as u8,
        ((x >> 32) & 0xff) as u8,
        ((x >> 40) & 0xff) as u8,
        ((x >> 48) & 0xff) as u8,
        ((x >> 56) & 0xff) as u8,
    ]
}

/// The 4-byte little-endian layout of a `u32`.
pub open spec fn u32_le_bytes(x: u32) -> Seq<u8> {
    seq![
        (x & 0xff) as u8,
        ((x >> 8) & 0xff) as u8,
        ((x >> 16) & 0xff) as u8,
        ((x >> 24) & 0xff) as u8,
    ]
}

/// Two `u64` values with the same little-endian layout are equal.
pub proof fn lemma_u64_le_bytes_injective(x: u64, y: u64)
    requires
        u64_le_bytes(x) == u64_le_bytes(y),
    ensures
        x == y,
{
    assert(u64_le_bytes(x)[0] == u64_le_bytes(y)[0]);
    assert(u64_le_bytes(x)[1] == u64_le_bytes(y)[1]);
    assert(u64_le_bytes(x)[2] == u64_le_bytes(y)[2]);
    assert(u64_le_bytes(x)[3] == u64_le_bytes(y)[3]);
    assert(u64_le_bytes(x)[4] == u64_le_bytes(y)[4]);
    assert(u64_le_bytes(x)[5] == u64_le_bytes(y)[5]);
    assert(u64_le_bytes(x)[6] == u64_le_bytes(y)[6]);
    assert(u64_le_bytes(x)[7] == u64_le_bytes(y)[7]);
    assert((
        (x & 0xff) as u8 == (y & 0xff) as u8
        && ((x >> 8) & 0xff) as u8 == ((y >> 8) & 0xff) as u8
        && ((x >> 16) & 0xff) as u8 == ((y >> 16) & 0xff) as u8
        && ((x >> 24) & 0xff) as u8 == ((y >> 24) & 0xff) as u8
        && ((x >> 32) & 0xff) as u8 == ((y >> 32) & 0xff) as u8
        && ((x >> 40) & 0xff) as u8 == ((y >> 40) & 0xff) as u8
        && ((x >> 48) & 0xff) as u8 == ((y >> 48) & 0xff) as u8
        && ((x >> 56) & 0xff) as u8 == ((y >> 56) & 0xff) as u8
    ) ==> x == y) by (bit_vector);
}

/// Two `u32` values with the same little-endian layout are equal.
pub proof fn lemma_u32_le_bytes_injective(x: u32, y: u32)
    requires
        u32_le_bytes(x) == u32_le_bytes(y),
    ensures
        x == y,
{
    assert(u32_le_bytes(x)[0] == u32_le_bytes(y)[0]);
    assert(u32_le_bytes(x)[1] == u32_le_bytes(y)[1]);
    assert(u32_le_bytes(x)[2] == u32_le_bytes(y)[2]);
    assert(u32_le_bytes(x)[3] == u32_le_bytes(y)[3]);
    assert((
        (x & 0xff) as u8 == (y & 0xff) as u8
        && ((x >> 8) & 0xff) as u8 == ((y >> 8) & 0xff) as u8
        && ((x >> 16) & 0xff) as u8 == ((y >> 16) & 0xff) as u8
        && ((x >> 24) & 0xff) as u8 == ((y >> 24) & 0xff) as u8
    ) ==> x == y) by (bit_vector);
}

} // verus!
