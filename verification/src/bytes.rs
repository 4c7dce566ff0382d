//! Conversions between integers and their big-endian byte forms, shared by
//! the wire codec and every peripheral's request/response shapes.

use vstd::prelude::*;

verus! {

/// High byte of a 16-bit value in big-endian order.
pub open spec fn u16_hi(v: u16) -> u8 {
    (v >> 8) as u8
}

/// Low byte of a 16-bit value in big-endian order.
pub open spec fn u16_lo(v: u16) -> u8 {
    (v & 0xFF) as u8
}

/// The 16-bit value carried by two bytes in big-endian order.
pub open spec fn u16_of_be(b0: u8, b1: u8) -> u16 {
    ((b0 as u16) << 8) | (b1 as u16)
}

/// Most significant byte of a 32-bit value in big-endian order.
pub open spec fn u32_b0(w: u32) -> u8 {
    ((w >> 24) & 0xFF) as u8
}

/// Second byte of a 32-bit value in big-endian order.
pub open spec fn u32_b1(w: u32) -> u8 {
    ((w >> 16) & 0xFF) as u8
}

/// Third byte of a 32-bit value in big-endian order.
pub open spec fn u32_b2(w: u32) -> u8 {
    ((w >> 8) & 0xFF) as u8
}

/// Least significant byte of a 32-bit value in big-endian order.
pub open spec fn u32_b3(w: u32) -> u8 {
    (w & 0xFF) as u8
}

/// The 32-bit value carried by four bytes in big-endian order.
pub open spec fn u32_of_be(b0: u8, b1: u8, b2: u8, b3: u8) -> u32 {
    ((b0 as u32) << 24) | ((b1 as u32) << 16) | ((b2 as u32) << 8) | (b3 as u32)
}

pub proof fn lemma_u16_be_round_trip(v: u16)
    by (bit_vector)
    ensures
        u16_of_be(u16_hi(v), u16_lo(v)) == v,
{
}

pub proof fn lemma_u16_be_bytes_inverse(b0: u8, b1: u8)
    by (bit_vector)
    ensures
        u16_hi(u16_of_be(b0, b1)) == b0,
        u16_lo(u16_of_be(b0, b1)) == b1,
{
}

pub proof fn lemma_u32_be_round_trip(w: u32)
    by (bit_vector)
    ensures
        u32_of_be(u32_b0(w), u32_b1(w), u32_b2(w), u32_b3(w)) == w,
{
}

/// Splits a 16-bit value into its two big-endian bytes.
pub fn u16_to_be(v: u16) -> (r: [u8; 2])
    ensures
        r[0] == u16_hi(v),
        r[1] == u16_lo(v),
        u16_of_be(r[0], r[1]) == v,
{
    proof {
        lemma_u16_be_round_trip(v);
    }
    [(v >> 8) as u8, (v & 0xFF) as u8]
}

/// Reads a 16-bit value from two bytes in big-endian order.
pub fn u16_from_be(b0: u8, b1: u8) -> (v: u16)
    ensures
        v == u16_of_be(b0, b1),
{
    ((b0 as u16) << 8) | (b1 as u16)
}

/// Splits a 32-bit value into its four big-endian bytes.
pub fn u32_to_be(w: u32) -> (r: [u8; 4])
    ensures
        r[0] == u32_b0(w),
        r[1] == u32_b1(w),
        r[2] == u32_b2(w),
        r[3] == u32_b3(w),
{
    [((w >> 24) & 0xFF) as u8, ((w >> 16) & 0xFF) as u8, ((w >> 8) & 0xFF) as u8, (w & 0xFF) as u8]
}

/// Reads a 32-bit value from four bytes in big-endian order.
pub fn u32_from_be(b0: u8, b1: u8, b2: u8, b3: u8) -> (w: u32)
    ensures
        w == u32_of_be(b0, b1, b2, b3),
{
    ((b0 as u32) << 24) | ((b1 as u32) << 16) | ((b2 as u32) << 8) | (b3 as u32)
}

} // verus!
