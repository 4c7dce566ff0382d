//! Bus actor logic: building parity-adjusted bus requests and planning the
//! transfer sequence each request demands.
//!
//! A bus request is five bytes: a length tag, then the parity-adjusted
//! 32-bit payload in big-endian order. The owning task transfers the first
//! payload word always, the second word when the tag exceeds one, and a
//! trailing all-zero word (the read-back) when the tag is non-zero; a fixed
//! settling delay follows every transfer, and the bytes returned by the
//! last transfer are the request's result.

use vstd::prelude::*;
use crate::bytes::u32_of_be;
use crate::bytes::u32_to_be;
use crate::bytes::lemma_u32_be_round_trip;
use crate::parity::ones16;
use crate::parity::parity_set;
use crate::parity::word_hi;
use crate::parity::word_lo;

verus! {

/// The parity-adjusted payload a 5-byte bus request carries in its last
/// four bytes.
pub open spec fn request_payload(r: Seq<u8>) -> u32
    recommends
        r.len() == 5,
{
    u32_of_be(r[1], r[2], r[3], r[4])
}

/// What a well-formed bus request promises of its payload: both 16-bit
/// halves have even parity, and every bit outside the two markers equals
/// the corresponding bit of the message.
pub open spec fn request_carries(r: Seq<u8>, len: u8, msg: u32) -> bool {
    &&& r.len() == 5
    &&& r[0] == len
    &&& ones16(word_hi(request_payload(r))) % 2 == 0
    &&& ones16(word_lo(request_payload(r))) % 2 == 0
    &&& request_payload(r) & 0x7FFF7FFF == msg & 0x7FFF7FFF
}

fn spi_frame(len: u8, msg: u32) -> (r: [u8; 5])
    ensures
        request_carries(r@, len, msg),
{
    let p = parity_set(msg);
    let b = u32_to_be(p);
    let r = [len, b[0], b[1], b[2], b[3]];
    proof {
        lemma_u32_be_round_trip(p);
        assert(request_payload(r@) == p);
    }
    r
}

/// Builds the bus-read request for a command word: length tag 1, so the
/// payload's first word is transferred and one read-back follows.
pub fn spi_read(msg: u32) -> (r: [u8; 5])
    ensures
        request_carries(r@, 1, msg),
{
    spi_frame(1, msg)
}

/// Builds the bus-write request for a command word: length tag 2, so both
/// payload words are transferred before the read-back.
pub fn spi_write(msg: u32) -> (r: [u8; 5])
    ensures
        request_carries(r@, 2, msg),
{
    spi_frame(2, msg)
}

/// Builds the raw passthrough request: the word's low 16 bits are moved to
/// the payload's first word and the length tag is 0, so exactly that word
/// is transferred and nothing is read back.
pub fn spi_debug(msg: u32) -> (r: [u8; 5])
    ensures
        request_carries(r@, 0, msg << 16),
{
    spi_frame(0, msg << 16)
}

/// How many no-op transactions a stress-test command asks for: the
/// command word's low 16 bits.
pub fn spi_stress_count(msg: u32) -> (n: u16)
    ensures
        n == (msg & 0xFFFF) as u16,
{
    (msg & 0xFFFF) as u16
}

/// The 2-byte words the bus task transfers for one request, in order:
/// the first payload word always, the second when the length tag exceeds
/// one, and a trailing all-zero read-back word when the tag is non-zero.
/// The device's answer to the last word is the request's result.
pub fn spi_transfer_words(req: &[u8; 5]) -> (words: Vec<[u8; 2]>)
    ensures
        words@.len() == (if req[0] > 1 {
            3int
        } else if req[0] > 0 {
            2int
        } else {
            1int
        }),
        words@[0][0] == req[1] && words@[0][1] == req[2],
        req[0] > 1 ==> words@[1][0] == req[3] && words@[1][1] == req[4],
        req[0] > 0 ==> words@[words@.len() - 1][0] == 0 && words@[words@.len() - 1][1] == 0,
{
    let mut words: Vec<[u8; 2]> = Vec::new();
    words.push([req[1], req[2]]);
    if req[0] > 1 {
        words.push([req[3], req[4]]);
    }
    if req[0] > 0 {
        words.push([0, 0]);
    }
    words
}

} // verus!
