//! Per-half even-parity adjustment of 32-bit bus payloads.
//!
//! The control microcontroller expects every 16-bit half of a transmitted
//! word to carry an even number of set bits. Before a word goes on the bus,
//! a marker bit in each half (bit 31 for the high half, bit 15 for the low
//! half) is flipped whenever that half's population count is odd.

use vstd::prelude::*;
use vstd::arithmetic::div_mod::lemma_div_denominator;
use vstd::arithmetic::power2::lemma2_to64;
use vstd::arithmetic::power2::lemma_pow2_unfold;
use vstd::arithmetic::power2::pow2;

verus! {

/// Number of set bits in a 16-bit value.
pub open spec fn ones16(x: u16) -> nat
    decreases x,
{
    if x == 0 {
        0
    } else {
        ((x % 2) + ones16(x / 2)) as nat
    }
}

/// High 16-bit half of a 32-bit word.
pub open spec fn word_hi(w: u32) -> u16 {
    (w >> 16) as u16
}

/// Low 16-bit half of a 32-bit word.
pub open spec fn word_lo(w: u32) -> u16 {
    (w & 0xFFFF) as u16
}

proof fn lemma_ones16_unfold(x: u16)
    ensures
        ones16(x) == (x % 2) + ones16(x / 2),
{
    if x == 0 {
        assert(ones16(0u16) == 0);
    }
}

/// Setting a clear bit of a 16-bit value raises its population count by one.
proof fn lemma_ones16_add_pow2(x: u16, k: nat)
    requires
        k < 16,
        ((x as nat) / pow2(k)) % 2 == 0,
        x as nat + pow2(k) < 0x10000,
    ensures
        ones16(((x as nat + pow2(k)) as u16)) == ones16(x) + 1,
    decreases k,
{
    lemma2_to64();
    if k == 0 {
        assert(pow2(0) == 1);
        assert(x as nat / 1 == x as nat);
        assert(x % 2 == 0);
        let y = (x + 1) as u16;
        lemma_ones16_unfold(y);
        lemma_ones16_unfold(x);
        assert(y % 2 == 1);
        assert(y / 2 == x / 2);
    } else {
        lemma_pow2_unfold(k);
        let p = pow2(k);
        let q = pow2((k - 1) as nat);
        assert(p == 2 * q);
        assert(q >= 1) by {
            vstd::arithmetic::power2::lemma_pow2_pos((k - 1) as nat);
        }
        let h = x / 2;
        lemma_div_denominator(x as int, 2, q as int);
        assert((h as nat) / q == (x as nat) / p);
        let y = (x as nat + p) as u16;
        assert(y as nat == x as nat + 2 * q);
        assert(x as nat == 2 * (h as nat) + (x as nat % 2));
        assert(y as nat == 2 * (h as nat + q) + (x as nat % 2));
        assert(y as nat % 2 == x as nat % 2);
        assert(y as nat / 2 == h as nat + q);
        lemma_ones16_add_pow2(h, (k - 1) as nat);
        lemma_ones16_unfold(y);
        lemma_ones16_unfold(x);
        assert(ones16(y) == (x % 2) + ones16(((h as nat + q) as u16)));
        assert(ones16(y) == (x % 2) + ones16(h) + 1);
    }
}

/// Flipping the top bit of a 16-bit value flips the parity of its
/// population count.
proof fn lemma_flip_top_bit(h: u16)
    ensures
        ones16(h ^ 0x8000) % 2 != ones16(h) % 2,
{
    lemma2_to64();
    assert(pow2(15) == 0x8000);
    if h < 0x8000 {
        assert(h ^ 0x8000 == h + 0x8000) by (bit_vector)
            requires
                h < 0x8000,
        ;
        assert((h as nat) / 0x8000 == 0);
        lemma_ones16_add_pow2(h, 15);
        assert(ones16(h ^ 0x8000) == ones16(h) + 1);
    } else {
        let g = (h - 0x8000) as u16;
        assert(h ^ 0x8000 == h - 0x8000) by (bit_vector)
            requires
                h >= 0x8000,
        ;
        assert((g as nat) / 0x8000 == 0);
        lemma_ones16_add_pow2(g, 15);
        assert(ones16(h) == ones16(g) + 1);
    }
}

/// Whether a 16-bit value has an odd number of set bits.
pub fn parity16(x: u16) -> (odd: bool)
    ensures
        odd == (ones16(x) % 2 == 1),
{
    let mut v: u16 = x;
    let mut odd: bool = false;
    while v != 0
        invariant
            (ones16(x) % 2 == 1) == (odd != (ones16(v) % 2 == 1)),
        decreases v,
    {
        proof {
            assert((v & 1) == v % 2) by (bit_vector);
            assert(v >> 1 == v / 2) by (bit_vector);
            lemma_ones16_unfold(v);
        }
        if v & 1 == 1 {
            odd = !odd;
        }
        v = v >> 1;
    }
    assert(ones16(0u16) == 0);
    odd
}

/// Adjusts a 32-bit bus payload so that each 16-bit half carries an even
/// number of set bits: whenever a half's count is odd, its marker bit
/// (bit 31 for the high half, bit 15 for the low half) is flipped. All
/// other bits are left untouched.
pub fn parity_set(dato: u32) -> (r: u32)
    ensures
        ones16(word_hi(r)) % 2 == 0,
        ones16(word_lo(r)) % 2 == 0,
        r & 0x7FFF7FFF == dato & 0x7FFF7FFF,
{
    let h: u16 = (dato >> 16) as u16;
    let l: u16 = (dato & 0xFFFF) as u16;
    let odd_h = parity16(h);
    let odd_l = parity16(l);
    let mut ret = dato;
    if odd_h {
        ret = ret ^ 0x80000000;
    }
    if odd_l {
        ret = ret ^ 0x00008000;
    }
    proof {
        assert(word_hi(dato ^ 0x80000000) == word_hi(dato) ^ 0x8000) by (bit_vector);
        assert(word_lo(dato ^ 0x80000000) == word_lo(dato)) by (bit_vector);
        let w = if odd_h {
            dato ^ 0x80000000
        } else {
            dato
        };
        assert(word_hi(w ^ 0x00008000) == word_hi(w)) by (bit_vector);
        assert(word_lo(w ^ 0x00008000) == word_lo(w) ^ 0x8000) by (bit_vector);
        assert((dato ^ 0x80000000) & 0x7FFF7FFF == dato & 0x7FFF7FFF) by (bit_vector);
        assert((w ^ 0x00008000) & 0x7FFF7FFF == w & 0x7FFF7FFF) by (bit_vector);
        if odd_h {
            lemma_flip_top_bit(h);
        }
        if odd_l {
            lemma_flip_top_bit(l);
        }
        assert(ones16(word_hi(ret)) % 2 == 0);
        assert(ones16(word_lo(ret)) % 2 == 0);
    }
    ret
}

} // verus!
