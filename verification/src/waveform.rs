//! Waveform regeneration for the signal generator: the GCD-derived
//! quantization unit and the run-length bit patterns written for the
//! external waveform player.
//!
//! The four durations read from the register bank — pulse width, period,
//! leading margin, trailing margin — are quantized by their greatest
//! common divisor, the "bit time". At that resolution the control
//! waveform is high for the pulse width and low for the rest of the
//! period, and the data waveform is low for the leading margin, high
//! until the trailing margin begins, and low again for the remainder.
//! Both are written as lines of '1'/'0' characters behind a fixed channel
//! header.

use vstd::prelude::*;
use vstd::arithmetic::mul::lemma_mul_inequality;

verus! {

/// `d` evenly divides `n`.
pub open spec fn divides(d: int, n: int) -> bool {
    exists|k: int| n == #[trigger] (d * k)
}

/// Relies on num's `Integer::gcd` for `u16` (Stein's binary algorithm):
/// the result is the greatest common divisor of the two arguments — it
/// divides both, every common divisor divides it, and it is positive
/// unless both arguments are zero.
#[verifier::external_body]
fn gcd_u16(a: u16, b: u16) -> (r: u16)
    ensures
        divides(r as int, a as int),
        divides(r as int, b as int),
        forall|e: int| divides(e, a as int) && divides(e, b as int) ==> divides(e, r as int),
        (a > 0 || b > 0) ==> r > 0,
{
    num::Integer::gcd(&a, &b)
}

proof fn lemma_divides_transitive(x: int, y: int, z: int)
    requires
        divides(x, y),
        divides(y, z),
    ensures
        divides(x, z),
{
    let k1 = choose|k: int| y == #[trigger] (x * k);
    let k2 = choose|k: int| z == #[trigger] (y * k);
    assert(z == x * (k1 * k2)) by (nonlinear_arith)
        requires
            y == x * k1,
            z == y * k2,
    ;
}

proof fn lemma_divisor_le(e: int, n: int)
    requires
        e > 0,
        n > 0,
        divides(e, n),
    ensures
        e <= n,
{
    let k = choose|k: int| n == #[trigger] (e * k);
    assert(k >= 1) by (nonlinear_arith)
        requires
            n == e * k,
            e > 0,
            n > 0,
    ;
    lemma_mul_inequality(1, k, e);
}

/// The quantization unit ("bit time") for the four waveform durations:
/// their greatest common divisor. It divides each duration exactly, every
/// common divisor of the four divides it, and among positive durations no
/// larger unit divides them all.
pub fn quantization_unit(a: u16, b: u16, c: u16, d: u16) -> (r: u16)
    ensures
        divides(r as int, a as int),
        divides(r as int, b as int),
        divides(r as int, c as int),
        divides(r as int, d as int),
        forall|e: int|
            divides(e, a as int) && divides(e, b as int) && divides(e, c as int) && divides(
                e,
                d as int,
            ) ==> divides(e, r as int),
        (a > 0 || b > 0 || c > 0 || d > 0) ==> r > 0,
        forall|e: int|
            e > 0 && divides(e, a as int) && divides(e, b as int) && divides(e, c as int)
                && divides(e, d as int) && (a > 0 || b > 0 || c > 0 || d > 0) ==> e <= r,
{
    let g1 = gcd_u16(c, d);
    let g2 = gcd_u16(b, g1);
    let r = gcd_u16(a, g2);
    proof {
        lemma_divides_transitive(r as int, g2 as int, b as int);
        lemma_divides_transitive(r as int, g2 as int, g1 as int);
        lemma_divides_transitive(r as int, g1 as int, c as int);
        lemma_divides_transitive(r as int, g1 as int, d as int);
        assert forall|e: int|
            e > 0 && divides(e, a as int) && divides(e, b as int) && divides(e, c as int)
                && divides(e, d as int) && (a > 0 || b > 0 || c > 0 || d > 0) implies e
            <= r by {
            lemma_divisor_le(e, r as int);
        }
    }
    r
}

/// `n` copies of one byte.
pub open spec fn byte_run(b: u8, n: nat) -> Seq<u8> {
    Seq::new(n, |i: int| b)
}

/// The control waveform's line: channel header "27 ", then a high run for
/// the pulse width and a low run for the rest of the period, both in
/// quantization units.
pub open spec fn control_line(pulse_width: u16, period: u16, unit: u16) -> Seq<u8>
    recommends
        unit > 0,
        pulse_width <= period,
{
    seq![0x32u8, 0x37u8, 0x20u8] + byte_run(0x31u8, (pulse_width as int / unit as int) as nat) + byte_run(
        0x30u8,
        ((period - pulse_width) as int / unit as int) as nat,
    )
}

/// The data waveform's line: channel header "17 ", then a low run for the
/// leading margin, a high run until the trailing margin begins, and a low
/// run for the remainder of the period, all in quantization units.
pub open spec fn data_line(
    pulse_width: u16,
    period: u16,
    leading_margin: u16,
    trailing_margin: u16,
    unit: u16,
) -> Seq<u8>
    recommends
        unit > 0,
        leading_margin + trailing_margin <= pulse_width,
        pulse_width <= period,
{
    seq![0x31u8, 0x37u8, 0x20u8] + byte_run(0x30u8, (leading_margin as int / unit as int) as nat)
        + byte_run(
        0x31u8,
        ((pulse_width - leading_margin - trailing_margin) as int / unit as int) as nat,
    ) + byte_run(0x30u8, ((period - pulse_width + trailing_margin) as int / unit as int) as nat)
}

/// The whole file handed to the external waveform player: the control
/// line and the data line, each ended by a newline.
pub open spec fn waveform_file(
    pulse_width: u16,
    period: u16,
    leading_margin: u16,
    trailing_margin: u16,
    unit: u16,
) -> Seq<u8> {
    control_line(pulse_width, period, unit) + seq![0x0Au8] + data_line(
        pulse_width,
        period,
        leading_margin,
        trailing_margin,
        unit,
    ) + seq![0x0Au8]
}

fn push_run(out: &mut Vec<u8>, b: u8, n: u16)
    ensures
        final(out)@ == old(out)@ + byte_run(b, n as nat),
{
    let mut i: u16 = 0;
    while i < n
        invariant
            i <= n,
            out@ == old(out)@ + byte_run(b, i as nat),
        decreases n - i,
    {
        out.push(b);
        proof {
            assert(old(out)@ + byte_run(b, (i + 1) as nat) =~= (old(out)@ + byte_run(
                b,
                i as nat,
            )).push(b));
        }
        i = i + 1;
    }
    proof {
        assert(out@ =~= old(out)@ + byte_run(b, n as nat));
    }
}

/// Computes the quantization unit of the four durations and renders the
/// run-length description consumed by the external waveform player. The
/// durations must be consistent (margins fit in the pulse, the pulse fits
/// in the period, the period is positive); the returned unit is their
/// greatest common divisor and the returned bytes are exactly the two
/// header-prefixed '1'/'0' lines at that unit's resolution.
pub fn waveform_description(
    pulse_width: u16,
    period: u16,
    leading_margin: u16,
    trailing_margin: u16,
) -> (out: (Vec<u8>, u16))
    requires
        pulse_width <= period,
        leading_margin + trailing_margin <= pulse_width,
        period > 0,
    ensures
        out.1 > 0,
        divides(out.1 as int, pulse_width as int),
        divides(out.1 as int, period as int),
        divides(out.1 as int, leading_margin as int),
        divides(out.1 as int, trailing_margin as int),
        forall|e: int|
            divides(e, pulse_width as int) && divides(e, period as int) && divides(
                e,
                leading_margin as int,
            ) && divides(e, trailing_margin as int) ==> divides(e, out.1 as int),
        out.0@ == waveform_file(pulse_width, period, leading_margin, trailing_margin, out.1),
{
    let unit = quantization_unit(pulse_width, period, leading_margin, trailing_margin);
    let high_run = pulse_width / unit;
    let low_run = (period - pulse_width) / unit;
    let lead_run = leading_margin / unit;
    let data_high_run = (pulse_width - leading_margin - trailing_margin) / unit;
    let tail_run = (period - pulse_width + trailing_margin) / unit;

    let mut out: Vec<u8> = Vec::new();
    out.push(0x32u8);
    out.push(0x37u8);
    out.push(0x20u8);
    push_run(&mut out, 0x31u8, high_run);
    push_run(&mut out, 0x30u8, low_run);
    out.push(0x0Au8);
    out.push(0x31u8);
    out.push(0x37u8);
    out.push(0x20u8);
    push_run(&mut out, 0x30u8, lead_run);
    push_run(&mut out, 0x31u8, data_high_run);
    push_run(&mut out, 0x30u8, tail_run);
    out.push(0x0Au8);
    proof {
        assert(out@ =~= waveform_file(pulse_width, period, leading_margin, trailing_margin, unit));
    }
    (out, unit)
}

} // verus!
