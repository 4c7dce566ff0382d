//! Relay actor logic for the two relay-driven lines (reset and program).
//!
//! A relay request carries a 16-bit value in its last two bytes. The
//! wiring is active-low: zero de-asserts the line and drives the pin to
//! its OFF level (high), any non-zero value asserts it (pin low). The
//! response always echoes the value's bytes; the last commanded value is
//! authoritative, no pin state is read back.

use vstd::prelude::*;
use crate::bytes::u16_of_be;
use crate::bytes::u32_b0;
use crate::bytes::u32_b1;
use crate::bytes::u32_b2;
use crate::bytes::u32_b3;
use crate::bytes::u32_to_be;

verus! {

/// Physical level of a digital output pin.
#[derive(PartialEq, Eq, Structural, Clone, Copy, Debug)]
pub enum Level {
    High,
    Low,
}

/// The pin level a commanded relay value maps to: zero means OFF, which
/// the active-low wiring expresses as a high pin; anything else means ON,
/// a low pin.
pub open spec fn relay_pin_level(valor: u16) -> Level {
    if valor == 0 {
        Level::High
    } else {
        Level::Low
    }
}

/// Builds the 4-byte relay request for a command word: the word's bytes
/// in big-endian order.
pub fn relay(msg: u32) -> (r: [u8; 4])
    ensures
        r[0] == u32_b0(msg),
        r[1] == u32_b1(msg),
        r[2] == u32_b2(msg),
        r[3] == u32_b3(msg),
{
    u32_to_be(msg)
}

/// The pin level to drive for a commanded value.
pub fn relay_state(valor: u16) -> (l: Level)
    ensures
        l == relay_pin_level(valor),
{
    if valor == 0 {
        Level::High
    } else {
        Level::Low
    }
}

/// Serves one relay request: reads the commanded 16-bit value from the
/// request's last two bytes and yields the pin level to drive together
/// with the 2-byte response, which always echoes the value's bytes.
pub fn relay_step(msg: &[u8; 4]) -> (out: (Level, [u8; 2]))
    ensures
        out.0 == relay_pin_level(u16_of_be(msg[2], msg[3])),
        out.1[0] == msg[2] && out.1[1] == msg[3],
{
    let valor = crate::bytes::u16_from_be(msg[2], msg[3]);
    (relay_state(valor), [msg[2], msg[3]])
}

} // verus!
