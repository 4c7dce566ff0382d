//! The network wire protocol: 4-byte command words in, 2-byte responses
//! out, and the opcode table that routes each word to a peripheral.

use vstd::prelude::*;
use crate::bytes::u32_of_be;
use crate::bytes::u32_from_be;

verus! {

/// The peripheral a command word is dispatched to, together with the kind
/// of request it carries. The opcode field is the top 7 bits of the word's
/// most-significant byte; the signal generator's three opcodes (register
/// read, register write, apply) share one masked value group and are told
/// apart by the request's own first byte.
#[derive(PartialEq, Eq, Structural, Clone, Copy, Debug)]
pub enum Opcode {
    BusRead,
    BusWrite,
    BusDebug,
    BusStress,
    ConverterRead,
    ConverterWrite,
    SignalRegisterRead,
    SignalRegisterWrite,
    RelayReset,
    RelayProgram,
    EdgeMonitor,
}

/// The 32-bit command word carried by a 4-byte frame in the connection's
/// configured byte order.
pub open spec fn word_of_frame(b: Seq<u8>, little_endian: bool) -> u32
    recommends
        b.len() == 4,
{
    if little_endian {
        u32_of_be(b[3], b[2], b[1], b[0])
    } else {
        u32_of_be(b[0], b[1], b[2], b[3])
    }
}

/// Where a command word is routed: `None` for an unknown opcode, which
/// elicits no reply at all.
pub open spec fn route_spec(word: u32) -> Option<Opcode> {
    let op = word & 0x7F000000;
    if op == 0x3C000000 {
        Some(Opcode::BusRead)
    } else if op == 0x25000000 {
        Some(Opcode::BusWrite)
    } else if op == 0x5B000000 {
        Some(Opcode::BusDebug)
    } else if op == 0x5E000000 {
        Some(Opcode::BusStress)
    } else if op == 0x3A000000 {
        Some(Opcode::ConverterRead)
    } else if op == 0x2A000000 {
        Some(Opcode::ConverterWrite)
    } else if op == 0x33000000 {
        Some(Opcode::SignalRegisterRead)
    } else if op == 0x23000000 {
        Some(Opcode::SignalRegisterWrite)
    } else if op == 0x2D000000 {
        Some(Opcode::RelayReset)
    } else if op == 0x3D000000 {
        Some(Opcode::RelayProgram)
    } else if op == 0x4D000000 {
        Some(Opcode::EdgeMonitor)
    } else {
        None
    }
}

/// Decodes a received 4-byte frame into the command word, honouring the
/// connection's configured endianness.
pub fn decode_command(buffer: &[u8; 4], little_endian: bool) -> (w: u32)
    ensures
        w == word_of_frame(buffer@, little_endian),
{
    if little_endian {
        u32_from_be(buffer[3], buffer[2], buffer[1], buffer[0])
    } else {
        u32_from_be(buffer[0], buffer[1], buffer[2], buffer[3])
    }
}

/// Routes a command word by its masked opcode field. The signal
/// generator's apply opcode has the mask's top bit clear, so it arrives
/// under the same masked value as a register write and is told apart later
/// by the request's first byte.
pub fn route(word: u32) -> (t: Option<Opcode>)
    ensures
        t == route_spec(word),
{
    let op = word & 0x7F000000;
    if op == 0x3C000000 {
        Some(Opcode::BusRead)
    } else if op == 0x25000000 {
        Some(Opcode::BusWrite)
    } else if op == 0x5B000000 {
        Some(Opcode::BusDebug)
    } else if op == 0x5E000000 {
        Some(Opcode::BusStress)
    } else if op == 0x3A000000 {
        Some(Opcode::ConverterRead)
    } else if op == 0x2A000000 {
        Some(Opcode::ConverterWrite)
    } else if op == 0x33000000 {
        Some(Opcode::SignalRegisterRead)
    } else if op == 0x23000000 {
        Some(Opcode::SignalRegisterWrite)
    } else if op == 0x2D000000 {
        Some(Opcode::RelayReset)
    } else if op == 0x3D000000 {
        Some(Opcode::RelayProgram)
    } else if op == 0x4D000000 {
        Some(Opcode::EdgeMonitor)
    } else {
        None
    }
}

/// Puts a 2-byte response into the connection's byte order: the two bytes
/// arrive most-significant first and are swapped for a little-endian link.
pub fn invertir(valor: [u8; 2], little_endian: bool) -> (r: [u8; 2])
    ensures
        !little_endian ==> r[0] == valor[0] && r[1] == valor[1],
        little_endian ==> r[0] == valor[1] && r[1] == valor[0],
{
    let mut ret = valor;
    if little_endian {
        ret = [valor[1], valor[0]];
    }
    ret
}

} // verus!
