//! Converter actor logic, for both of its startup-selected modes.
//!
//! In bus mode the converter sits on the shared serial bus and is driven
//! by 3-byte frames: the address nibble, then the value's top bits packed
//! above the mode nibble (0x0 for a write, 0xC for a read), then the
//! value's low byte. In emulated mode eight software PWM channels stand in
//! for the converter: the address nibble picks the channel and the frame's
//! 10-bit value becomes that channel's duty out of 1024, with zero
//! disabling the output.

use vstd::prelude::*;
use crate::bytes::u16_of_be;

verus! {

/// First byte of the converter frame for a command word: the address
/// nibble.
pub open spec fn conv_addr_byte(msg: u32) -> u8 {
    ((msg >> 16) & 0xF) as u8
}

/// Second byte of a bus-mode converter frame: the 10-bit value's top two
/// bits packed above the mode nibble.
pub open spec fn conv_mode_byte(msg: u32, wr: u8) -> u8 {
    ((((msg >> 8) & 0x3) as u8) << 4) | wr
}

/// Third byte of the converter frame: the value's low byte.
pub open spec fn conv_low_byte(msg: u32) -> u8 {
    (msg & 0xFF) as u8
}

fn dac_frame(wr: u8, msg: u32) -> (r: [u8; 3])
    ensures
        r[0] == conv_addr_byte(msg),
        r[1] == conv_mode_byte(msg, wr),
        r[2] == conv_low_byte(msg),
{
    let masked = msg & 0x000F03FF;
    let b0 = ((masked >> 16) & 0xFF) as u8;
    let b1 = (((masked >> 8) & 0xFF) as u8) << 4 | wr;
    let b2 = (masked & 0xFF) as u8;
    proof {
        assert(((msg & 0x000F03FF) >> 16) & 0xFF == (msg >> 16) & 0xF) by (bit_vector);
        assert((((((msg & 0x000F03FF) >> 8) & 0xFF) as u8) << 4 | wr) == ((((msg >> 8) & 0x3) as u8)
            << 4) | wr) by (bit_vector);
        assert((msg & 0x000F03FF) & 0xFF == msg & 0xFF) by (bit_vector);
    }
    [b0, b1, b2]
}

fn analog_frame(msg: u32) -> (r: [u8; 3])
    ensures
        r[0] == conv_addr_byte(msg),
        r[1] == ((msg >> 8) & 0x3) as u8,
        r[2] == conv_low_byte(msg),
{
    let masked = msg & 0x000F03FF;
    let b0 = ((masked >> 16) & 0xFF) as u8;
    let b1 = ((masked >> 8) & 0xFF) as u8;
    let b2 = (masked & 0xFF) as u8;
    proof {
        assert(((msg & 0x000F03FF) >> 16) & 0xFF == (msg >> 16) & 0xF) by (bit_vector);
        assert(((msg & 0x000F03FF) >> 8) & 0xFF == (msg >> 8) & 0x3) by (bit_vector);
        assert((msg & 0x000F03FF) & 0xFF == msg & 0xFF) by (bit_vector);
    }
    [b0, b1, b2]
}

/// Builds the converter-read request for a command word: in bus mode the
/// mode nibble carries the read-back setting 0xC, in emulated mode reads
/// and writes share one frame shape.
pub fn dac_read(msg: u32, hat: bool) -> (r: [u8; 3])
    ensures
        r[0] == conv_addr_byte(msg),
        r[1] == (if hat {
            ((msg >> 8) & 0x3) as u8
        } else {
            conv_mode_byte(msg, 0xC)
        }),
        r[2] == conv_low_byte(msg),
{
    if hat {
        analog_frame(msg)
    } else {
        dac_frame(0xC, msg)
    }
}

/// Builds the converter-write request for a command word: in bus mode the
/// mode nibble is low, in emulated mode reads and writes share one frame
/// shape.
pub fn dac_write(msg: u32, hat: bool) -> (r: [u8; 3])
    ensures
        r[0] == conv_addr_byte(msg),
        r[1] == (if hat {
            ((msg >> 8) & 0x3) as u8
        } else {
            conv_mode_byte(msg, 0x0)
        }),
        r[2] == conv_low_byte(msg),
{
    if hat {
        analog_frame(msg)
    } else {
        dac_frame(0x0, msg)
    }
}

/// Whether a bus-mode frame targets an address outside the converter's
/// addressable range (top nibble above 0x70). Such a transfer is still
/// attempted, but the request is answered with the sentinel response.
pub fn conv_addr_out_of_range(frame: &[u8; 3]) -> (b: bool)
    ensures
        b == (frame[0] & 0xF0 > 0x70),
{
    frame[0] & 0xF0 > 0x70
}

/// Whether the returned frame's mode bits are both zero, in which case
/// the exchange is retried once: some devices need a second transaction
/// to latch a value before it can be read back.
pub fn conv_needs_retry(returned: &[u8; 3]) -> (b: bool)
    ensures
        b == (returned[1] & 0x0C == 0),
{
    returned[1] & 0x0C == 0
}

/// The frame for the retry exchange: the sent frame with its mode
/// bits forced to the read-back setting.
pub fn conv_retry_frame(sent: &[u8; 3]) -> (r: [u8; 3])
    ensures
        r[0] == sent[0],
        r[1] == sent[1] | 0x0C,
        r[2] == sent[2],
{
    [sent[0], sent[1] | 0x0C, sent[2]]
}

/// A byte with its bit order reversed.
pub open spec fn rev8(b: u8) -> u8 {
    ((b & 0x01) << 7) | ((b & 0x02) << 5) | ((b & 0x04) << 3) | ((b & 0x08) << 1) | ((b & 0x10)
        >> 1) | ((b & 0x20) >> 3) | ((b & 0x40) >> 5) | ((b & 0x80) >> 7)
}

/// Folds the device's returned frame into the 2-byte response: the two
/// data bytes come from the frame's tail, and the device's "invalid"
/// signal — the most-significant returned byte, bit-reversed and
/// logically inverted — is OR-ed into the response's high byte without
/// disturbing the data bits already there.
pub fn dac_response(buffer: &[u8; 3]) -> (r: [u8; 2])
    ensures
        r[0] == buffer[1] | !rev8(buffer[0]),
        r[1] == buffer[2],
{
    let b = buffer[0];
    let rev = ((b & 0x01) << 7) | ((b & 0x02) << 5) | ((b & 0x04) << 3) | ((b & 0x08) << 1) | ((b
        & 0x10) >> 1) | ((b & 0x20) >> 3) | ((b & 0x40) >> 5) | ((b & 0x80) >> 7);
    [buffer[1] | !rev, buffer[2]]
}

/// One emulated-converter PWM channel's pin work.
#[derive(PartialEq, Eq, Structural, Clone, Copy, Debug)]
pub enum PwmAction {
    /// Disable the channel's output: a zero duty turns the waveform off.
    Disable { channel: u8 },
    /// Emit the fixed-frequency waveform at duty `duty` out of 1024.
    SetDuty { channel: u8, duty: u16 },
}

/// The duty values of the eight emulated-converter channels.
pub struct PwmBank {
    pub duties: Vec<u16>,
}

impl PwmBank {
    /// The bank always holds exactly one duty per channel.
    pub open spec fn well_formed(self) -> bool {
        self.duties@.len() == 8
    }

    /// All eight channels start with a zero duty.
    pub fn new() -> (b: PwmBank)
        ensures
            b.well_formed(),
            forall|i: int| 0 <= i < 8 ==> b.duties@[i] == 0,
    {
        let mut duties: Vec<u16> = Vec::new();
        let mut i: usize = 0;
        while i < 8
            invariant
                duties@.len() == i,
                i <= 8,
                forall|j: int| 0 <= j < i ==> duties@[j] == 0,
            decreases 8 - i,
        {
            duties.push(0);
            i = i + 1;
        }
        PwmBank { duties }
    }
}

/// Serves one emulated-mode request: the frame's address nibble picks the
/// channel and its two value bytes carry the duty. A valid channel records
/// the duty, echoes the value bytes and asks for the pin work (disable on
/// zero, emit otherwise); an address above 7 changes nothing and yields
/// the out-of-range sentinel response.
pub fn pwm_step(bank: &mut PwmBank, frame: &[u8; 3]) -> (out: ([u8; 2], Option<PwmAction>))
    requires
        old(bank).well_formed(),
    ensures
        final(bank).well_formed(),
        ({
            let ch = frame[0] & 0xF;
            let duty = u16_of_be(frame[1], frame[2]);
            if ch <= 7 {
                &&& final(bank).duties@ == old(bank).duties@.update(ch as int, duty)
                &&& out.0[0] == frame[1] && out.0[1] == frame[2]
                &&& out.1 == Some(
                    if duty == 0 {
                        PwmAction::Disable { channel: ch }
                    } else {
                        PwmAction::SetDuty { channel: ch, duty }
                    },
                )
            } else {
                &&& final(bank).duties@ == old(bank).duties@
                &&& out.0[0] == 0xF0 && out.0[1] == 0xF0
                &&& out.1 is None
            }
        }),
{
    let ch = frame[0] & 0xF;
    if ch <= 7 {
        let duty = crate::bytes::u16_from_be(frame[1], frame[2]);
        bank.duties.set(ch as usize, duty);
        let action = if duty == 0 {
            PwmAction::Disable { channel: ch }
        } else {
            PwmAction::SetDuty { channel: ch, duty }
        };
        ([frame[1], frame[2]], Some(action))
    } else {
        ([0xF0, 0xF0], None)
    }
}

} // verus!
