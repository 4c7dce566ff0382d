//! Signal generator actor: the six-register bank and the handling of one
//! register request.
//!
//! The bank holds six independently addressable 16-bit registers: period
//! (address 0), pulse width (1), leading margin (2), trailing margin (3),
//! repeat count (4) and the power-enable flag (5). Requests arrive as the
//! command word's four big-endian bytes: the first byte tells a register
//! write (0x23) from a read (0x33) and from apply (0xA3), the second is
//! the register address, the last two the value. An address above 5 is
//! invalid: it mutates nothing and the response merely echoes the value
//! bytes. Apply regenerates the waveform from the current bank and drives
//! the power-enable pin from register 5.

use vstd::prelude::*;
use crate::bytes::u16_hi;
use crate::bytes::u16_lo;
use crate::bytes::u16_of_be;
use crate::bytes::u16_from_be;
use crate::bytes::u16_to_be;
use crate::bytes::u32_b0;
use crate::bytes::u32_b1;
use crate::bytes::u32_b2;
use crate::bytes::u32_b3;
use crate::bytes::u32_to_be;
use crate::bytes::lemma_u16_be_bytes_inverse;

verus! {

/// The signal generator's register bank.
#[derive(PartialEq, Eq, Structural, Clone, Copy, Debug)]
pub struct TnrBank {
    /// Register 0: waveform period.
    pub period: u16,
    /// Register 1: pulse width.
    pub pulse_width: u16,
    /// Register 2: leading margin of the data waveform.
    pub leading_margin: u16,
    /// Register 3: trailing margin of the data waveform.
    pub trailing_margin: u16,
    /// Register 4: how many times the waveform is repeated.
    pub repeat_count: u16,
    /// Register 5: the power-enable flag.
    pub power_enable: u16,
}

/// Pin and process work one request asks of the owning task.
#[derive(PartialEq, Eq, Structural, Clone, Copy, Debug)]
pub enum TnrAction {
    /// Nothing beyond the response.
    Quiet,
    /// Drive the power-enable pin: high when the flag is non-zero.
    SetPower { high: bool },
    /// Regenerate the waveform from the current bank and drive the
    /// power-enable pin from register 5.
    Regenerate { power_high: bool },
}

impl TnrBank {
    /// Register contents at power-on: period 100, pulse width 10, every
    /// other register 1.
    pub fn new() -> (b: TnrBank)
        ensures
            b.period == 100,
            b.pulse_width == 10,
            b.leading_margin == 1,
            b.trailing_margin == 1,
            b.repeat_count == 1,
            b.power_enable == 1,
    {
        TnrBank {
            period: 100,
            pulse_width: 10,
            leading_margin: 1,
            trailing_margin: 1,
            repeat_count: 1,
            power_enable: 1,
        }
    }

    /// The register at an address.
    pub open spec fn reg_spec(self, addr: int) -> u16
        recommends
            0 <= addr <= 5,
    {
        if addr == 0 {
            self.period
        } else if addr == 1 {
            self.pulse_width
        } else if addr == 2 {
            self.leading_margin
        } else if addr == 3 {
            self.trailing_margin
        } else if addr == 4 {
            self.repeat_count
        } else {
            self.power_enable
        }
    }

    /// The bank after one register is overwritten.
    pub open spec fn write_spec(self, addr: int, value: u16) -> TnrBank
        recommends
            0 <= addr <= 5,
    {
        if addr == 0 {
            TnrBank { period: value, ..self }
        } else if addr == 1 {
            TnrBank { pulse_width: value, ..self }
        } else if addr == 2 {
            TnrBank { leading_margin: value, ..self }
        } else if addr == 3 {
            TnrBank { trailing_margin: value, ..self }
        } else if addr == 4 {
            TnrBank { repeat_count: value, ..self }
        } else {
            TnrBank { power_enable: value, ..self }
        }
    }

    /// Reads the register at an address.
    pub fn read_reg(&self, addr: u8) -> (v: u16)
        requires
            addr <= 5,
        ensures
            v == self.reg_spec(addr as int),
    {
        if addr == 0 {
            self.period
        } else if addr == 1 {
            self.pulse_width
        } else if addr == 2 {
            self.leading_margin
        } else if addr == 3 {
            self.trailing_margin
        } else if addr == 4 {
            self.repeat_count
        } else {
            self.power_enable
        }
    }

    /// Overwrites the register at an address.
    pub fn write_reg(&mut self, addr: u8, value: u16)
        requires
            addr <= 5,
        ensures
            *final(self) == old(self).write_spec(addr as int, value),
    {
        if addr == 0 {
            self.period = value;
        } else if addr == 1 {
            self.pulse_width = value;
        } else if addr == 2 {
            self.leading_margin = value;
        } else if addr == 3 {
            self.trailing_margin = value;
        } else if addr == 4 {
            self.repeat_count = value;
        } else {
            self.power_enable = value;
        }
    }
}

/// The 16-bit value a request's response carries: the echoed value bytes
/// for apply and for an out-of-range address, the freshly written value
/// for a write, the register's current contents for a read.
pub open spec fn tnr_response_spec(bank: TnrBank, msg: Seq<u8>) -> u16
    recommends
        msg.len() == 4,
{
    if msg[0] == 0xA3 {
        u16_of_be(msg[2], msg[3])
    } else if msg[1] > 5 {
        u16_of_be(msg[2], msg[3])
    } else if msg[0] == 0x23 {
        u16_of_be(msg[2], msg[3])
    } else {
        bank.reg_spec(msg[1] as int)
    }
}

/// The bank after a request: only a write to a valid address mutates it.
pub open spec fn tnr_next_spec(bank: TnrBank, msg: Seq<u8>) -> TnrBank
    recommends
        msg.len() == 4,
{
    if msg[0] == 0x23 && msg[1] <= 5 {
        bank.write_spec(msg[1] as int, u16_of_be(msg[2], msg[3]))
    } else {
        bank
    }
}

/// The pin and process work a request asks for: apply regenerates and
/// drives the power pin from register 5; a write to register 5 drives the
/// power pin from the written value.
pub open spec fn tnr_action_spec(bank: TnrBank, msg: Seq<u8>) -> TnrAction
    recommends
        msg.len() == 4,
{
    if msg[0] == 0xA3 {
        TnrAction::Regenerate { power_high: bank.power_enable != 0 }
    } else if msg[0] == 0x23 && msg[1] == 5 {
        TnrAction::SetPower { high: u16_of_be(msg[2], msg[3]) != 0 }
    } else {
        TnrAction::Quiet
    }
}

/// Builds the 4-byte signal generator request for a command word: the
/// word's bytes in big-endian order.
pub fn tnr(msg: u32) -> (r: [u8; 4])
    ensures
        r[0] == u32_b0(msg),
        r[1] == u32_b1(msg),
        r[2] == u32_b2(msg),
        r[3] == u32_b3(msg),
{
    u32_to_be(msg)
}

/// Whether the power-enable pin is driven high for a register value:
/// zero releases it low, anything else raises it.
pub fn power_enable(valor: u16) -> (high: bool)
    ensures
        high == (valor != 0),
{
    valor != 0
}

/// Serves one signal generator request against the bank: decodes the
/// request bytes, mutates at most one register, and yields the 2-byte
/// response together with the pin and process work the request asks for.
pub fn tnr_step(bank: &mut TnrBank, msg: &[u8; 4]) -> (out: ([u8; 2], TnrAction))
    ensures
        *final(bank) == tnr_next_spec(*old(bank), msg@),
        out.0[0] == u16_hi(tnr_response_spec(*old(bank), msg@)),
        out.0[1] == u16_lo(tnr_response_spec(*old(bank), msg@)),
        out.1 == tnr_action_spec(*old(bank), msg@),
{
    let valor_nuevo = u16_from_be(msg[2], msg[3]);
    proof {
        lemma_u16_be_bytes_inverse(msg[2], msg[3]);
    }
    if msg[0] == 0xA3 {
        let high = power_enable(bank.read_reg(5));
        ([msg[2], msg[3]], TnrAction::Regenerate { power_high: high })
    } else if msg[1] > 5 {
        ([msg[2], msg[3]], TnrAction::Quiet)
    } else if msg[0] == 0x23 {
        let addr = msg[1];
        bank.write_reg(addr, valor_nuevo);
        let action = if addr == 5 {
            TnrAction::SetPower { high: power_enable(valor_nuevo) }
        } else {
            TnrAction::Quiet
        };
        ([msg[2], msg[3]], action)
    } else {
        let v = bank.read_reg(msg[1]);
        (u16_to_be(v), TnrAction::Quiet)
    }
}

/// Law: writing a value to a valid register address and then reading the
/// same address returns exactly the value written, while a write to an
/// address above 5 leaves every register unchanged and is answered with
/// the echoed value bytes.
pub proof fn lemma_register_round_trip(bank: TnrBank, addr: u8, hi: u8, lo: u8, rb0: u8, rb1: u8)
    ensures
        ({
            let write_msg = seq![0x23u8, addr, hi, lo];
            let read_msg = seq![0x33u8, addr, rb0, rb1];
            &&& addr <= 5 ==> tnr_response_spec(tnr_next_spec(bank, write_msg), read_msg)
                == u16_of_be(hi, lo)
            &&& addr > 5 ==> tnr_next_spec(bank, write_msg) == bank && tnr_response_spec(
                bank,
                write_msg,
            ) == u16_of_be(hi, lo)
        }),
{
}

} // verus!
