//! The register file: six 16-bit registers, each a pair of 8-bit halves.

use vstd::prelude::*;

verus! {

/// One 16-bit register, stored as its high and low bytes.
///
/// The 16-bit view of a register is always `high_byte * 256 + low_byte`.
#[derive(Copy, Clone, Debug)]
pub struct Register {
    pub high_byte: u8,
    pub low_byte: u8,
}

/// The 16-bit value a byte pair stands for.
pub open spec fn word(high: u8, low: u8) -> u16 {
    (high * 256 + low) as u16
}

/// The high byte of a 16-bit value.
pub open spec fn high_of(value: u16) -> u8 {
    (value / 256) as u8
}

/// The low byte of a 16-bit value.
pub open spec fn low_of(value: u16) -> u8 {
    (value % 256) as u8
}

impl Register {
    /// The 16-bit value this register holds.
    pub open spec fn value(self) -> u16 {
        word(self.high_byte, self.low_byte)
    }

    pub fn get_high_byte(&self) -> (r: u8)
        ensures
            r == self.high_byte,
    {
        return self.high_byte;
    }

    pub fn get_low_byte(&self) -> (r: u8)
        ensures
            r == self.low_byte,
    {
        return self.low_byte;
    }

    pub fn set_high_byte(&self, byte: u8) -> (r: Register)
        ensures
            r == (Register { high_byte: byte, low_byte: self.low_byte }),
    {
        return Register { high_byte: byte, ..*self };
    }

    pub fn get_16bit_value(&self) -> (r: u16)
        ensures
            r == self.value(),
    {
        return (self.high_byte as u16) * 256 + (self.low_byte as u16);
    }

    pub fn set_low_byte(&self, byte: u8) -> (r: Register)
        ensures
            r == (Register { high_byte: self.high_byte, low_byte: byte }),
    {
        return Register { low_byte: byte, ..*self };
    }

    pub fn set_16bit_value(&self, bytes: u16) -> (r: Register)
        ensures
            r.value() == bytes,
            r == (Register { high_byte: high_of(bytes), low_byte: low_of(bytes) }),
    {
        return init_16bit_register(bytes);
    }
}

pub fn init_register(high_byte: u8, low_byte: u8) -> (r: Register)
    ensures
        r == (Register { high_byte, low_byte }),
{
    return Register { high_byte, low_byte };
}

pub fn init_16bit_register(value: u16) -> (r: Register)
    ensures
        r.value() == value,
        r == (Register { high_byte: high_of(value), low_byte: low_of(value) }),
{
    return Register { high_byte: (value / 256) as u8, low_byte: (value % 256) as u8 };
}

/// The names of the byte-wide and pair-wide registers.
pub enum Registers {
    A,
    Flags,
    B,
    C,
    D,
    E,
    H,
    L,
    AF,
    BC,
    DE,
    HL,
    SP,
    PC,
}

} // verus!
