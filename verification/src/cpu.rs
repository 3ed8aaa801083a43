//! The LR35902 interpreter: a value-typed register file and a
//! fetch-decode-execute step with exact flag and cycle accounting.

use vstd::prelude::*;

use crate::mem::Mem;
use crate::mem::MemSnap;
use crate::registers::high_of;
use crate::registers::init_16bit_register;
use crate::registers::init_register;
use crate::registers::low_of;
use crate::registers::word;
use crate::registers::Register;
use crate::registers::Registers;

verus! {

pub const ZERO_FLAG: u8 = 0b10000000;

pub const SUBTRACT_FLAG: u8 = 0b01000000;

pub const HALFCARRY_FLAG: u8 = 0b00100000;

pub const CARRY_FLAG: u8 = 0b00010000;

/// The processor state: six register pairs and the interrupt master enable.
#[derive(Copy, Clone, Debug)]
pub struct CPU {
    pub af: Register,
    pub bc: Register,
    pub de: Register,
    pub hl: Register,
    pub sp: Register,
    pub pc: Register,
    pub ime: bool,
}

/// The error a step reports when it fetches an opcode the core does not
/// define, naming the program counter and the offending byte.
#[derive(Copy, Clone, PartialEq, Eq, Debug)]
pub struct ExecError {
    pub pc: u16,
    pub opcode: u8,
    pub prefixed: bool,
}

/// 16-bit addition that wraps around the address space.
pub open spec fn add16(a: u16, b: u16) -> u16 {
    if a + b > 0xFFFF {
        (a + b - 0x10000) as u16
    } else {
        (a + b) as u16
    }
}

/// 16-bit subtraction that wraps around the address space.
pub open spec fn sub16(a: u16, b: u16) -> u16 {
    if a - b < 0 {
        (a - b + 0x10000) as u16
    } else {
        (a - b) as u16
    }
}

/// 8-bit addition that wraps.
pub open spec fn add8(a: u8, b: u8) -> u8 {
    if a + b > 0xFF {
        (a + b - 0x100) as u8
    } else {
        (a + b) as u8
    }
}

/// 8-bit subtraction that wraps.
pub open spec fn sub8(a: u8, b: u8) -> u8 {
    if a - b < 0 {
        (a - b + 0x100) as u8
    } else {
        (a - b) as u8
    }
}

/// A byte rotated left through the carry: the old carry enters at bit 0.
pub open spec fn rl_val(v: u8, carry_in: bool) -> u8 {
    add8(
        add8(v, v),
        if carry_in {
            1
        } else {
            0
        },
    )
}

/// A byte rotated right through the carry: the old carry enters at bit 7.
pub open spec fn rr_val(v: u8, carry_in: bool) -> u8 {
    (v / 2 + if carry_in {
        128int
    } else {
        0int
    }) as u8
}

/// Zero flag: bit 7 of F.
pub open spec fn flag_z(f: u8) -> bool {
    f & 0x80 != 0
}

/// Subtract flag: bit 6 of F.
pub open spec fn flag_n(f: u8) -> bool {
    f & 0x40 != 0
}

/// Half-carry flag: bit 5 of F.
pub open spec fn flag_h(f: u8) -> bool {
    f & 0x20 != 0
}

/// Carry flag: bit 4 of F.
pub open spec fn flag_c(f: u8) -> bool {
    f & 0x10 != 0
}

/// The flag byte with the four flags in their fixed bits and a zero low
/// nibble.
pub open spec fn flags_byte(z: bool, n: bool, h: bool, c: bool) -> u8 {
    (if z { 0x80u8 } else { 0u8 }) | (if n { 0x40u8 } else { 0u8 }) | (if h { 0x20u8 } else { 0u8 })
        | (if c { 0x10u8 } else { 0u8 })
}

/// Each flag reads back from `flags_byte`, and its low nibble is zero.
pub proof fn lemma_flags_byte(z: bool, n: bool, h: bool, c: bool)
    ensures
        flag_z(flags_byte(z, n, h, c)) == z,
        flag_n(flags_byte(z, n, h, c)) == n,
        flag_h(flags_byte(z, n, h, c)) == h,
        flag_c(flags_byte(z, n, h, c)) == c,
        flags_byte(z, n, h, c) & 0x0F == 0,
        flags_byte(z, n, h, c) & 0xF0 == flags_byte(z, n, h, c),
{
    let zb: u8 = if z { 0x80 } else { 0 };
    let nb: u8 = if n { 0x40 } else { 0 };
    let hb: u8 = if h { 0x20 } else { 0 };
    let cb: u8 = if c { 0x10 } else { 0 };
    assert(((zb | nb | hb | cb) & 0x80 != 0) == (zb != 0) && ((zb | nb | hb | cb) & 0x40 != 0) == (
    nb != 0) && ((zb | nb | hb | cb) & 0x20 != 0) == (hb != 0) && ((zb | nb | hb | cb) & 0x10 != 0)
        == (cb != 0) && (zb | nb | hb | cb) & 0x0F == 0 && (zb | nb | hb | cb) & 0xF0 == (zb | nb
        | hb | cb)) by (bit_vector)
        requires
            (zb == 0x80 || zb == 0) && (nb == 0x40 || nb == 0) && (hb == 0x20 || hb == 0) && (cb
                == 0x10 || cb == 0),
    ;
}

/// Masking a byte to its high nibble clears its low nibble.
pub broadcast proof fn lemma_high_nibble_clear(x: u8)
    ensures
        (#[trigger] (x & 0xF0)) & 0x0F == 0,
{
    assert((x & 0xF0) & 0x0F == 0) by (bit_vector);
}

/// The byte-wide register names.
pub open spec fn is_byte_reg(r: Registers) -> bool {
    match r {
        Registers::A => true,
        Registers::Flags => true,
        Registers::B => true,
        Registers::C => true,
        Registers::D => true,
        Registers::E => true,
        Registers::H => true,
        Registers::L => true,
        _ => false,
    }
}

/// The byte-wide general-purpose register names: every byte register but F.
pub open spec fn is_gp_byte_reg(r: Registers) -> bool {
    is_byte_reg(r) && !(r matches Registers::Flags)
}

/// The pair-wide register names.
pub open spec fn is_wide_reg(r: Registers) -> bool {
    match r {
        Registers::AF => true,
        Registers::BC => true,
        Registers::DE => true,
        Registers::HL => true,
        Registers::SP => true,
        Registers::PC => true,
        _ => false,
    }
}

impl CPU {
    /// The accumulator.
    pub open spec fn a(self) -> u8 {
        self.af.high_byte
    }

    /// The flag byte.
    pub open spec fn f(self) -> u8 {
        self.af.low_byte
    }

    pub open spec fn b(self) -> u8 {
        self.bc.high_byte
    }

    pub open spec fn c(self) -> u8 {
        self.bc.low_byte
    }

    pub open spec fn d(self) -> u8 {
        self.de.high_byte
    }

    pub open spec fn e(self) -> u8 {
        self.de.low_byte
    }

    pub open spec fn h(self) -> u8 {
        self.hl.high_byte
    }

    pub open spec fn l(self) -> u8 {
        self.hl.low_byte
    }

    pub open spec fn pc_v(self) -> u16 {
        self.pc.value()
    }

    pub open spec fn sp_v(self) -> u16 {
        self.sp.value()
    }

    pub open spec fn hl_v(self) -> u16 {
        self.hl.value()
    }

    /// The register-file invariant: the low nibble of F is always zero.
    pub open spec fn wf(self) -> bool {
        self.f() & 0x0F == 0
    }

    /// The value of a byte-wide register.
    pub open spec fn spec_get8(self, r: Registers) -> u8 {
        match r {
            Registers::A => self.af.high_byte,
            Registers::Flags => self.af.low_byte,
            Registers::B => self.bc.high_byte,
            Registers::C => self.bc.low_byte,
            Registers::D => self.de.high_byte,
            Registers::E => self.de.low_byte,
            Registers::H => self.hl.high_byte,
            Registers::L => self.hl.low_byte,
            _ => 0,
        }
    }

    /// The state after storing to a byte-wide register.  A store to F masks
    /// off the low nibble, which the hardware hard-wires to zero.
    pub open spec fn spec_set8(self, r: Registers, v: u8) -> CPU {
        match r {
            Registers::A => CPU {
                af: Register { high_byte: v, low_byte: self.af.low_byte },
                ..self
            },
            Registers::Flags => CPU {
                af: Register { high_byte: self.af.high_byte, low_byte: v & 0xF0 },
                ..self
            },
            Registers::B => CPU {
                bc: Register { high_byte: v, low_byte: self.bc.low_byte },
                ..self
            },
            Registers::C => CPU {
                bc: Register { high_byte: self.bc.high_byte, low_byte: v },
                ..self
            },
            Registers::D => CPU {
                de: Register { high_byte: v, low_byte: self.de.low_byte },
                ..self
            },
            Registers::E => CPU {
                de: Register { high_byte: self.de.high_byte, low_byte: v },
                ..self
            },
            Registers::H => CPU {
                hl: Register { high_byte: v, low_byte: self.hl.low_byte },
                ..self
            },
            Registers::L => CPU {
                hl: Register { high_byte: self.hl.high_byte, low_byte: v },
                ..self
            },
            _ => self,
        }
    }

    /// The value of a pair-wide register.
    pub open spec fn spec_get16(self, r: Registers) -> u16 {
        match r {
            Registers::AF => self.af.value(),
            Registers::BC => self.bc.value(),
            Registers::DE => self.de.value(),
            Registers::HL => self.hl.value(),
            Registers::SP => self.sp.value(),
            Registers::PC => self.pc.value(),
            _ => 0,
        }
    }

    /// The state after storing to a pair-wide register.  A store to AF masks
    /// off the low nibble of F.
    pub open spec fn spec_set16(self, r: Registers, v: u16) -> CPU {
        match r {
            Registers::AF => CPU {
                af: Register { high_byte: high_of(v), low_byte: low_of(v) & 0xF0 },
                ..self
            },
            Registers::BC => CPU {
                bc: Register { high_byte: high_of(v), low_byte: low_of(v) },
                ..self
            },
            Registers::DE => CPU {
                de: Register { high_byte: high_of(v), low_byte: low_of(v) },
                ..self
            },
            Registers::HL => CPU {
                hl: Register { high_byte: high_of(v), low_byte: low_of(v) },
                ..self
            },
            Registers::SP => CPU {
                sp: Register { high_byte: high_of(v), low_byte: low_of(v) },
                ..self
            },
            Registers::PC => CPU {
                pc: Register { high_byte: high_of(v), low_byte: low_of(v) },
                ..self
            },
            _ => self,
        }
    }

    /// The state with the program counter advanced by `n` bytes.
    pub open spec fn spec_adv_pc(self, n: u16) -> CPU {
        self.spec_set16(Registers::PC, add16(self.pc_v(), n))
    }

    /// The state with the four flags replaced.
    pub open spec fn spec_flags(self, z: bool, n: bool, h: bool, c: bool) -> CPU {
        self.spec_set8(Registers::Flags, flags_byte(z, n, h, c))
    }
}

pub fn init_cpu() -> (r: CPU)
    ensures
        r.af == init_16bit_register_spec(0),
        r.bc == init_16bit_register_spec(0),
        r.de == init_16bit_register_spec(0),
        r.hl == init_16bit_register_spec(0),
        r.sp == init_16bit_register_spec(0xFFFE),
        r.pc == init_16bit_register_spec(0),
        r.ime == false,
        r.wf(),
{
    proof {
        assert(0u8 & 0x0F == 0) by (bit_vector);
    }
    CPU {
        af: init_16bit_register(0),
        bc: init_16bit_register(0),
        de: init_16bit_register(0),
        hl: init_16bit_register(0),
        sp: init_16bit_register(0xFFFE),
        pc: init_16bit_register(0),
        ime: false,
    }
}

/// The register a 16-bit initialisation yields.
pub open spec fn init_16bit_register_spec(value: u16) -> Register {
    Register { high_byte: high_of(value), low_byte: low_of(value) }
}

impl CPU {
    pub fn get_16bit_register(&self, reg: &Registers) -> (r: u16)
        requires
            is_wide_reg(*reg),
        ensures
            r == self.spec_get16(*reg),
    {
        match reg {
            Registers::AF => self.af.get_16bit_value(),
            Registers::BC => self.bc.get_16bit_value(),
            Registers::DE => self.de.get_16bit_value(),
            Registers::HL => self.hl.get_16bit_value(),
            Registers::SP => self.sp.get_16bit_value(),
            Registers::PC => self.pc.get_16bit_value(),
            _ => 0,
        }
    }

    pub fn get_8bit_register(&self, reg: &Registers) -> (r: u8)
        requires
            is_byte_reg(*reg),
        ensures
            r == self.spec_get8(*reg),
    {
        match reg {
            Registers::A => self.af.get_high_byte(),
            Registers::Flags => self.af.get_low_byte(),
            Registers::B => self.bc.get_high_byte(),
            Registers::C => self.bc.get_low_byte(),
            Registers::D => self.de.get_high_byte(),
            Registers::E => self.de.get_low_byte(),
            Registers::H => self.hl.get_high_byte(),
            Registers::L => self.hl.get_low_byte(),
            _ => 0,
        }
    }

    pub fn set_16bit_register(&self, reg: &Registers, value: u16) -> (r: CPU)
        requires
            is_wide_reg(*reg),
        ensures
            r == self.spec_set16(*reg, value),
    {
        match reg {
            Registers::AF => CPU {
                af: init_register((value / 256) as u8, ((value % 256) as u8) & 0xF0),
                ..*self
            },
            Registers::BC => CPU { bc: init_16bit_register(value), ..*self },
            Registers::DE => CPU { de: init_16bit_register(value), ..*self },
            Registers::HL => CPU { hl: init_16bit_register(value), ..*self },
            Registers::SP => CPU { sp: init_16bit_register(value), ..*self },
            Registers::PC => CPU { pc: init_16bit_register(value), ..*self },
            _ => *self,
        }
    }

    pub fn set_8bit_register(&self, reg: &Registers, value: u8) -> (r: CPU)
        requires
            is_byte_reg(*reg),
        ensures
            r == self.spec_set8(*reg, value),
    {
        match reg {
            Registers::A => CPU { af: init_register(value, self.af.low_byte), ..*self },
            Registers::Flags => CPU {
                af: init_register(self.af.high_byte, value & 0xF0),
                ..*self
            },
            Registers::B => CPU { bc: init_register(value, self.bc.low_byte), ..*self },
            Registers::C => CPU { bc: init_register(self.bc.high_byte, value), ..*self },
            Registers::D => CPU { de: init_register(value, self.de.low_byte), ..*self },
            Registers::E => CPU { de: init_register(self.de.high_byte, value), ..*self },
            Registers::H => CPU { hl: init_register(value, self.hl.low_byte), ..*self },
            Registers::L => CPU { hl: init_register(self.hl.high_byte, value), ..*self },
            _ => *self,
        }
    }

    pub fn increment_pc(&self, value: u16) -> (r: CPU)
        ensures
            r == self.spec_adv_pc(value),
    {
        self.set_16bit_register(
            &Registers::PC,
            self.get_16bit_register(&Registers::PC).wrapping_add(value),
        )
    }

    pub fn increment_sp(&self, value: u16) -> (r: CPU)
        ensures
            r == self.spec_set16(Registers::SP, add16(self.sp_v(), value)),
    {
        self.set_16bit_register(
            &Registers::SP,
            self.get_16bit_register(&Registers::SP).wrapping_add(value),
        )
    }

    pub fn decrement_sp(&self, value: u16) -> (r: CPU)
        ensures
            r == self.spec_set16(Registers::SP, sub16(self.sp_v(), value)),
    {
        self.set_16bit_register(
            &Registers::SP,
            self.get_16bit_register(&Registers::SP).wrapping_sub(value),
        )
    }

    pub fn get_flag(&self, flag: u8) -> (r: bool)
        ensures
            r == (self.f() & flag != 0),
    {
        (self.get_8bit_register(&Registers::Flags) & flag) > 0
    }

    pub fn set_flag(&self, flag: u8, value: bool) -> (r: CPU)
        ensures
            r == self.spec_set8(
                Registers::Flags,
                if value {
                    self.f() | flag
                } else {
                    self.f() & !flag
                },
            ),
    {
        let current_value = self.get_8bit_register(&Registers::Flags);
        let new_state = if value {
            self.set_8bit_register(&Registers::Flags, current_value | flag)
        } else {
            self.set_8bit_register(&Registers::Flags, current_value & !flag)
        };
        return new_state;
    }

    pub fn get_carry(&self) -> (r: bool)
        ensures
            r == flag_c(self.f()),
    {
        self.get_flag(CARRY_FLAG)
    }

    pub fn set_carry(&self, value: bool) -> (r: CPU)
        ensures
            r == self.spec_set8(
                Registers::Flags,
                if value {
                    self.f() | CARRY_FLAG
                } else {
                    self.f() & !CARRY_FLAG
                },
            ),
    {
        return self.set_flag(CARRY_FLAG, value);
    }

    pub fn get_subtract(&self) -> (r: bool)
        ensures
            r == flag_n(self.f()),
    {
        self.get_flag(SUBTRACT_FLAG)
    }

    pub fn set_subtract(&self, value: bool) -> (r: CPU)
        ensures
            r == self.spec_set8(
                Registers::Flags,
                if value {
                    self.f() | SUBTRACT_FLAG
                } else {
                    self.f() & !SUBTRACT_FLAG
                },
            ),
    {
        return self.set_flag(SUBTRACT_FLAG, value);
    }

    pub fn get_zero(&self) -> (r: bool)
        ensures
            r == flag_z(self.f()),
    {
        self.get_flag(ZERO_FLAG)
    }

    pub fn set_zero(&self, value: bool) -> (r: CPU)
        ensures
            r == self.spec_set8(
                Registers::Flags,
                if value {
                    self.f() | ZERO_FLAG
                } else {
                    self.f() & !ZERO_FLAG
                },
            ),
    {
        return self.set_flag(ZERO_FLAG, value);
    }

    /// Replaces all four flags at once.
    pub fn set_flags(&self, z: bool, n: bool, h: bool, c: bool) -> (r: CPU)
        ensures
            r == self.spec_flags(z, n, h, c),
    {
        let byte: u8 = (if z { 0x80u8 } else { 0u8 }) | (if n { 0x40u8 } else { 0u8 }) | (if h {
            0x20u8
        } else {
            0u8
        }) | (if c { 0x10u8 } else { 0u8 });
        self.set_8bit_register(&Registers::Flags, byte)
    }

    pub fn byte_split(&self, value: u16) -> (r: (u8, u8))
        ensures
            r.0 == high_of(value),
            r.1 == low_of(value),
    {
        let high_byte = (value / 256) as u8;
        let low_byte = (value % 256) as u8;
        (high_byte, low_byte)
    }

    pub fn combine_bytes(&self, msb: u8, lsb: u8) -> (r: u16)
        ensures
            r == word(msb, lsb),
    {
        (msb as u16) * 256 + (lsb as u16)
    }

    /// The 8-bit immediate that follows the opcode.
    pub fn get_8bit_arg(&self, mem: &Mem) -> (r: u8)
        requires
            mem@.wf(),
        ensures
            r == mem@.read(add16(self.pc_v(), 1)),
    {
        return mem.read(self.pc.get_16bit_value().wrapping_add(1));
    }

    /// State after `LD to, from` between byte registers.
    pub open spec fn sp_ld_rr(self, to: Registers, from: Registers) -> CPU {
        self.spec_set8(to, self.spec_get8(from)).spec_adv_pc(1)
    }

    /// State after `LD r, n`.
    pub open spec fn sp_ld8_imm(self, r: Registers, d: u8) -> CPU {
        self.spec_set8(r, d).spec_adv_pc(2)
    }

    /// State after `LD rr, nn`.
    pub open spec fn sp_ld16_imm(self, r: Registers, d: u16) -> CPU {
        self.spec_set16(r, d).spec_adv_pc(3)
    }

    /// State after `INC r`: the byte wraps, Z tracks the result, N clears,
    /// H is the carry out of bit 3, and C keeps its value.
    pub open spec fn sp_inc8(self, r: Registers) -> CPU {
        let v = self.spec_get8(r);
        self.spec_set8(r, add8(v, 1)).spec_flags(
            add8(v, 1) == 0,
            false,
            v % 16 == 15,
            flag_c(self.f()),
        ).spec_adv_pc(1)
    }

    /// State after `DEC r`: the byte wraps, Z tracks the result, N sets,
    /// H is the borrow from bit 4, and C keeps its value.
    pub open spec fn sp_dec8(self, r: Registers) -> CPU {
        let v = self.spec_get8(r);
        self.spec_set8(r, sub8(v, 1)).spec_flags(
            sub8(v, 1) == 0,
            true,
            v % 16 == 0,
            flag_c(self.f()),
        ).spec_adv_pc(1)
    }

    /// State after `INC rr`: the pair wraps and no flag moves.
    pub open spec fn sp_inc16(self, r: Registers) -> CPU {
        self.spec_set16(r, add16(self.spec_get16(r), 1)).spec_adv_pc(1)
    }

    /// State after `DEC rr`: the pair wraps and no flag moves.
    pub open spec fn sp_dec16(self, r: Registers) -> CPU {
        self.spec_set16(r, sub16(self.spec_get16(r), 1)).spec_adv_pc(1)
    }

    /// The flags a comparison or subtraction of `b` from `a` yields:
    /// Z iff equal, N set, H iff the low nibble borrows, C iff `b > a`.
    pub open spec fn sp_cp_flags(self, a: u8, b: u8) -> CPU {
        self.spec_flags(a == b, true, a % 16 < b % 16, a < b)
    }

    /// A takes the wrapped sum of itself and `v`; Z tracks the result, N
    /// clears, H is the carry out of bit 3, C the carry out of bit 7.
    pub open spec fn sp_add_v(self, v: u8) -> CPU {
        self.spec_set8(Registers::A, add8(self.a(), v)).spec_flags(
            add8(self.a(), v) == 0,
            false,
            self.a() % 16 + v % 16 > 15,
            self.a() + v > 255,
        )
    }

    /// A takes the wrapped sum of itself, `v` and the old carry.
    pub open spec fn sp_adc_v(self, v: u8) -> CPU {
        let cin: u8 = if flag_c(self.f()) {
            1
        } else {
            0
        };
        self.spec_set8(Registers::A, add8(add8(self.a(), v), cin)).spec_flags(
            add8(add8(self.a(), v), cin) == 0,
            false,
            self.a() % 16 + v % 16 + cin > 15,
            self.a() + v + cin > 255,
        )
    }

    /// A takes the wrapped difference of itself and `v`, with the flags of
    /// the subtraction.
    pub open spec fn sp_sub_v(self, v: u8) -> CPU {
        self.spec_set8(Registers::A, sub8(self.a(), v)).sp_cp_flags(self.a(), v)
    }

    /// A takes the wrapped difference of itself, `v` and the old carry.
    pub open spec fn sp_sbc_v(self, v: u8) -> CPU {
        let cin: u8 = if flag_c(self.f()) {
            1
        } else {
            0
        };
        self.spec_set8(Registers::A, sub8(sub8(self.a(), v), cin)).spec_flags(
            sub8(sub8(self.a(), v), cin) == 0,
            true,
            self.a() % 16 < v % 16 + cin,
            self.a() < v + cin,
        )
    }

    /// A takes the bitwise conjunction; Z tracks the result, H sets, N and
    /// C clear.
    pub open spec fn sp_and_v(self, v: u8) -> CPU {
        self.spec_set8(Registers::A, self.a() & v).spec_flags(
            self.a() & v == 0,
            false,
            true,
            false,
        )
    }

    /// A takes the bitwise exclusive disjunction; only Z can set.
    pub open spec fn sp_xor_v(self, v: u8) -> CPU {
        self.spec_set8(Registers::A, self.a() ^ v).spec_flags(
            self.a() ^ v == 0,
            false,
            false,
            false,
        )
    }

    /// A takes the bitwise disjunction; only Z can set.
    pub open spec fn sp_or_v(self, v: u8) -> CPU {
        self.spec_set8(Registers::A, self.a() | v).spec_flags(
            self.a() | v == 0,
            false,
            false,
            false,
        )
    }

    /// State after `SUB r` with operand value `v`: A takes the wrapped
    /// difference and the flags are those of the subtraction.
    pub open spec fn sp_sub(self, v: u8) -> CPU {
        self.sp_sub_v(v).spec_adv_pc(1)
    }

    /// State after `ADD r, v`: the register takes the wrapped sum, Z tracks
    /// the result, N clears, H is the carry out of bit 3, C the carry out
    /// of bit 7.
    pub open spec fn sp_add(self, r: Registers, v: u8) -> CPU {
        let cur = self.spec_get8(r);
        self.spec_set8(r, add8(cur, v)).spec_flags(
            add8(cur, v) == 0,
            false,
            cur % 16 + v % 16 > 15,
            cur + v > 255,
        ).spec_adv_pc(1)
    }

    /// State after `XOR A`: the accumulator clears and only Z is set.
    pub open spec fn sp_xor_a(self) -> CPU {
        self.spec_set8(Registers::A, 0).spec_flags(true, false, false, false).spec_adv_pc(1)
    }

    /// State after rotating a byte register left through the carry: no
    /// program-counter move, Z tracks the result, N and H clear, C takes
    /// the bit shifted out.
    pub open spec fn sp_rl(self, r: Registers) -> CPU {
        let v = self.spec_get8(r);
        let nv = rl_val(v, flag_c(self.f()));
        self.spec_set8(r, nv).spec_flags(nv == 0, false, false, v >= 0x80)
    }

    /// State after `RRA`: A rotates right through the carry.
    pub open spec fn sp_rra(self) -> CPU {
        let v = self.a();
        let nv = rr_val(v, flag_c(self.f()));
        self.spec_set8(Registers::A, nv).spec_flags(nv == 0, false, false, v % 2 == 1).spec_adv_pc(
            1,
        )
    }

    /// State after `BIT 7, H`: Z is set iff bit 7 of H is clear, N clears,
    /// H sets, C keeps its value.
    pub open spec fn sp_bit7h(self) -> CPU {
        self.spec_flags(self.h() & 0x80 == 0, false, true, flag_c(self.f())).spec_adv_pc(2)
    }

    /// The 16-bit little-endian immediate that follows the opcode.
    pub fn get_16bit_arg(&self, mem: &Mem) -> (r: u16)
        requires
            mem@.wf(),
        ensures
            r == word(mem@.read(add16(self.pc_v(), 2)), mem@.read(add16(self.pc_v(), 1))),
    {
        let current_pc = self.pc.get_16bit_value();
        let msb = mem.read(current_pc.wrapping_add(2));
        let lsb = mem.read(current_pc.wrapping_add(1));
        return self.combine_bytes(msb, lsb);
    }

    /// Mnemonic: LD r, r'
    pub fn load_register_from_register(&self, to: &Registers, from: &Registers) -> (r: (CPU, u8))
        requires
            is_byte_reg(*to),
            is_byte_reg(*from),
        ensures
            r.0 == self.sp_ld_rr(*to, *from),
            r.1 == 4,
    {
        (self.set_8bit_register(to, self.get_8bit_register(from)).increment_pc(1), 4)
    }

    /// Mnemonic: LD r, r' (alias kept beside `load_register_from_register`)
    pub fn load(&self, dst: &Registers, src: &Registers) -> (r: (CPU, u8))
        requires
            is_byte_reg(*dst),
            is_byte_reg(*src),
        ensures
            r.0 == self.sp_ld_rr(*dst, *src),
            r.1 == 4,
    {
        return (self.set_8bit_register(dst, self.get_8bit_register(src)).increment_pc(1), 4);
    }

    /// Mnemonic: LD rr, nn
    pub fn load_16bit_immediate(&self, mem: &Mem, reg: &Registers) -> (r: (CPU, u8))
        requires
            mem@.wf(),
            is_wide_reg(*reg),
        ensures
            r.0 == self.sp_ld16_imm(
                *reg,
                word(mem@.read(add16(self.pc_v(), 2)), mem@.read(add16(self.pc_v(), 1))),
            ),
            r.1 == 12,
    {
        let data = self.get_16bit_arg(mem);
        return (self.set_16bit_register(reg, data).increment_pc(3), 12);
    }

    /// Mnemonic: LD r, n
    pub fn ld_8bit_immediate(&self, mem: &Mem, reg: &Registers) -> (r: (CPU, u8))
        requires
            mem@.wf(),
            is_byte_reg(*reg),
        ensures
            r.0 == self.sp_ld8_imm(*reg, mem@.read(add16(self.pc_v(), 1))),
            r.1 == 8,
    {
        let data = self.get_8bit_arg(mem);
        (self.set_8bit_register(reg, data).increment_pc(2), 8)
    }

    /// Compares two values and sets the flags of their subtraction.
    ///
    /// Mnemonic: the flag half of CP
    pub fn compare(&self, a: u8, b: u8) -> (r: CPU)
        ensures
            r == self.sp_cp_flags(a, b),
    {
        self.set_flags(a == b, true, a % 16 < b % 16, a < b)
    }

    /// Mnemonic: CP n
    pub fn cp_immediate(&self, mem: &Mem) -> (r: (CPU, u8))
        requires
            mem@.wf(),
        ensures
            r.0 == self.sp_cp_flags(self.a(), mem@.read(add16(self.pc_v(), 1))).spec_adv_pc(2),
            r.1 == 8,
    {
        let data = self.get_8bit_arg(mem);
        return (self.compare(self.get_8bit_register(&Registers::A), data).increment_pc(2), 8);
    }

    /// Mnemonic: INC r
    pub fn inc_8bit_register(&self, reg: &Registers) -> (r: (CPU, u8))
        requires
            is_gp_byte_reg(*reg),
        ensures
            r.0 == self.sp_inc8(*reg),
            r.1 == 4,
    {
        let v = self.get_8bit_register(reg);
        let new_value = v.wrapping_add(1);
        return (
            self.set_8bit_register(reg, new_value).set_flags(
                new_value == 0,
                false,
                v % 16 == 15,
                self.get_carry(),
            ).increment_pc(1),
            4,
        );
    }

    /// Mnemonic: DEC r
    pub fn dec_8bit_register(&self, reg: &Registers) -> (r: (CPU, u8))
        requires
            is_gp_byte_reg(*reg),
        ensures
            r.0 == self.sp_dec8(*reg),
            r.1 == 4,
    {
        let v = self.get_8bit_register(reg);
        let new_value = v.wrapping_sub(1);
        return (
            self.set_8bit_register(reg, new_value).set_flags(
                new_value == 0,
                true,
                v % 16 == 0,
                self.get_carry(),
            ).increment_pc(1),
            4,
        );
    }

    /// Mnemonic: INC rr
    pub fn inc_16bit_register(&self, reg: &Registers) -> (r: (CPU, u8))
        requires
            is_wide_reg(*reg),
        ensures
            r.0 == self.sp_inc16(*reg),
            r.1 == 8,
    {
        let current_value = self.get_16bit_register(reg);
        let new_value = current_value.wrapping_add(1);
        return (self.set_16bit_register(reg, new_value).increment_pc(1), 8);
    }

    /// Mnemonic: DEC rr
    pub fn dec_16bit_register(&self, reg: &Registers) -> (r: CPU)
        requires
            is_wide_reg(*reg),
        ensures
            r == self.sp_dec16(*reg),
    {
        let new_value = self.get_16bit_register(reg).wrapping_sub(1);
        return self.set_16bit_register(reg, new_value).increment_pc(1);
    }

    /// Mnemonic: SUB r
    pub fn sub(&self, rhs: &Registers) -> (r: (CPU, u8))
        requires
            is_byte_reg(*rhs),
        ensures
            r.0 == self.sp_sub(self.spec_get8(*rhs)),
            r.1 == 4,
    {
        let current_a = self.get_8bit_register(&Registers::A);
        let rhs_value = self.get_8bit_register(rhs);
        let new_a = current_a.wrapping_sub(rhs_value);
        return (
            self.set_8bit_register(&Registers::A, new_a).set_flags(
                current_a == rhs_value,
                true,
                current_a % 16 < rhs_value % 16,
                current_a < rhs_value,
            ).increment_pc(1),
            4,
        );
    }

    /// Mnemonic: ADD r, v with a memory operand, as in ADD A, (HL)
    pub fn add(&self, reg: &Registers, rhs: u8) -> (r: (CPU, u8))
        requires
            is_gp_byte_reg(*reg),
        ensures
            r.0 == self.sp_add(*reg, rhs),
            r.1 == 8,
    {
        let current_value = self.get_8bit_register(reg);
        let new_value = current_value.wrapping_add(rhs);
        (
            self.set_8bit_register(reg, new_value).set_flags(
                new_value == 0,
                false,
                current_value % 16 + rhs % 16 > 15,
                (current_value as u16) + (rhs as u16) > 255,
            ).increment_pc(1),
            8,
        )
    }

    /// Mnemonic: ADD A, v — the accumulator half, without the counter move.
    pub fn alu_add(&self, v: u8) -> (r: CPU)
        ensures
            r == self.sp_add_v(v),
    {
        let a = self.get_8bit_register(&Registers::A);
        let new_a = a.wrapping_add(v);
        self.set_8bit_register(&Registers::A, new_a).set_flags(
            new_a == 0,
            false,
            a % 16 + v % 16 > 15,
            (a as u16) + (v as u16) > 255,
        )
    }

    /// Mnemonic: ADC A, v — the accumulator half, without the counter move.
    pub fn alu_adc(&self, v: u8) -> (r: CPU)
        ensures
            r == self.sp_adc_v(v),
    {
        let a = self.get_8bit_register(&Registers::A);
        let cin: u8 = if self.get_carry() {
            1
        } else {
            0
        };
        let new_a = a.wrapping_add(v).wrapping_add(cin);
        self.set_8bit_register(&Registers::A, new_a).set_flags(
            new_a == 0,
            false,
            a % 16 + v % 16 + cin > 15,
            (a as u16) + (v as u16) + (cin as u16) > 255,
        )
    }

    /// Mnemonic: SUB v — the accumulator half, without the counter move.
    pub fn alu_sub(&self, v: u8) -> (r: CPU)
        ensures
            r == self.sp_sub_v(v),
    {
        let a = self.get_8bit_register(&Registers::A);
        let new_a = a.wrapping_sub(v);
        self.set_8bit_register(&Registers::A, new_a).set_flags(
            a == v,
            true,
            a % 16 < v % 16,
            a < v,
        )
    }

    /// Mnemonic: SBC A, v — the accumulator half, without the counter move.
    pub fn alu_sbc(&self, v: u8) -> (r: CPU)
        ensures
            r == self.sp_sbc_v(v),
    {
        let a = self.get_8bit_register(&Registers::A);
        let cin: u8 = if self.get_carry() {
            1
        } else {
            0
        };
        let new_a = a.wrapping_sub(v).wrapping_sub(cin);
        self.set_8bit_register(&Registers::A, new_a).set_flags(
            new_a == 0,
            true,
            a % 16 < v % 16 + cin,
            (a as u16) < (v as u16) + (cin as u16),
        )
    }

    /// Mnemonic: AND v — the accumulator half, without the counter move.
    pub fn alu_and(&self, v: u8) -> (r: CPU)
        ensures
            r == self.sp_and_v(v),
    {
        let a = self.get_8bit_register(&Registers::A);
        let new_a = a & v;
        self.set_8bit_register(&Registers::A, new_a).set_flags(new_a == 0, false, true, false)
    }

    /// Mnemonic: XOR v — the accumulator half, without the counter move.
    pub fn alu_xor(&self, v: u8) -> (r: CPU)
        ensures
            r == self.sp_xor_v(v),
    {
        let a = self.get_8bit_register(&Registers::A);
        let new_a = a ^ v;
        self.set_8bit_register(&Registers::A, new_a).set_flags(new_a == 0, false, false, false)
    }

    /// Mnemonic: OR v — the accumulator half, without the counter move.
    pub fn alu_or(&self, v: u8) -> (r: CPU)
        ensures
            r == self.sp_or_v(v),
    {
        let a = self.get_8bit_register(&Registers::A);
        let new_a = a | v;
        self.set_8bit_register(&Registers::A, new_a).set_flags(new_a == 0, false, false, false)
    }

    /// Rotates a byte register left through the carry flag.
    pub fn rotate_left(&self, reg: &Registers) -> (r: CPU)
        requires
            is_gp_byte_reg(*reg),
        ensures
            r == self.sp_rl(*reg),
    {
        let current_value = self.get_8bit_register(reg);
        let carry_in: u8 = if self.get_carry() {
            1
        } else {
            0
        };
        let new_value = current_value.wrapping_add(current_value).wrapping_add(carry_in);
        self.set_8bit_register(reg, new_value).set_flags(
            new_value == 0,
            false,
            false,
            current_value >= 0x80,
        )
    }

    /// Mnemonic: RL r (with the prefix byte's length and timing)
    pub fn prefixed_rotate_left(&self, reg: &Registers) -> (r: CPU)
        requires
            is_gp_byte_reg(*reg),
        ensures
            r == self.sp_rl(*reg).spec_adv_pc(2),
    {
        self.rotate_left(reg).increment_pc(2)
    }

    /// Mnemonic: RLA
    pub fn rla(&self) -> (r: (CPU, u8))
        ensures
            r.0 == self.sp_rl(Registers::A).spec_adv_pc(1),
            r.1 == 4,
    {
        (self.rotate_left(&Registers::A).increment_pc(1), 4)
    }

    /// Writes `byte1` one below the stack pointer and `byte2` two below,
    /// and moves the stack pointer down by two.
    pub fn push_two_bytes(&self, mem: &mut Mem, byte1: u8, byte2: u8) -> (r: CPU)
        requires
            old(mem)@.wf(),
        ensures
            final(mem)@ == old(mem)@.write(sub16(self.sp_v(), 1), byte1).write(
                sub16(self.sp_v(), 2),
                byte2,
            ),
            final(mem)@.wf(),
            r == self.spec_set16(Registers::SP, sub16(self.sp_v(), 2)),
    {
        let current_sp = self.get_16bit_register(&Registers::SP);
        mem.write(current_sp.wrapping_sub(1), byte1);
        mem.write(current_sp.wrapping_sub(2), byte2);
        return self.decrement_sp(2);
    }

    /// Pushes a 16-bit value: high byte at SP-1, low byte at SP-2.
    pub fn push(&self, mem: &mut Mem, value: u16) -> (r: CPU)
        requires
            old(mem)@.wf(),
        ensures
            final(mem)@ == old(mem)@.write(sub16(self.sp_v(), 1), high_of(value)).write(
                sub16(self.sp_v(), 2),
                low_of(value),
            ),
            final(mem)@.wf(),
            r == self.spec_set16(Registers::SP, sub16(self.sp_v(), 2)),
    {
        let (high_byte, low_byte) = self.byte_split(value);
        return self.push_two_bytes(mem, high_byte, low_byte);
    }

    /// Reads the 16-bit value at the stack pointer: low byte at SP, high
    /// byte at SP+1.  The stack pointer itself does not move.
    pub fn stack_pop(&self, mem: &Mem) -> (r: u16)
        requires
            mem@.wf(),
        ensures
            r == word(mem@.read(add16(self.sp_v(), 1)), mem@.read(self.sp_v())),
    {
        let current_sp = self.get_16bit_register(&Registers::SP);
        let lsb = mem.read(current_sp);
        let msb = mem.read(current_sp.wrapping_add(1));
        self.combine_bytes(msb, lsb)
    }

    /// Mnemonic: RET
    pub fn ret(&self, mem: &Mem) -> (r: (CPU, u8))
        requires
            mem@.wf(),
        ensures
            r.0 == self.spec_set16(
                Registers::PC,
                word(mem@.read(add16(self.sp_v(), 1)), mem@.read(self.sp_v())),
            ).spec_set16(Registers::SP, add16(self.sp_v(), 2)),
            r.1 == 16,
    {
        let address = self.stack_pop(mem);
        (self.set_16bit_register(&Registers::PC, address).increment_sp(2), 16)
    }

    /// Mnemonic: POP rr, for BC, DE, HL and AF.  Popping into AF masks the
    /// low nibble of F off, as every store to F does.
    pub fn pop(&self, reg: &Registers, mem: &Mem) -> (r: (CPU, u8))
        requires
            mem@.wf(),
            *reg matches Registers::BC || *reg matches Registers::DE || *reg
                matches Registers::HL || *reg matches Registers::AF,
        ensures
            r.0 == self.spec_set16(
                *reg,
                word(mem@.read(add16(self.sp_v(), 1)), mem@.read(self.sp_v())),
            ).spec_set16(Registers::SP, add16(self.sp_v(), 2)).spec_adv_pc(1),
            r.1 == 12,
    {
        let value = self.stack_pop(mem);
        let new_cpu = self.set_16bit_register(reg, value).increment_sp(2).increment_pc(1);
        return (new_cpu, 12);
    }

    /// Mnemonic: JR — the displacement is signed, relative to the byte
    /// after the two-byte instruction.
    pub fn reljump(&self, mem: &Mem) -> (r: CPU)
        requires
            mem@.wf(),
        ensures
            r == self.spec_set16(
                Registers::PC,
                jr_target(self.pc_v(), mem@.read(add16(self.pc_v(), 1))),
            ),
    {
        let data = self.get_8bit_arg(mem);
        let pc = self.get_16bit_register(&Registers::PC);
        let base = pc.wrapping_add(2).wrapping_add(data as u16);
        let target = if data < 0x80 {
            base
        } else {
            base.wrapping_sub(0x100)
        };
        return self.set_16bit_register(&Registers::PC, target);
    }

    /// Mnemonic: JR d
    pub fn jr(&self, mem: &Mem) -> (r: (CPU, u8))
        requires
            mem@.wf(),
        ensures
            r.0 == self.spec_set16(
                Registers::PC,
                jr_target(self.pc_v(), mem@.read(add16(self.pc_v(), 1))),
            ),
            r.1 == 12,
    {
        return (self.reljump(mem), 12);
    }

    /// Mnemonic: JR NZ, d — taken branches cost 12 cycles, skipped ones 8.
    pub fn jr_nonzero(&self, mem: &Mem) -> (r: (CPU, u8))
        requires
            mem@.wf(),
        ensures
            r.0 == if !flag_z(self.f()) {
                self.spec_set16(
                    Registers::PC,
                    jr_target(self.pc_v(), mem@.read(add16(self.pc_v(), 1))),
                )
            } else {
                self.spec_adv_pc(2)
            },
            r.1 == if !flag_z(self.f()) {
                12u8
            } else {
                8u8
            },
    {
        return if !self.get_zero() {
            (self.reljump(mem), 12)
        } else {
            (self.increment_pc(2), 8)
        };
    }

    /// Mnemonic: JR Z, d — taken branches cost 12 cycles, skipped ones 8.
    pub fn jr_zero(&self, mem: &Mem) -> (r: (CPU, u8))
        requires
            mem@.wf(),
        ensures
            r.0 == if flag_z(self.f()) {
                self.spec_set16(
                    Registers::PC,
                    jr_target(self.pc_v(), mem@.read(add16(self.pc_v(), 1))),
                )
            } else {
                self.spec_adv_pc(2)
            },
            r.1 == if flag_z(self.f()) {
                12u8
            } else {
                8u8
            },
    {
        return if self.get_zero() {
            (self.reljump(mem), 12)
        } else {
            (self.increment_pc(2), 8)
        };
    }

    /// Mnemonic: LDI (HL), A
    pub fn load_increment_hl_a(&self, mem: &mut Mem) -> (r: (CPU, u8))
        requires
            old(mem)@.wf(),
        ensures
            final(mem)@ == old(mem)@.write(self.hl_v(), self.a()),
            final(mem)@.wf(),
            r.0 == self.spec_set16(Registers::HL, add16(self.hl_v(), 1)).spec_adv_pc(1),
            r.1 == 8,
    {
        mem.write(
            self.get_16bit_register(&Registers::HL),
            self.get_8bit_register(&Registers::A),
        );
        return (
            self.set_16bit_register(
                &Registers::HL,
                self.get_16bit_register(&Registers::HL).wrapping_add(1),
            ).increment_pc(1),
            8,
        );
    }
}

/// The target of a relative jump: the displacement is a signed byte taken
/// from after the two-byte instruction, so the target is PC + 2 + d.
pub open spec fn jr_target(pc: u16, d: u8) -> u16 {
    if d < 0x80 {
        add16(add16(pc, 2), d as u16)
    } else {
        sub16(add16(add16(pc, 2), d as u16), 0x100)
    }
}

/// The five interrupt sources, as a mask over IF and IE.
pub open spec fn pending_interrupts(m: MemSnap) -> u8 {
    m.read(0xFF0F) & m.read(0xFFFF) & 0x1F
}

/// The highest-priority pending source: the lowest set bit, V-blank first.
pub open spec fn int_index(pending: u8) -> u8 {
    if pending & 1 != 0 {
        0
    } else if pending & 2 != 0 {
        1
    } else if pending & 4 != 0 {
        2
    } else if pending & 8 != 0 {
        3
    } else {
        4
    }
}

/// Servicing an interrupt: its IF bit clears, the master enable clears, the
/// program counter is pushed, and control moves to the source's vector.
/// The service consumes 20 T-cycles.
pub open spec fn interrupt_spec(c: CPU, m: MemSnap) -> (CPU, MemSnap, u8) {
    let i = int_index(pending_interrupts(m));
    let m1 = m.write(0xFF0F, m.read(0xFF0F) & !(1u8 << i));
    let m2 = m1.write(sub16(c.sp_v(), 1), high_of(c.pc_v())).write(
        sub16(c.sp_v(), 2),
        low_of(c.pc_v()),
    );
    let c1 = CPU { ime: false, ..c.spec_set16(Registers::SP, sub16(c.sp_v(), 2)) };
    (c1.spec_set16(Registers::PC, (0x40 + 8 * i) as u16), m2, 20)
}

/// One step of the interpreter, as a function of the processor and bus
/// state: `None` when the fetched opcode is outside the implemented set,
/// otherwise the next processor state, the next bus state, and the
/// T-cycles the instruction costs on the published LR35902 table.
/// The `LD r, r'` block at 0x40-0x7F: register-to-register moves at 4
/// T-cycles, with the (HL) column and row reading and writing through HL
/// at 8.  The byte the block does not define yields `None`.
pub open spec fn step_load_spec(c: CPU, m: MemSnap, op: u8) -> Option<(CPU, MemSnap, u8)> {
    match op {
        0x40 => Some((c.sp_ld_rr(Registers::B, Registers::B), m, 4)),
        0x41 => Some((c.sp_ld_rr(Registers::B, Registers::C), m, 4)),
        0x42 => Some((c.sp_ld_rr(Registers::B, Registers::D), m, 4)),
        0x43 => Some((c.sp_ld_rr(Registers::B, Registers::E), m, 4)),
        0x44 => Some((c.sp_ld_rr(Registers::B, Registers::H), m, 4)),
        0x45 => Some((c.sp_ld_rr(Registers::B, Registers::L), m, 4)),
        0x46 => Some((c.spec_set8(Registers::B, m.read(c.hl_v())).spec_adv_pc(1), m, 8)),
        0x47 => Some((c.sp_ld_rr(Registers::B, Registers::A), m, 4)),
        0x48 => Some((c.sp_ld_rr(Registers::C, Registers::B), m, 4)),
        0x49 => Some((c.sp_ld_rr(Registers::C, Registers::C), m, 4)),
        0x4A => Some((c.sp_ld_rr(Registers::C, Registers::D), m, 4)),
        0x4B => Some((c.sp_ld_rr(Registers::C, Registers::E), m, 4)),
        0x4C => Some((c.sp_ld_rr(Registers::C, Registers::H), m, 4)),
        0x4D => Some((c.sp_ld_rr(Registers::C, Registers::L), m, 4)),
        0x4E => Some((c.spec_set8(Registers::C, m.read(c.hl_v())).spec_adv_pc(1), m, 8)),
        0x4F => Some((c.sp_ld_rr(Registers::C, Registers::A), m, 4)),
        0x50 => Some((c.sp_ld_rr(Registers::D, Registers::B), m, 4)),
        0x51 => Some((c.sp_ld_rr(Registers::D, Registers::C), m, 4)),
        0x52 => Some((c.sp_ld_rr(Registers::D, Registers::D), m, 4)),
        0x53 => Some((c.sp_ld_rr(Registers::D, Registers::E), m, 4)),
        0x54 => Some((c.sp_ld_rr(Registers::D, Registers::H), m, 4)),
        0x55 => Some((c.sp_ld_rr(Registers::D, Registers::L), m, 4)),
        0x56 => Some((c.spec_set8(Registers::D, m.read(c.hl_v())).spec_adv_pc(1), m, 8)),
        0x57 => Some((c.sp_ld_rr(Registers::D, Registers::A), m, 4)),
        0x58 => Some((c.sp_ld_rr(Registers::E, Registers::B), m, 4)),
        0x59 => Some((c.sp_ld_rr(Registers::E, Registers::C), m, 4)),
        0x5A => Some((c.sp_ld_rr(Registers::E, Registers::D), m, 4)),
        0x5B => Some((c.sp_ld_rr(Registers::E, Registers::E), m, 4)),
        0x5C => Some((c.sp_ld_rr(Registers::E, Registers::H), m, 4)),
        0x5D => Some((c.sp_ld_rr(Registers::E, Registers::L), m, 4)),
        0x5E => Some((c.spec_set8(Registers::E, m.read(c.hl_v())).spec_adv_pc(1), m, 8)),
        0x5F => Some((c.sp_ld_rr(Registers::E, Registers::A), m, 4)),
        0x60 => Some((c.sp_ld_rr(Registers::H, Registers::B), m, 4)),
        0x61 => Some((c.sp_ld_rr(Registers::H, Registers::C), m, 4)),
        0x62 => Some((c.sp_ld_rr(Registers::H, Registers::D), m, 4)),
        0x63 => Some((c.sp_ld_rr(Registers::H, Registers::E), m, 4)),
        0x64 => Some((c.sp_ld_rr(Registers::H, Registers::H), m, 4)),
        0x65 => Some((c.sp_ld_rr(Registers::H, Registers::L), m, 4)),
        0x66 => Some((c.spec_set8(Registers::H, m.read(c.hl_v())).spec_adv_pc(1), m, 8)),
        0x67 => Some((c.sp_ld_rr(Registers::H, Registers::A), m, 4)),
        0x68 => Some((c.sp_ld_rr(Registers::L, Registers::B), m, 4)),
        0x69 => Some((c.sp_ld_rr(Registers::L, Registers::C), m, 4)),
        0x6A => Some((c.sp_ld_rr(Registers::L, Registers::D), m, 4)),
        0x6B => Some((c.sp_ld_rr(Registers::L, Registers::E), m, 4)),
        0x6C => Some((c.sp_ld_rr(Registers::L, Registers::H), m, 4)),
        0x6D => Some((c.sp_ld_rr(Registers::L, Registers::L), m, 4)),
        0x6E => Some((c.spec_set8(Registers::L, m.read(c.hl_v())).spec_adv_pc(1), m, 8)),
        0x6F => Some((c.sp_ld_rr(Registers::L, Registers::A), m, 4)),
        0x70 => Some((c.spec_adv_pc(1), m.write(c.hl_v(), c.spec_get8(Registers::B)), 8)),
        0x71 => Some((c.spec_adv_pc(1), m.write(c.hl_v(), c.spec_get8(Registers::C)), 8)),
        0x72 => Some((c.spec_adv_pc(1), m.write(c.hl_v(), c.spec_get8(Registers::D)), 8)),
        0x73 => Some((c.spec_adv_pc(1), m.write(c.hl_v(), c.spec_get8(Registers::E)), 8)),
        0x74 => Some((c.spec_adv_pc(1), m.write(c.hl_v(), c.spec_get8(Registers::H)), 8)),
        0x75 => Some((c.spec_adv_pc(1), m.write(c.hl_v(), c.spec_get8(Registers::L)), 8)),
        0x77 => Some((c.spec_adv_pc(1), m.write(c.hl_v(), c.a()), 8)),
        0x78 => Some((c.sp_ld_rr(Registers::A, Registers::B), m, 4)),
        0x79 => Some((c.sp_ld_rr(Registers::A, Registers::C), m, 4)),
        0x7A => Some((c.sp_ld_rr(Registers::A, Registers::D), m, 4)),
        0x7B => Some((c.sp_ld_rr(Registers::A, Registers::E), m, 4)),
        0x7C => Some((c.sp_ld_rr(Registers::A, Registers::H), m, 4)),
        0x7D => Some((c.sp_ld_rr(Registers::A, Registers::L), m, 4)),
        0x7E => Some((c.spec_set8(Registers::A, m.read(c.hl_v())).spec_adv_pc(1), m, 8)),
        0x7F => Some((c.sp_ld_rr(Registers::A, Registers::A), m, 4)),
        _ => None,
    }
}

/// The 8-bit arithmetic block at 0x80-0xBF: ADD, ADC, SUB, SBC, AND, XOR,
/// OR and CP of each byte register or (HL) into the accumulator.
pub open spec fn step_alu_spec(c: CPU, m: MemSnap, op: u8) -> Option<(CPU, MemSnap, u8)> {
    match op {
        0x80 => Some((c.sp_add_v(c.spec_get8(Registers::B)).spec_adv_pc(1), m, 4)),
        0x81 => Some((c.sp_add_v(c.spec_get8(Registers::C)).spec_adv_pc(1), m, 4)),
        0x82 => Some((c.sp_add_v(c.spec_get8(Registers::D)).spec_adv_pc(1), m, 4)),
        0x83 => Some((c.sp_add_v(c.spec_get8(Registers::E)).spec_adv_pc(1), m, 4)),
        0x84 => Some((c.sp_add_v(c.spec_get8(Registers::H)).spec_adv_pc(1), m, 4)),
        0x85 => Some((c.sp_add_v(c.spec_get8(Registers::L)).spec_adv_pc(1), m, 4)),
        0x86 => Some((c.sp_add(Registers::A, m.read(c.hl_v())), m, 8)),
        0x87 => Some((c.sp_add_v(c.spec_get8(Registers::A)).spec_adv_pc(1), m, 4)),
        0x88 => Some((c.sp_adc_v(c.spec_get8(Registers::B)).spec_adv_pc(1), m, 4)),
        0x89 => Some((c.sp_adc_v(c.spec_get8(Registers::C)).spec_adv_pc(1), m, 4)),
        0x8A => Some((c.sp_adc_v(c.spec_get8(Registers::D)).spec_adv_pc(1), m, 4)),
        0x8B => Some((c.sp_adc_v(c.spec_get8(Registers::E)).spec_adv_pc(1), m, 4)),
        0x8C => Some((c.sp_adc_v(c.spec_get8(Registers::H)).spec_adv_pc(1), m, 4)),
        0x8D => Some((c.sp_adc_v(c.spec_get8(Registers::L)).spec_adv_pc(1), m, 4)),
        0x8E => Some((c.sp_adc_v(m.read(c.hl_v())).spec_adv_pc(1), m, 8)),
        0x8F => Some((c.sp_adc_v(c.spec_get8(Registers::A)).spec_adv_pc(1), m, 4)),
        0x90 => Some((c.sp_sub(c.b()), m, 4)),
        0x91 => Some((c.sp_sub_v(c.spec_get8(Registers::C)).spec_adv_pc(1), m, 4)),
        0x92 => Some((c.sp_sub_v(c.spec_get8(Registers::D)).spec_adv_pc(1), m, 4)),
        0x93 => Some((c.sp_sub_v(c.spec_get8(Registers::E)).spec_adv_pc(1), m, 4)),
        0x94 => Some((c.sp_sub_v(c.spec_get8(Registers::H)).spec_adv_pc(1), m, 4)),
        0x95 => Some((c.sp_sub_v(c.spec_get8(Registers::L)).spec_adv_pc(1), m, 4)),
        0x96 => Some((c.sp_sub_v(m.read(c.hl_v())).spec_adv_pc(1), m, 8)),
        0x97 => Some((c.sp_sub_v(c.spec_get8(Registers::A)).spec_adv_pc(1), m, 4)),
        0x98 => Some((c.sp_sbc_v(c.spec_get8(Registers::B)).spec_adv_pc(1), m, 4)),
        0x99 => Some((c.sp_sbc_v(c.spec_get8(Registers::C)).spec_adv_pc(1), m, 4)),
        0x9A => Some((c.sp_sbc_v(c.spec_get8(Registers::D)).spec_adv_pc(1), m, 4)),
        0x9B => Some((c.sp_sbc_v(c.spec_get8(Registers::E)).spec_adv_pc(1), m, 4)),
        0x9C => Some((c.sp_sbc_v(c.spec_get8(Registers::H)).spec_adv_pc(1), m, 4)),
        0x9D => Some((c.sp_sbc_v(c.spec_get8(Registers::L)).spec_adv_pc(1), m, 4)),
        0x9E => Some((c.sp_sbc_v(m.read(c.hl_v())).spec_adv_pc(1), m, 8)),
        0x9F => Some((c.sp_sbc_v(c.spec_get8(Registers::A)).spec_adv_pc(1), m, 4)),
        0xA0 => Some((c.sp_and_v(c.spec_get8(Registers::B)).spec_adv_pc(1), m, 4)),
        0xA1 => Some((c.sp_and_v(c.spec_get8(Registers::C)).spec_adv_pc(1), m, 4)),
        0xA2 => Some((c.sp_and_v(c.spec_get8(Registers::D)).spec_adv_pc(1), m, 4)),
        0xA3 => Some((c.sp_and_v(c.spec_get8(Registers::E)).spec_adv_pc(1), m, 4)),
        0xA4 => Some((c.sp_and_v(c.spec_get8(Registers::H)).spec_adv_pc(1), m, 4)),
        0xA5 => Some((c.sp_and_v(c.spec_get8(Registers::L)).spec_adv_pc(1), m, 4)),
        0xA6 => Some((c.sp_and_v(m.read(c.hl_v())).spec_adv_pc(1), m, 8)),
        0xA7 => Some((c.sp_and_v(c.spec_get8(Registers::A)).spec_adv_pc(1), m, 4)),
        0xA8 => Some((c.sp_xor_v(c.spec_get8(Registers::B)).spec_adv_pc(1), m, 4)),
        0xA9 => Some((c.sp_xor_v(c.spec_get8(Registers::C)).spec_adv_pc(1), m, 4)),
        0xAA => Some((c.sp_xor_v(c.spec_get8(Registers::D)).spec_adv_pc(1), m, 4)),
        0xAB => Some((c.sp_xor_v(c.spec_get8(Registers::E)).spec_adv_pc(1), m, 4)),
        0xAC => Some((c.sp_xor_v(c.spec_get8(Registers::H)).spec_adv_pc(1), m, 4)),
        0xAD => Some((c.sp_xor_v(c.spec_get8(Registers::L)).spec_adv_pc(1), m, 4)),
        0xAE => Some((c.sp_xor_v(m.read(c.hl_v())).spec_adv_pc(1), m, 8)),
        0xAF => Some((c.sp_xor_a(), m, 4)),
        0xB0 => Some((c.sp_or_v(c.spec_get8(Registers::B)).spec_adv_pc(1), m, 4)),
        0xB1 => Some((c.sp_or_v(c.spec_get8(Registers::C)).spec_adv_pc(1), m, 4)),
        0xB2 => Some((c.sp_or_v(c.spec_get8(Registers::D)).spec_adv_pc(1), m, 4)),
        0xB3 => Some((c.sp_or_v(c.spec_get8(Registers::E)).spec_adv_pc(1), m, 4)),
        0xB4 => Some((c.sp_or_v(c.spec_get8(Registers::H)).spec_adv_pc(1), m, 4)),
        0xB5 => Some((c.sp_or_v(c.spec_get8(Registers::L)).spec_adv_pc(1), m, 4)),
        0xB6 => Some((c.sp_or_v(m.read(c.hl_v())).spec_adv_pc(1), m, 8)),
        0xB7 => Some((c.sp_or_v(c.spec_get8(Registers::A)).spec_adv_pc(1), m, 4)),
        0xB8 => Some((c.sp_cp_flags(c.a(), c.spec_get8(Registers::B)).spec_adv_pc(1), m, 4)),
        0xB9 => Some((c.sp_cp_flags(c.a(), c.spec_get8(Registers::C)).spec_adv_pc(1), m, 4)),
        0xBA => Some((c.sp_cp_flags(c.a(), c.spec_get8(Registers::D)).spec_adv_pc(1), m, 4)),
        0xBB => Some((c.sp_cp_flags(c.a(), c.spec_get8(Registers::E)).spec_adv_pc(1), m, 4)),
        0xBC => Some((c.sp_cp_flags(c.a(), c.spec_get8(Registers::H)).spec_adv_pc(1), m, 4)),
        0xBD => Some((c.sp_cp_flags(c.a(), c.spec_get8(Registers::L)).spec_adv_pc(1), m, 4)),
        0xBE => Some((c.sp_cp_flags(c.a(), m.read(c.hl_v())).spec_adv_pc(1), m, 8)),
        0xBF => Some((c.sp_cp_flags(c.a(), c.spec_get8(Registers::A)).spec_adv_pc(1), m, 4)),
        _ => None,
    }
}

pub open spec fn step_spec(c: CPU, m: MemSnap) -> Option<(CPU, MemSnap, u8)> {
    if c.ime && pending_interrupts(m) != 0 {
        Some(interrupt_spec(c, m))
    } else {
        let op = m.read(c.pc_v());
        let n8 = m.read(add16(c.pc_v(), 1));
        let n16 = word(m.read(add16(c.pc_v(), 2)), m.read(add16(c.pc_v(), 1)));
        if 0x40 <= op && op < 0x80 {
            step_load_spec(c, m, op)
        } else if 0x80 <= op && op < 0xC0 {
            step_alu_spec(c, m, op)
        } else {
            match op {
                0x00 => Some((c.spec_adv_pc(1), m, 4)),
                0x01 => Some((c.sp_ld16_imm(Registers::BC, n16), m, 12)),
                0x02 => Some((c.spec_adv_pc(1), m.write(c.bc.value(), c.a()), 8)),
                0x03 => Some((c.sp_inc16(Registers::BC), m, 8)),
                0x04 => Some((c.sp_inc8(Registers::B), m, 4)),
                0x05 => Some((c.sp_dec8(Registers::B), m, 4)),
                0x06 => Some((c.sp_ld8_imm(Registers::B, n8), m, 8)),
                0x0A => Some((c.spec_set8(Registers::A, m.read(c.bc.value())).spec_adv_pc(1), m, 8)),
                0x0B => Some((c.sp_dec16(Registers::BC), m, 8)),
                0x0C => Some((c.sp_inc8(Registers::C), m, 4)),
                0x0D => Some((c.sp_dec8(Registers::C), m, 4)),
                0x0E => Some((c.sp_ld8_imm(Registers::C, n8), m, 8)),
                0x11 => Some((c.sp_ld16_imm(Registers::DE, n16), m, 12)),
                0x12 => Some((c.spec_adv_pc(1), m.write(c.de.value(), c.a()), 8)),
                0x13 => Some((c.sp_inc16(Registers::DE), m, 8)),
                0x14 => Some((c.sp_inc8(Registers::D), m, 4)),
                0x15 => Some((c.sp_dec8(Registers::D), m, 4)),
                0x16 => Some((c.sp_ld8_imm(Registers::D, n8), m, 8)),
                0x17 => Some((c.sp_rl(Registers::A).spec_adv_pc(1), m, 4)),
                0x18 => Some((c.spec_set16(Registers::PC, jr_target(c.pc_v(), n8)), m, 12)),
                0x1A => Some((c.spec_set8(Registers::A, m.read(c.de.value())).spec_adv_pc(1), m, 8)),
                0x1B => Some((c.sp_dec16(Registers::DE), m, 8)),
                0x1C => Some((c.sp_inc8(Registers::E), m, 4)),
                0x1D => Some((c.sp_dec8(Registers::E), m, 4)),
                0x1E => Some((c.sp_ld8_imm(Registers::E, n8), m, 8)),
                0x1F => Some((c.sp_rra(), m, 4)),
                0x20 => if !flag_z(c.f()) {
                    Some((c.spec_set16(Registers::PC, jr_target(c.pc_v(), n8)), m, 12))
                } else {
                    Some((c.spec_adv_pc(2), m, 8))
                },
                0x21 => Some((c.sp_ld16_imm(Registers::HL, n16), m, 12)),
                0x22 => Some(
                    (
                        c.spec_set16(Registers::HL, add16(c.hl_v(), 1)).spec_adv_pc(1),
                        m.write(c.hl_v(), c.a()),
                        8,
                    ),
                ),
                0x23 => Some((c.sp_inc16(Registers::HL), m, 8)),
                0x24 => Some((c.sp_inc8(Registers::H), m, 4)),
                0x25 => Some((c.sp_dec8(Registers::H), m, 4)),
                0x28 => if flag_z(c.f()) {
                    Some((c.spec_set16(Registers::PC, jr_target(c.pc_v(), n8)), m, 12))
                } else {
                    Some((c.spec_adv_pc(2), m, 8))
                },
                0x2A => Some((c.spec_set8(Registers::A, m.read(c.hl_v())).spec_set16(Registers::HL, add16(c.hl_v(), 1)).spec_adv_pc(1), m, 8)),
                0x2B => Some((c.sp_dec16(Registers::HL), m, 8)),
                0x2C => Some((c.sp_inc8(Registers::L), m, 4)),
                0x2E => Some((c.sp_ld8_imm(Registers::L, n8), m, 8)),
                0x30 => if !flag_c(c.f()) {
                    Some((c.spec_set16(Registers::PC, jr_target(c.pc_v(), n8)), m, 12))
                } else {
                    Some((c.spec_adv_pc(2), m, 8))
                },
                0x31 => Some((c.sp_ld16_imm(Registers::SP, n16), m, 12)),
                0x32 => Some(
                    (
                        c.spec_set16(Registers::HL, sub16(c.hl_v(), 1)).spec_adv_pc(1),
                        m.write(c.hl_v(), c.a()),
                        8,
                    ),
                ),
                0x33 => Some((c.sp_inc16(Registers::SP), m, 8)),
                0x36 => Some((c.spec_adv_pc(2), m.write(c.hl_v(), n8), 12)),
                0x38 => if flag_c(c.f()) {
                    Some((c.spec_set16(Registers::PC, jr_target(c.pc_v(), n8)), m, 12))
                } else {
                    Some((c.spec_adv_pc(2), m, 8))
                },
                0x3A => Some((c.spec_set8(Registers::A, m.read(c.hl_v())).spec_set16(Registers::HL, sub16(c.hl_v(), 1)).spec_adv_pc(1), m, 8)),
                0x3C => Some((c.sp_inc8(Registers::A), m, 4)),
                0x3D => Some((c.sp_dec8(Registers::A), m, 4)),
                0x3E => Some((c.sp_ld8_imm(Registers::A, n8), m, 8)),
                0xC1 => Some((c.sp_pop(Registers::BC, m), m, 12)),
                0xC3 => Some((c.spec_set16(Registers::PC, n16), m, 16)),
                0xC5 => Some((c.sp_push_cpu(), c.sp_push_mem(m, c.bc.value()), 16)),
                0xC6 => Some((c.sp_add_v(n8).spec_adv_pc(2), m, 8)),
                0xC9 => Some(
                    (
                        c.spec_set16(
                            Registers::PC,
                            word(m.read(add16(c.sp_v(), 1)), m.read(c.sp_v())),
                        ).spec_set16(Registers::SP, add16(c.sp_v(), 2)),
                        m,
                        16,
                    ),
                ),
                0xCB => match n8 {
                    0x11 => Some((c.sp_rl(Registers::C).spec_adv_pc(2), m, 8)),
                    0x17 => Some((c.sp_rl(Registers::A).spec_adv_pc(2), m, 8)),
                    0x7C => Some((c.sp_bit7h(), m, 8)),
                    _ => None,
                },
                0xCD => Some(
                    (
                        c.spec_set16(Registers::SP, sub16(c.sp_v(), 2)).spec_set16(Registers::PC, n16),
                        c.sp_push_mem(m, add16(c.pc_v(), 3)),
                        24,
                    ),
                ),
                0xCE => Some((c.sp_adc_v(n8).spec_adv_pc(2), m, 8)),
                0xD1 => Some((c.sp_pop(Registers::DE, m), m, 12)),
                0xD5 => Some((c.sp_push_cpu(), c.sp_push_mem(m, c.de.value()), 16)),
                0xD6 => Some((c.sp_sub_v(n8).spec_adv_pc(2), m, 8)),
                0xDE => Some((c.sp_sbc_v(n8).spec_adv_pc(2), m, 8)),
                0xE0 => Some((c.spec_adv_pc(2), m.write((0xFF00 + n8) as u16, c.a()), 12)),
                0xE1 => Some((c.sp_pop(Registers::HL, m), m, 12)),
                0xE2 => Some((c.spec_adv_pc(1), m.write((0xFF00 + c.c()) as u16, c.a()), 8)),
                0xE5 => Some((c.sp_push_cpu(), c.sp_push_mem(m, c.hl.value()), 16)),
                0xE6 => Some((c.sp_and_v(n8).spec_adv_pc(2), m, 8)),
                0xEA => Some((c.spec_adv_pc(3), m.write(n16, c.a()), 16)),
                0xEE => Some((c.sp_xor_v(n8).spec_adv_pc(2), m, 8)),
                0xF0 => Some(
                    (c.spec_set8(Registers::A, m.read((0xFF00 + n8) as u16)).spec_adv_pc(2), m, 12),
                ),
                0xF1 => Some((c.sp_pop(Registers::AF, m), m, 12)),
                0xF3 => Some(((CPU { ime: false, ..c }).spec_adv_pc(1), m, 4)),
                0xF5 => Some((c.sp_push_cpu(), c.sp_push_mem(m, c.af.value()), 16)),
                0xF6 => Some((c.sp_or_v(n8).spec_adv_pc(2), m, 8)),
                0xFE => Some((c.sp_cp_flags(c.a(), n8).spec_adv_pc(2), m, 8)),
                _ => None,
            }
        }
    }
}

impl CPU {
    /// The processor after a push: only the stack pointer moves down two.
    pub open spec fn sp_push_cpu(self) -> CPU {
        self.spec_set16(Registers::SP, sub16(self.sp_v(), 2)).spec_adv_pc(1)
    }

    /// The bus after pushing a 16-bit value: high byte at SP-1, low byte
    /// at SP-2.
    pub open spec fn sp_push_mem(self, m: MemSnap, value: u16) -> MemSnap {
        m.write(sub16(self.sp_v(), 1), high_of(value)).write(sub16(self.sp_v(), 2), low_of(value))
    }

    /// The processor after `POP rr`: the pair takes the word at the stack
    /// pointer, the stack pointer moves up two, the program counter one.
    pub open spec fn sp_pop(self, r: Registers, m: MemSnap) -> CPU {
        self.spec_set16(r, word(m.read(add16(self.sp_v(), 1)), m.read(self.sp_v()))).spec_set16(
            Registers::SP,
            add16(self.sp_v(), 2),
        ).spec_adv_pc(1)
    }
}

/// What `execute` reports, in terms of `step_spec`: a defined instruction
/// yields exactly the stepped state and its cycle count; an undefined one
/// leaves the bus alone and names the program counter and the byte fetched.
pub open spec fn execute_post(
    pre: CPU,
    mpre: MemSnap,
    r: Result<(CPU, u8), ExecError>,
    mpost: MemSnap,
) -> bool {
    match step_spec(pre, mpre) {
        Some((c2, m2, t)) => r == Ok::<(CPU, u8), ExecError>((c2, t)) && mpost == m2,
        None => {
            let op = mpre.read(pre.pc_v());
            mpost == mpre && r == Err::<(CPU, u8), ExecError>(
                ExecError {
                    pc: pre.pc_v(),
                    opcode: if op == 0xCB {
                        mpre.read(add16(pre.pc_v(), 1))
                    } else {
                        op
                    },
                    prefixed: op == 0xCB,
                },
            )
        },
    }
}

impl CPU {
    /// Executes the instruction at the program counter (or services a
    /// pending enabled interrupt) and reports the T-cycles consumed; an
    /// opcode outside the implemented set is fatal and is reported with
    /// its address.
    #[verifier::rlimit(100)]
    pub fn execute(&self, mem: &mut Mem) -> (r: Result<(CPU, u8), ExecError>)
        requires
            old(mem)@.wf(),
        ensures
            final(mem)@.wf(),
            execute_post(*self, old(mem)@, r, final(mem)@),
    {
        let pending = mem.read(0xFF0F) & mem.read(0xFFFF) & 0x1F;
        if self.ime && pending != 0 {
            let i: u8 = if pending & 1 != 0 {
                0
            } else if pending & 2 != 0 {
                1
            } else if pending & 4 != 0 {
                2
            } else if pending & 8 != 0 {
                3
            } else {
                4
            };
            let iflags = mem.read(0xFF0F);
            mem.write(0xFF0F, iflags & !(1u8 << i));
            let new_cpu = self.push(mem, self.pc.get_16bit_value());
            let new_cpu = CPU { ime: false, ..new_cpu };
            return Ok((
                new_cpu.set_16bit_register(&Registers::PC, 0x40 + 8 * (i as u16)),
                20,
            ));
        }
        let opcode = mem.read(self.pc.get_16bit_value());
        match opcode {
            0x00 => Ok((self.increment_pc(1), 4)),
            0x01 => Ok(self.load_16bit_immediate(mem, &Registers::BC)),
            0x02 => {
                mem.write(self.get_16bit_register(&Registers::BC), self.get_8bit_register(&Registers::A));
                Ok((self.increment_pc(1), 8))
            },
            0x03 => Ok(self.inc_16bit_register(&Registers::BC)),
            0x04 => Ok(self.inc_8bit_register(&Registers::B)),
            0x05 => Ok(self.dec_8bit_register(&Registers::B)),
            0x06 => Ok(self.ld_8bit_immediate(mem, &Registers::B)),
            0x0A => Ok((
                self.set_8bit_register(&Registers::A, mem.read(self.get_16bit_register(&Registers::BC))).increment_pc(1),
                8,
            )),
            0x0B => Ok((self.dec_16bit_register(&Registers::BC), 8)),
            0x0C => Ok(self.inc_8bit_register(&Registers::C)),
            0x0D => Ok(self.dec_8bit_register(&Registers::C)),
            0x0E => Ok(self.ld_8bit_immediate(mem, &Registers::C)),
            0x11 => Ok(self.load_16bit_immediate(mem, &Registers::DE)),
            0x12 => {
                mem.write(self.get_16bit_register(&Registers::DE), self.get_8bit_register(&Registers::A));
                Ok((self.increment_pc(1), 8))
            },
            0x13 => Ok(self.inc_16bit_register(&Registers::DE)),
            0x14 => Ok(self.inc_8bit_register(&Registers::D)),
            0x15 => Ok(self.dec_8bit_register(&Registers::D)),
            0x16 => Ok(self.ld_8bit_immediate(mem, &Registers::D)),
            0x17 => Ok(self.rla()),
            0x18 => Ok(self.jr(mem)),
            0x1A => Ok((
                self.set_8bit_register(
                    &Registers::A,
                    mem.read(self.get_16bit_register(&Registers::DE)),
                ).increment_pc(1),
                8,
            )),
            0x1B => Ok((self.dec_16bit_register(&Registers::DE), 8)),
            0x1C => Ok(self.inc_8bit_register(&Registers::E)),
            0x1D => Ok(self.dec_8bit_register(&Registers::E)),
            0x1E => Ok(self.ld_8bit_immediate(mem, &Registers::E)),
            0x1F => {
                let old_a = self.get_8bit_register(&Registers::A);
                let carry_in: u8 = if self.get_carry() {
                    128
                } else {
                    0
                };
                let new_a = old_a / 2 + carry_in;
                Ok((
                    self.set_8bit_register(&Registers::A, new_a).set_flags(
                        new_a == 0,
                        false,
                        false,
                        old_a % 2 == 1,
                    ).increment_pc(1),
                    4,
                ))
            },
            0x20 => Ok(self.jr_nonzero(mem)),
            0x21 => Ok(self.load_16bit_immediate(mem, &Registers::HL)),
            0x22 => Ok(self.load_increment_hl_a(mem)),
            0x23 => Ok(self.inc_16bit_register(&Registers::HL)),
            0x24 => Ok(self.inc_8bit_register(&Registers::H)),
            0x25 => Ok(self.dec_8bit_register(&Registers::H)),
            0x28 => Ok(self.jr_zero(mem)),
            0x2A => Ok((
                self.set_8bit_register(&Registers::A, mem.read(self.get_16bit_register(&Registers::HL)))
                    .set_16bit_register(&Registers::HL, self.get_16bit_register(&Registers::HL).wrapping_add(1))
                    .increment_pc(1),
                8,
            )),
            0x2B => Ok((self.dec_16bit_register(&Registers::HL), 8)),
            0x2C => Ok(self.inc_8bit_register(&Registers::L)),
            0x2E => Ok(self.ld_8bit_immediate(mem, &Registers::L)),
            0x30 => if !self.get_carry() {
                Ok((self.reljump(mem), 12))
            } else {
                Ok((self.increment_pc(2), 8))
            },
            0x31 => Ok(self.load_16bit_immediate(mem, &Registers::SP)),
            0x32 => {
                mem.write(
                    self.get_16bit_register(&Registers::HL),
                    self.get_8bit_register(&Registers::A),
                );
                Ok((
                    self.set_16bit_register(
                        &Registers::HL,
                        self.get_16bit_register(&Registers::HL).wrapping_sub(1),
                    ).increment_pc(1),
                    8,
                ))
            },
            0x33 => Ok(self.inc_16bit_register(&Registers::SP)),
            0x36 => {
                let data = self.get_8bit_arg(mem);
                mem.write(self.get_16bit_register(&Registers::HL), data);
                Ok((self.increment_pc(2), 12))
            },
            0x38 => if self.get_carry() {
                Ok((self.reljump(mem), 12))
            } else {
                Ok((self.increment_pc(2), 8))
            },
            0x3A => Ok((
                self.set_8bit_register(&Registers::A, mem.read(self.get_16bit_register(&Registers::HL)))
                    .set_16bit_register(&Registers::HL, self.get_16bit_register(&Registers::HL).wrapping_sub(1))
                    .increment_pc(1),
                8,
            )),
            0x3C => Ok(self.inc_8bit_register(&Registers::A)),
            0x3D => Ok(self.dec_8bit_register(&Registers::A)),
            0x3E => Ok(self.ld_8bit_immediate(mem, &Registers::A)),
            0x40..=0x7F => self.execute_load_block(mem, opcode),
            0x80..=0xBF => self.execute_alu_block(mem, opcode),
            0xC1 => Ok(self.pop(&Registers::BC, mem)),
            0xC3 => {
                let jp_dest = self.get_16bit_arg(mem);
                Ok((self.set_16bit_register(&Registers::PC, jp_dest), 16))
            },
            0xC5 => Ok((
                self.push(mem, self.get_16bit_register(&Registers::BC)).increment_pc(1),
                16,
            )),
            0xC6 => Ok((self.alu_add(self.get_8bit_arg(mem)).increment_pc(2), 8)),
            0xC9 => Ok(self.ret(mem)),
            0xCB => {
                let data = self.get_8bit_arg(mem);
                match data {
                    0x11 => Ok((self.prefixed_rotate_left(&Registers::C), 8)),
                    0x17 => Ok((self.prefixed_rotate_left(&Registers::A), 8)),
                    0x7C => {
                        let bit_is_zero = (self.get_8bit_register(&Registers::H) & 0x80) == 0;
                        Ok((
                            self.set_flags(bit_is_zero, false, true, self.get_carry())
                                .increment_pc(2),
                            8,
                        ))
                    },
                    _ => Err(ExecError {
                        pc: self.pc.get_16bit_value(),
                        opcode: data,
                        prefixed: true,
                    }),
                }
            },
            0xCD => {
                let data = self.get_16bit_arg(mem);
                Ok((
                    self.push(
                        mem,
                        self.get_16bit_register(&Registers::PC).wrapping_add(3),
                    ).set_16bit_register(&Registers::PC, data),
                    24,
                ))
            },
            0xCE => Ok((self.alu_adc(self.get_8bit_arg(mem)).increment_pc(2), 8)),
            0xD1 => Ok(self.pop(&Registers::DE, mem)),
            0xD5 => Ok((
                self.push(mem, self.get_16bit_register(&Registers::DE)).increment_pc(1),
                16,
            )),
            0xD6 => Ok((self.alu_sub(self.get_8bit_arg(mem)).increment_pc(2), 8)),
            0xDE => Ok((self.alu_sbc(self.get_8bit_arg(mem)).increment_pc(2), 8)),
            0xE0 => {
                let data = self.get_8bit_arg(mem);
                mem.write(0xFF00 + data as u16, self.get_8bit_register(&Registers::A));
                Ok((self.increment_pc(2), 12))
            },
            0xE1 => Ok(self.pop(&Registers::HL, mem)),
            0xE2 => {
                mem.write(
                    0xFF00 + self.get_8bit_register(&Registers::C) as u16,
                    self.get_8bit_register(&Registers::A),
                );
                Ok((self.increment_pc(1), 8))
            },
            0xE5 => Ok((
                self.push(mem, self.get_16bit_register(&Registers::HL)).increment_pc(1),
                16,
            )),
            0xE6 => Ok((self.alu_and(self.get_8bit_arg(mem)).increment_pc(2), 8)),
            0xEA => {
                let data = self.get_16bit_arg(mem);
                mem.write(data, self.get_8bit_register(&Registers::A));
                Ok((self.increment_pc(3), 16))
            },
            0xEE => Ok((self.alu_xor(self.get_8bit_arg(mem)).increment_pc(2), 8)),
            0xF0 => {
                let data = self.get_8bit_arg(mem);
                Ok((
                    self.set_8bit_register(&Registers::A, mem.read(0xFF00 + data as u16))
                        .increment_pc(2),
                    12,
                ))
            },
            0xF1 => Ok(self.pop(&Registers::AF, mem)),
            0xF3 => Ok(((CPU { ime: false, ..*self }).increment_pc(1), 4)),
            0xF5 => Ok((
                self.push(mem, self.get_16bit_register(&Registers::AF)).increment_pc(1),
                16,
            )),
            0xF6 => Ok((self.alu_or(self.get_8bit_arg(mem)).increment_pc(2), 8)),
            0xFE => Ok(self.cp_immediate(mem)),
            _ => Err(ExecError {
                pc: self.pc.get_16bit_value(),
                opcode,
                prefixed: false,
            }),
        }
    }

    /// The `LD r, r'` block at 0x40-0x7F.
    #[verifier::rlimit(100)]
    #[verifier::spinoff_prover]
    fn execute_load_block(&self, mem: &mut Mem, opcode: u8) -> (r: Result<(CPU, u8), ExecError>)
        requires
            old(mem)@.wf(),
            opcode == old(mem)@.read(self.pc_v()),
            0x40 <= opcode < 0x80,
            !(self.ime && pending_interrupts(old(mem)@) != 0),
        ensures
            final(mem)@.wf(),
            execute_post(*self, old(mem)@, r, final(mem)@),
    {
        match opcode {
            0x40 => Ok(self.load_register_from_register(&Registers::B, &Registers::B)),
            0x41 => Ok(self.load_register_from_register(&Registers::B, &Registers::C)),
            0x42 => Ok(self.load_register_from_register(&Registers::B, &Registers::D)),
            0x43 => Ok(self.load_register_from_register(&Registers::B, &Registers::E)),
            0x44 => Ok(self.load_register_from_register(&Registers::B, &Registers::H)),
            0x45 => Ok(self.load_register_from_register(&Registers::B, &Registers::L)),
            0x46 => Ok((
                self.set_8bit_register(&Registers::B, mem.read(self.get_16bit_register(&Registers::HL))).increment_pc(1),
                8,
            )),
            0x47 => Ok(self.load_register_from_register(&Registers::B, &Registers::A)),
            0x48 => Ok(self.load_register_from_register(&Registers::C, &Registers::B)),
            0x49 => Ok(self.load_register_from_register(&Registers::C, &Registers::C)),
            0x4A => Ok(self.load_register_from_register(&Registers::C, &Registers::D)),
            0x4B => Ok(self.load_register_from_register(&Registers::C, &Registers::E)),
            0x4C => Ok(self.load_register_from_register(&Registers::C, &Registers::H)),
            0x4D => Ok(self.load_register_from_register(&Registers::C, &Registers::L)),
            0x4E => Ok((
                self.set_8bit_register(&Registers::C, mem.read(self.get_16bit_register(&Registers::HL))).increment_pc(1),
                8,
            )),
            0x4F => Ok(self.load(&Registers::C, &Registers::A)),
            0x50 => Ok(self.load_register_from_register(&Registers::D, &Registers::B)),
            0x51 => Ok(self.load_register_from_register(&Registers::D, &Registers::C)),
            0x52 => Ok(self.load_register_from_register(&Registers::D, &Registers::D)),
            0x53 => Ok(self.load_register_from_register(&Registers::D, &Registers::E)),
            0x54 => Ok(self.load_register_from_register(&Registers::D, &Registers::H)),
            0x55 => Ok(self.load_register_from_register(&Registers::D, &Registers::L)),
            0x56 => Ok((
                self.set_8bit_register(&Registers::D, mem.read(self.get_16bit_register(&Registers::HL))).increment_pc(1),
                8,
            )),
            0x57 => Ok(self.load_register_from_register(&Registers::D, &Registers::A)),
            0x58 => Ok(self.load_register_from_register(&Registers::E, &Registers::B)),
            0x59 => Ok(self.load_register_from_register(&Registers::E, &Registers::C)),
            0x5A => Ok(self.load_register_from_register(&Registers::E, &Registers::D)),
            0x5B => Ok(self.load_register_from_register(&Registers::E, &Registers::E)),
            0x5C => Ok(self.load_register_from_register(&Registers::E, &Registers::H)),
            0x5D => Ok(self.load_register_from_register(&Registers::E, &Registers::L)),
            0x5E => Ok((
                self.set_8bit_register(&Registers::E, mem.read(self.get_16bit_register(&Registers::HL))).increment_pc(1),
                8,
            )),
            0x5F => Ok(self.load_register_from_register(&Registers::E, &Registers::A)),
            0x60 => Ok(self.load_register_from_register(&Registers::H, &Registers::B)),
            0x61 => Ok(self.load_register_from_register(&Registers::H, &Registers::C)),
            0x62 => Ok(self.load_register_from_register(&Registers::H, &Registers::D)),
            0x63 => Ok(self.load_register_from_register(&Registers::H, &Registers::E)),
            0x64 => Ok(self.load_register_from_register(&Registers::H, &Registers::H)),
            0x65 => Ok(self.load_register_from_register(&Registers::H, &Registers::L)),
            0x66 => Ok((
                self.set_8bit_register(&Registers::H, mem.read(self.get_16bit_register(&Registers::HL))).increment_pc(1),
                8,
            )),
            0x67 => Ok(self.load_register_from_register(&Registers::H, &Registers::A)),
            0x68 => Ok(self.load_register_from_register(&Registers::L, &Registers::B)),
            0x69 => Ok(self.load_register_from_register(&Registers::L, &Registers::C)),
            0x6A => Ok(self.load_register_from_register(&Registers::L, &Registers::D)),
            0x6B => Ok(self.load_register_from_register(&Registers::L, &Registers::E)),
            0x6C => Ok(self.load_register_from_register(&Registers::L, &Registers::H)),
            0x6D => Ok(self.load_register_from_register(&Registers::L, &Registers::L)),
            0x6E => Ok((
                self.set_8bit_register(&Registers::L, mem.read(self.get_16bit_register(&Registers::HL))).increment_pc(1),
                8,
            )),
            0x6F => Ok(self.load_register_from_register(&Registers::L, &Registers::A)),
            0x70 => {
                mem.write(self.get_16bit_register(&Registers::HL), self.get_8bit_register(&Registers::B));
                Ok((self.increment_pc(1), 8))
            },
            0x71 => {
                mem.write(self.get_16bit_register(&Registers::HL), self.get_8bit_register(&Registers::C));
                Ok((self.increment_pc(1), 8))
            },
            0x72 => {
                mem.write(self.get_16bit_register(&Registers::HL), self.get_8bit_register(&Registers::D));
                Ok((self.increment_pc(1), 8))
            },
            0x73 => {
                mem.write(self.get_16bit_register(&Registers::HL), self.get_8bit_register(&Registers::E));
                Ok((self.increment_pc(1), 8))
            },
            0x74 => {
                mem.write(self.get_16bit_register(&Registers::HL), self.get_8bit_register(&Registers::H));
                Ok((self.increment_pc(1), 8))
            },
            0x75 => {
                mem.write(self.get_16bit_register(&Registers::HL), self.get_8bit_register(&Registers::L));
                Ok((self.increment_pc(1), 8))
            },
            0x77 => {
                mem.write(
                    self.get_16bit_register(&Registers::HL),
                    self.get_8bit_register(&Registers::A),
                );
                Ok((self.increment_pc(1), 8))
            },
            0x78 => Ok(self.load_register_from_register(&Registers::A, &Registers::B)),
            0x79 => Ok(self.load_register_from_register(&Registers::A, &Registers::C)),
            0x7A => Ok(self.load_register_from_register(&Registers::A, &Registers::D)),
            0x7B => Ok(self.load(&Registers::A, &Registers::E)),
            0x7C => Ok(self.load_register_from_register(&Registers::A, &Registers::H)),
            0x7D => Ok(self.load_register_from_register(&Registers::A, &Registers::L)),
            0x7E => Ok((
                self.set_8bit_register(&Registers::A, mem.read(self.get_16bit_register(&Registers::HL))).increment_pc(1),
                8,
            )),
            0x7F => Ok(self.load_register_from_register(&Registers::A, &Registers::A)),
            _ => Err(ExecError {
                pc: self.pc.get_16bit_value(),
                opcode,
                prefixed: false,
            }),
        }
    }

    /// The 8-bit arithmetic block at 0x80-0xBF.
    #[verifier::rlimit(100)]
    #[verifier::spinoff_prover]
    fn execute_alu_block(&self, mem: &mut Mem, opcode: u8) -> (r: Result<(CPU, u8), ExecError>)
        requires
            old(mem)@.wf(),
            opcode == old(mem)@.read(self.pc_v()),
            0x80 <= opcode < 0xC0,
            !(self.ime && pending_interrupts(old(mem)@) != 0),
        ensures
            final(mem)@.wf(),
            execute_post(*self, old(mem)@, r, final(mem)@),
    {
        match opcode {
            0x80 => Ok((self.alu_add(self.get_8bit_register(&Registers::B)).increment_pc(1), 4)),
            0x81 => Ok((self.alu_add(self.get_8bit_register(&Registers::C)).increment_pc(1), 4)),
            0x82 => Ok((self.alu_add(self.get_8bit_register(&Registers::D)).increment_pc(1), 4)),
            0x83 => Ok((self.alu_add(self.get_8bit_register(&Registers::E)).increment_pc(1), 4)),
            0x84 => Ok((self.alu_add(self.get_8bit_register(&Registers::H)).increment_pc(1), 4)),
            0x85 => Ok((self.alu_add(self.get_8bit_register(&Registers::L)).increment_pc(1), 4)),
            0x86 => {
                let value = mem.read(self.get_16bit_register(&Registers::HL));
                Ok(self.add(&Registers::A, value))
            },
            0x87 => Ok((self.alu_add(self.get_8bit_register(&Registers::A)).increment_pc(1), 4)),
            0x88 => Ok((self.alu_adc(self.get_8bit_register(&Registers::B)).increment_pc(1), 4)),
            0x89 => Ok((self.alu_adc(self.get_8bit_register(&Registers::C)).increment_pc(1), 4)),
            0x8A => Ok((self.alu_adc(self.get_8bit_register(&Registers::D)).increment_pc(1), 4)),
            0x8B => Ok((self.alu_adc(self.get_8bit_register(&Registers::E)).increment_pc(1), 4)),
            0x8C => Ok((self.alu_adc(self.get_8bit_register(&Registers::H)).increment_pc(1), 4)),
            0x8D => Ok((self.alu_adc(self.get_8bit_register(&Registers::L)).increment_pc(1), 4)),
            0x8E => Ok((self.alu_adc(mem.read(self.get_16bit_register(&Registers::HL))).increment_pc(1), 8)),
            0x8F => Ok((self.alu_adc(self.get_8bit_register(&Registers::A)).increment_pc(1), 4)),
            0x90 => Ok(self.sub(&Registers::B)),
            0x91 => Ok((self.alu_sub(self.get_8bit_register(&Registers::C)).increment_pc(1), 4)),
            0x92 => Ok((self.alu_sub(self.get_8bit_register(&Registers::D)).increment_pc(1), 4)),
            0x93 => Ok((self.alu_sub(self.get_8bit_register(&Registers::E)).increment_pc(1), 4)),
            0x94 => Ok((self.alu_sub(self.get_8bit_register(&Registers::H)).increment_pc(1), 4)),
            0x95 => Ok((self.alu_sub(self.get_8bit_register(&Registers::L)).increment_pc(1), 4)),
            0x96 => Ok((self.alu_sub(mem.read(self.get_16bit_register(&Registers::HL))).increment_pc(1), 8)),
            0x97 => Ok((self.alu_sub(self.get_8bit_register(&Registers::A)).increment_pc(1), 4)),
            0x98 => Ok((self.alu_sbc(self.get_8bit_register(&Registers::B)).increment_pc(1), 4)),
            0x99 => Ok((self.alu_sbc(self.get_8bit_register(&Registers::C)).increment_pc(1), 4)),
            0x9A => Ok((self.alu_sbc(self.get_8bit_register(&Registers::D)).increment_pc(1), 4)),
            0x9B => Ok((self.alu_sbc(self.get_8bit_register(&Registers::E)).increment_pc(1), 4)),
            0x9C => Ok((self.alu_sbc(self.get_8bit_register(&Registers::H)).increment_pc(1), 4)),
            0x9D => Ok((self.alu_sbc(self.get_8bit_register(&Registers::L)).increment_pc(1), 4)),
            0x9E => Ok((self.alu_sbc(mem.read(self.get_16bit_register(&Registers::HL))).increment_pc(1), 8)),
            0x9F => Ok((self.alu_sbc(self.get_8bit_register(&Registers::A)).increment_pc(1), 4)),
            0xA0 => Ok((self.alu_and(self.get_8bit_register(&Registers::B)).increment_pc(1), 4)),
            0xA1 => Ok((self.alu_and(self.get_8bit_register(&Registers::C)).increment_pc(1), 4)),
            0xA2 => Ok((self.alu_and(self.get_8bit_register(&Registers::D)).increment_pc(1), 4)),
            0xA3 => Ok((self.alu_and(self.get_8bit_register(&Registers::E)).increment_pc(1), 4)),
            0xA4 => Ok((self.alu_and(self.get_8bit_register(&Registers::H)).increment_pc(1), 4)),
            0xA5 => Ok((self.alu_and(self.get_8bit_register(&Registers::L)).increment_pc(1), 4)),
            0xA6 => Ok((self.alu_and(mem.read(self.get_16bit_register(&Registers::HL))).increment_pc(1), 8)),
            0xA7 => Ok((self.alu_and(self.get_8bit_register(&Registers::A)).increment_pc(1), 4)),
            0xA8 => Ok((self.alu_xor(self.get_8bit_register(&Registers::B)).increment_pc(1), 4)),
            0xA9 => Ok((self.alu_xor(self.get_8bit_register(&Registers::C)).increment_pc(1), 4)),
            0xAA => Ok((self.alu_xor(self.get_8bit_register(&Registers::D)).increment_pc(1), 4)),
            0xAB => Ok((self.alu_xor(self.get_8bit_register(&Registers::E)).increment_pc(1), 4)),
            0xAC => Ok((self.alu_xor(self.get_8bit_register(&Registers::H)).increment_pc(1), 4)),
            0xAD => Ok((self.alu_xor(self.get_8bit_register(&Registers::L)).increment_pc(1), 4)),
            0xAE => Ok((self.alu_xor(mem.read(self.get_16bit_register(&Registers::HL))).increment_pc(1), 8)),
            0xAF => {
                let current_a = self.get_8bit_register(&Registers::A);
                proof {
                    assert(current_a ^ current_a == 0) by (bit_vector);
                }
                Ok((
                    self.set_8bit_register(&Registers::A, current_a ^ current_a).set_flags(
                        true,
                        false,
                        false,
                        false,
                    ).increment_pc(1),
                    4,
                ))
            },
            0xB0 => Ok((self.alu_or(self.get_8bit_register(&Registers::B)).increment_pc(1), 4)),
            0xB1 => Ok((self.alu_or(self.get_8bit_register(&Registers::C)).increment_pc(1), 4)),
            0xB2 => Ok((self.alu_or(self.get_8bit_register(&Registers::D)).increment_pc(1), 4)),
            0xB3 => Ok((self.alu_or(self.get_8bit_register(&Registers::E)).increment_pc(1), 4)),
            0xB4 => Ok((self.alu_or(self.get_8bit_register(&Registers::H)).increment_pc(1), 4)),
            0xB5 => Ok((self.alu_or(self.get_8bit_register(&Registers::L)).increment_pc(1), 4)),
            0xB6 => Ok((self.alu_or(mem.read(self.get_16bit_register(&Registers::HL))).increment_pc(1), 8)),
            0xB7 => Ok((self.alu_or(self.get_8bit_register(&Registers::A)).increment_pc(1), 4)),
            0xB8 => Ok((
                self.compare(self.get_8bit_register(&Registers::A), self.get_8bit_register(&Registers::B)).increment_pc(1),
                4,
            )),
            0xB9 => Ok((
                self.compare(self.get_8bit_register(&Registers::A), self.get_8bit_register(&Registers::C)).increment_pc(1),
                4,
            )),
            0xBA => Ok((
                self.compare(self.get_8bit_register(&Registers::A), self.get_8bit_register(&Registers::D)).increment_pc(1),
                4,
            )),
            0xBB => Ok((
                self.compare(self.get_8bit_register(&Registers::A), self.get_8bit_register(&Registers::E)).increment_pc(1),
                4,
            )),
            0xBC => Ok((
                self.compare(self.get_8bit_register(&Registers::A), self.get_8bit_register(&Registers::H)).increment_pc(1),
                4,
            )),
            0xBD => Ok((
                self.compare(self.get_8bit_register(&Registers::A), self.get_8bit_register(&Registers::L)).increment_pc(1),
                4,
            )),
            0xBE => {
                let value = mem.read(self.get_16bit_register(&Registers::HL));
                Ok((
                    self.compare(self.get_8bit_register(&Registers::A), value).increment_pc(1),
                    8,
                ))
            },
            0xBF => Ok((
                self.compare(self.get_8bit_register(&Registers::A), self.get_8bit_register(&Registers::A)).increment_pc(1),
                4,
            )),
            _ => Err(ExecError {
                pc: self.pc.get_16bit_value(),
                opcode,
                prefixed: false,
            }),
        }
    }
}

/// Splitting a 16-bit value into its bytes and joining them again yields
/// the value.
pub broadcast proof fn lemma_word_join(v: u16)
    ensures
        #[trigger] word(high_of(v), low_of(v)) == v,
{
    vstd::arithmetic::div_mod::lemma_fundamental_div_mod(v as int, 256);
}

/// The length in bytes of each implemented instruction, counting the
/// prefix byte for the prefixed ones.
pub open spec fn instr_len(op: u8) -> u16 {
    match op {
        0x01 | 0x11 | 0x21 | 0x31 | 0xC3 | 0xCD | 0xEA => 3,
        0x06 | 0x0E | 0x16 | 0x18 | 0x1E | 0x20 | 0x28 | 0x2E | 0x30 | 0x36 | 0x38 | 0x3E | 0xC6
            | 0xCB | 0xCE | 0xD6 | 0xDE | 0xE0 | 0xE6 | 0xEE | 0xF0 | 0xF6 | 0xFE => 2,
        _ => 1,
    }
}

/// Whether the instruction at the program counter sets the program counter
/// itself: an absolute or taken relative jump, a call, or a return.
pub open spec fn sets_pc_explicitly(c: CPU, m: MemSnap) -> bool {
    let op = m.read(c.pc_v());
    ||| op == 0x18
    ||| op == 0xC3
    ||| op == 0xC9
    ||| op == 0xCD
    ||| (op == 0x20 && !flag_z(c.f()))
    ||| (op == 0x28 && flag_z(c.f()))
    ||| (op == 0x30 && !flag_c(c.f()))
    ||| (op == 0x38 && flag_c(c.f()))
}

/// In the load block the program counter always moves forward one byte.
#[verifier::rlimit(100)]
#[verifier::spinoff_prover]
proof fn lemma_pc_advance_load(c: CPU, m: MemSnap, c2: CPU, m2: MemSnap, t: u8, op: u8)
    requires
        0x40 <= op < 0x80,
        step_load_spec(c, m, op) == Some((c2, m2, t)),
    ensures
        c2.pc_v() == add16(c.pc_v(), 1),
{
    broadcast use lemma_word_join;

}

/// In the arithmetic block the program counter always moves forward one
/// byte.
#[verifier::rlimit(100)]
#[verifier::spinoff_prover]
proof fn lemma_pc_advance_alu(c: CPU, m: MemSnap, c2: CPU, m2: MemSnap, t: u8, op: u8)
    requires
        0x80 <= op < 0xC0,
        step_alu_spec(c, m, op) == Some((c2, m2, t)),
    ensures
        c2.pc_v() == add16(c.pc_v(), 1),
{
    broadcast use lemma_word_join;

}

/// Every instruction either moves the program counter forward by its own
/// length — one, two or three bytes — or is a jump, call or return that
/// sets it outright.
#[verifier::rlimit(100)]
#[verifier::spinoff_prover]
pub proof fn lemma_pc_advance(c: CPU, m: MemSnap, c2: CPU, m2: MemSnap, t: u8)
    requires
        step_spec(c, m) == Some((c2, m2, t)),
        !(c.ime && pending_interrupts(m) != 0),
    ensures
        sets_pc_explicitly(c, m) || {
            &&& 1 <= instr_len(m.read(c.pc_v())) <= 3
            &&& c2.pc_v() == add16(c.pc_v(), instr_len(m.read(c.pc_v())))
        },
{
    broadcast use lemma_word_join;

    let op = m.read(c.pc_v());
    if 0x40 <= op && op < 0x80 {
        lemma_pc_advance_load(c, m, c2, m2, t, op);
    } else if 0x80 <= op && op < 0xC0 {
        lemma_pc_advance_alu(c, m, c2, m2, t, op);
    }
}

/// In the load block every instruction costs four or eight T-cycles.
#[verifier::rlimit(100)]
#[verifier::spinoff_prover]
proof fn lemma_cycle_count_load(c: CPU, m: MemSnap, c2: CPU, m2: MemSnap, t: u8, op: u8)
    requires
        0x40 <= op < 0x80,
        step_load_spec(c, m, op) == Some((c2, m2, t)),
    ensures
        t == 4 || t == 8,
{
}

/// In the arithmetic block every instruction costs four or eight T-cycles.
#[verifier::rlimit(100)]
#[verifier::spinoff_prover]
proof fn lemma_cycle_count_alu(c: CPU, m: MemSnap, c2: CPU, m2: MemSnap, t: u8, op: u8)
    requires
        0x80 <= op < 0xC0,
        step_alu_spec(c, m, op) == Some((c2, m2, t)),
    ensures
        t == 4 || t == 8,
{
}

/// Every implemented instruction costs a multiple of four T-cycles,
/// between 4 and 24, as the published timing table has it.
#[verifier::rlimit(100)]
#[verifier::spinoff_prover]
pub proof fn lemma_cycle_count(c: CPU, m: MemSnap, c2: CPU, m2: MemSnap, t: u8)
    requires
        step_spec(c, m) == Some((c2, m2, t)),
    ensures
        t % 4 == 0,
        4 <= t <= 24,
{
    if !(c.ime && pending_interrupts(m) != 0) {
        let op = m.read(c.pc_v());
        if 0x40 <= op && op < 0x80 {
            lemma_cycle_count_load(c, m, c2, m2, t, op);
        } else if 0x80 <= op && op < 0xC0 {
            lemma_cycle_count_alu(c, m, c2, m2, t, op);
        }
    }
}

/// The load block never touches F at all.
#[verifier::rlimit(100)]
#[verifier::spinoff_prover]
proof fn lemma_flag_nibble_load(c: CPU, m: MemSnap, c2: CPU, m2: MemSnap, t: u8, op: u8)
    requires
        0x40 <= op < 0x80,
        step_load_spec(c, m, op) == Some((c2, m2, t)),
    ensures
        c2.f() == c.f(),
{
}

/// The additive half of the arithmetic block stores F only through the
/// masking store.
#[verifier::rlimit(100)]
#[verifier::spinoff_prover]
proof fn lemma_flag_nibble_alu_add(c: CPU, m: MemSnap, c2: CPU, m2: MemSnap, t: u8, op: u8)
    requires
        0x80 <= op < 0xA0,
        step_alu_spec(c, m, op) == Some((c2, m2, t)),
    ensures
        c2.f() & 0x0F == 0,
{
    broadcast use lemma_high_nibble_clear;

}

/// The logical half of the arithmetic block stores F only through the
/// masking store.
#[verifier::rlimit(100)]
#[verifier::spinoff_prover]
proof fn lemma_flag_nibble_alu_logic(c: CPU, m: MemSnap, c2: CPU, m2: MemSnap, t: u8, op: u8)
    requires
        0xA0 <= op < 0xC0,
        step_alu_spec(c, m, op) == Some((c2, m2, t)),
    ensures
        c2.f() & 0x0F == 0,
{
    broadcast use lemma_high_nibble_clear;

}

/// Outside the two big blocks and below them, a step keeps the nibble
/// clear.
#[verifier::rlimit(100)]
#[verifier::spinoff_prover]
proof fn lemma_flag_nibble_misc_low(c: CPU, m: MemSnap, c2: CPU, m2: MemSnap, t: u8)
    requires
        c.wf(),
        step_spec(c, m) == Some((c2, m2, t)),
        !(c.ime && pending_interrupts(m) != 0),
        m.read(c.pc_v()) < 0x40,
    ensures
        c2.f() & 0x0F == 0,
{
    broadcast use lemma_high_nibble_clear;

}

/// Outside the two big blocks and above them, a step keeps the nibble
/// clear.
#[verifier::rlimit(100)]
#[verifier::spinoff_prover]
proof fn lemma_flag_nibble_misc_high(c: CPU, m: MemSnap, c2: CPU, m2: MemSnap, t: u8)
    requires
        c.wf(),
        step_spec(c, m) == Some((c2, m2, t)),
        !(c.ime && pending_interrupts(m) != 0),
        m.read(c.pc_v()) >= 0xC0,
    ensures
        c2.f() & 0x0F == 0,
{
    broadcast use lemma_high_nibble_clear;

}

/// A step never leaves a one in the low nibble of F: every store to the
/// flag byte masks it off.
#[verifier::rlimit(100)]
#[verifier::spinoff_prover]
pub proof fn lemma_step_keeps_flag_nibble_zero(c: CPU, m: MemSnap, c2: CPU, m2: MemSnap, t: u8)
    requires
        c.wf(),
        step_spec(c, m) == Some((c2, m2, t)),
    ensures
        c2.wf(),
        c2.f() & 0x0F == 0,
{
    broadcast use lemma_high_nibble_clear;

    if !(c.ime && pending_interrupts(m) != 0) {
        let op = m.read(c.pc_v());
        if op < 0x40 {
            lemma_flag_nibble_misc_low(c, m, c2, m2, t);
        } else if op < 0x80 {
            lemma_flag_nibble_load(c, m, c2, m2, t, op);
        } else if op < 0xA0 {
            lemma_flag_nibble_alu_add(c, m, c2, m2, t, op);
        } else if op < 0xC0 {
            lemma_flag_nibble_alu_logic(c, m, c2, m2, t, op);
        } else {
            lemma_flag_nibble_misc_high(c, m, c2, m2, t);
        }
    }
}

/// The flags an addition leaves, read back bit by bit: C is set exactly
/// when the sum carries out of bit 7, H when the low nibbles carry out of
/// bit 3, Z when the wrapped sum is zero, and N clears.
pub proof fn lemma_add_flags(c: CPU, r: Registers, v: u8)
    requires
        is_gp_byte_reg(r),
    ensures
        flag_c(c.sp_add(r, v).f()) == (c.spec_get8(r) + v > 255),
        flag_h(c.sp_add(r, v).f()) == (c.spec_get8(r) % 16 + v % 16 > 15),
        flag_z(c.sp_add(r, v).f()) == (add8(c.spec_get8(r), v) == 0),
        !flag_n(c.sp_add(r, v).f()),
{
    let cur = c.spec_get8(r);
    lemma_flags_byte(add8(cur, v) == 0, false, cur % 16 + v % 16 > 15, cur + v > 255);
}

/// The flags of `INC r` and `DEC r`, read back bit by bit: Z tracks the
/// wrapped result, H the nibble carry or borrow, N tells the two apart,
/// and C keeps its old value through both.
pub proof fn lemma_inc_dec_flags(c: CPU, r: Registers)
    requires
        is_gp_byte_reg(r),
    ensures
        flag_z(c.sp_inc8(r).f()) == (add8(c.spec_get8(r), 1) == 0),
        flag_h(c.sp_inc8(r).f()) == (c.spec_get8(r) % 16 == 15),
        !flag_n(c.sp_inc8(r).f()),
        flag_c(c.sp_inc8(r).f()) == flag_c(c.f()),
        flag_z(c.sp_dec8(r).f()) == (sub8(c.spec_get8(r), 1) == 0),
        flag_h(c.sp_dec8(r).f()) == (c.spec_get8(r) % 16 == 0),
        flag_n(c.sp_dec8(r).f()),
        flag_c(c.sp_dec8(r).f()) == flag_c(c.f()),
{
    let v = c.spec_get8(r);
    lemma_flags_byte(add8(v, 1) == 0, false, v % 16 == 15, flag_c(c.f()));
    lemma_flags_byte(sub8(v, 1) == 0, true, v % 16 == 0, flag_c(c.f()));
}

/// `XOR A` clears the accumulator and sets exactly the zero flag; a second
/// `XOR A` changes nothing but the program counter.
pub proof fn lemma_xor_a_twice(c: CPU)
    ensures
        c.sp_xor_a().a() == 0,
        flag_z(c.sp_xor_a().f()),
        c.sp_xor_a().f() == flags_byte(true, false, false, false),
        ({
            let once = c.sp_xor_a();
            let twice = once.sp_xor_a();
            &&& twice.af == once.af
            &&& twice.bc == once.bc
            &&& twice.de == once.de
            &&& twice.hl == once.hl
            &&& twice.sp == once.sp
            &&& twice.ime == once.ime
        }),
{
    lemma_flags_byte(true, false, false, false);
}

/// `CP` is `SUB` with the accumulator restored: the comparison leaves the
/// very flag byte the subtraction leaves, and does not touch A.
pub proof fn lemma_cp_is_sub(c: CPU, v: u8)
    ensures
        c.sp_cp_flags(c.a(), v).f() == c.sp_sub(v).f(),
        c.sp_cp_flags(c.a(), v).a() == c.a(),
        c.sp_sub(v).a() == sub8(c.a(), v),
{
}

/// Pushing a 16-bit value and popping it straight back yields the value:
/// the bytes land at SP-1 and SP-2, and the pop reads them from the new
/// stack pointer.  The two stack cells must be plain storage.
pub proof fn lemma_push_pop_round_trip(m: MemSnap, sp: u16, value: u16)
    requires
        m.wf(),
        crate::mem::plain_cell(sub16(sp, 1)),
        crate::mem::plain_cell(sub16(sp, 2)),
    ensures
        ({
            let m2 = m.write(sub16(sp, 1), high_of(value)).write(sub16(sp, 2), low_of(value));
            let new_sp = sub16(sp, 2);
            word(m2.read(add16(new_sp, 1)), m2.read(new_sp)) == value
        }),
{
    broadcast use lemma_word_join;

    let lo_addr = sub16(sp, 2);
    let hi_addr = sub16(sp, 1);
    let m1 = m.write(hi_addr, high_of(value));
    let m2 = m1.write(lo_addr, low_of(value));
    assert(add16(lo_addr, 1) == hi_addr);
    crate::mem::lemma_write_wf(m, hi_addr, high_of(value));
    crate::mem::lemma_read_after_write(m1, lo_addr, low_of(value));
    crate::mem::lemma_read_after_write(m, hi_addr, high_of(value));
    crate::mem::lemma_write_frame(m1, lo_addr, low_of(value), hi_addr);
}

} // verus!

