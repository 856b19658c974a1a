//! The register file: accumulator, flags, six general-purpose byte
//! registers forming three pairs, stack pointer, program counter and the
//! interrupt-master-enable flag.
use vstd::prelude::*;

use crate::utils::{bit_of, hi, lo, merge_u8s, set_bit, split_u16, with_bit, word};

verus! {

pub const FLAG_Z_INDEX: u8 = 0x07;

pub const FLAG_N_INDEX: u8 = 0x06;

pub const FLAG_H_INDEX: u8 = 0x05;

pub const FLAG_C_INDEX: u8 = 0x04;

pub const REGISTER_B_INDEX: u8 = 0;

pub const REGISTER_C_INDEX: u8 = 1;

pub const REGISTER_D_INDEX: u8 = 2;

pub const REGISTER_E_INDEX: u8 = 3;

pub const REGISTER_H_INDEX: u8 = 4;

pub const REGISTER_L_INDEX: u8 = 5;

pub const REGISTER_F_INDEX: u8 = 6;

pub const REGISTER_A_INDEX: u8 = 7;

/// Initial `PC` value.
pub const PC_INIT_VAL: u16 = 0x0100;

/// Initial `SP` value.
pub const SP_INIT_VAL: u16 = 0xFFFE;

/// The flag byte `f` with its four flag bits replaced; the low nibble of `f`
/// is kept.
pub open spec fn flags_byte(f: u8, z: bool, n: bool, h: bool, c: bool) -> u8 {
    (f & 0x0F) | (if z { 0x80u8 } else { 0u8 }) | (if n { 0x40u8 } else { 0u8 }) | (if h {
        0x20u8
    } else {
        0u8
    }) | (if c { 0x10u8 } else { 0u8 })
}

/// The register values the boot ROM hands over to the cartridge.
pub open spec fn power_on_registers() -> Registers {
    Registers {
        a: 0x01,
        f: 0xB0,
        b: 0x00,
        c: 0x13,
        d: 0x00,
        e: 0xD8,
        h: 0x01,
        l: 0x4D,
        sp: SP_INIT_VAL,
        pc: PC_INIT_VAL,
        ime: false,
    }
}

#[derive(Debug, Copy, Clone, PartialEq, Eq, Structural)]
pub struct Registers {
    /// Accumulator.
    pub a: u8,
    /// Flags: Zero (bit 7), Subtract (bit 6), Half-carry (bit 5), Carry (bit 4).
    pub f: u8,
    /// General purpose register.
    pub b: u8,
    /// General purpose register.
    pub c: u8,
    /// General purpose register.
    pub d: u8,
    /// General purpose register.
    pub e: u8,
    /// General purpose register.
    pub h: u8,
    /// General purpose register.
    pub l: u8,
    /// Stack pointer.
    pub sp: u16,
    /// Program counter.
    pub pc: u16,
    /// Interrupt master enable.
    pub ime: bool,
}

impl Registers {
    /// The flag register holds nothing in its low nibble.
    pub open spec fn wf(self) -> bool {
        self.f & 0x0F == 0
    }

    pub open spec fn flag_z(self) -> bool {
        bit_of(self.f, FLAG_Z_INDEX)
    }

    pub open spec fn flag_n(self) -> bool {
        bit_of(self.f, FLAG_N_INDEX)
    }

    pub open spec fn flag_h(self) -> bool {
        bit_of(self.f, FLAG_H_INDEX)
    }

    pub open spec fn flag_c(self) -> bool {
        bit_of(self.f, FLAG_C_INDEX)
    }

    /// These registers with the four flags replaced.
    pub open spec fn with_flags(self, z: bool, n: bool, h: bool, c: bool) -> Registers {
        Registers { f: flags_byte(self.f, z, n, h, c), ..self }
    }

    pub open spec fn af(self) -> u16 {
        word(self.a, self.f)
    }

    pub open spec fn bc(self) -> u16 {
        word(self.b, self.c)
    }

    pub open spec fn de(self) -> u16 {
        word(self.d, self.e)
    }

    pub open spec fn hl(self) -> u16 {
        word(self.h, self.l)
    }

    /// AF loaded from a word: the low nibble of F always reads as zero.
    pub open spec fn with_af(self, v: u16) -> Registers {
        Registers { a: hi(v), f: lo(v) & 0xF0, ..self }
    }

    pub open spec fn with_bc(self, v: u16) -> Registers {
        Registers { b: hi(v), c: lo(v), ..self }
    }

    pub open spec fn with_de(self, v: u16) -> Registers {
        Registers { d: hi(v), e: lo(v), ..self }
    }

    pub open spec fn with_hl(self, v: u16) -> Registers {
        Registers { h: hi(v), l: lo(v), ..self }
    }

    /// The 16-bit register selected by a 2-bit index in the load/arith
    /// group: 0 BC, 1 DE, 2 HL, 3 SP.
    pub open spec fn rr(self, index: u8) -> u16 {
        if index == 0 {
            self.bc()
        } else if index == 1 {
            self.de()
        } else if index == 2 {
            self.hl()
        } else {
            self.sp
        }
    }

    pub open spec fn with_rr(self, index: u8, v: u16) -> Registers {
        if index == 0 {
            self.with_bc(v)
        } else if index == 1 {
            self.with_de(v)
        } else if index == 2 {
            self.with_hl(v)
        } else {
            Registers { sp: v, ..self }
        }
    }

    /// The 16-bit register selected by a 2-bit index in the stack group:
    /// 0 BC, 1 DE, 2 HL, 3 AF.
    pub open spec fn stack_rr(self, index: u8) -> u16 {
        if index == 3 {
            self.af()
        } else {
            self.rr(index)
        }
    }

    pub open spec fn with_stack_rr(self, index: u8, v: u16) -> Registers {
        if index == 3 {
            self.with_af(v)
        } else {
            self.with_rr(index, v)
        }
    }

    /// The byte register selected by a 3-bit index:
    /// 0 B, 1 C, 2 D, 3 E, 4 H, 5 L, 6 F, 7 A.
    pub open spec fn reg(self, index: u8) -> u8 {
        if index == 0 {
            self.b
        } else if index == 1 {
            self.c
        } else if index == 2 {
            self.d
        } else if index == 3 {
            self.e
        } else if index == 4 {
            self.h
        } else if index == 5 {
            self.l
        } else if index == 6 {
            self.f
        } else {
            self.a
        }
    }

    /// These registers with the byte register at `index` replaced; a value
    /// written to F loses its low nibble.
    pub open spec fn with_reg(self, index: u8, v: u8) -> Registers {
        if index == 0 {
            Registers { b: v, ..self }
        } else if index == 1 {
            Registers { c: v, ..self }
        } else if index == 2 {
            Registers { d: v, ..self }
        } else if index == 3 {
            Registers { e: v, ..self }
        } else if index == 4 {
            Registers { h: v, ..self }
        } else if index == 5 {
            Registers { l: v, ..self }
        } else if index == 6 {
            Registers { f: v & 0xF0, ..self }
        } else {
            Registers { a: v, ..self }
        }
    }

    /// The power-on state handed over by the boot ROM.
    pub fn new() -> (r: Registers)
        ensures
            r == power_on_registers(),
            r.wf(),
    {
        let r = Registers {
            a: 0x01,
            f: 0xb0,
            b: 0x00,
            c: 0x13,
            d: 0x00,
            e: 0xd8,
            h: 0x01,
            l: 0x4d,
            sp: SP_INIT_VAL,
            pc: PC_INIT_VAL,
            ime: false,
        };
        assert(0xb0u8 & 0x0F == 0) by (bit_vector);
        r
    }

    /// Sets flag bit `index` of F to `val`.
    pub fn set_flag_at_index(&mut self, index: u8, val: bool)
        requires
            index < 8,
        ensures
            *final(self) == (Registers { f: with_bit(old(self).f, index, val), ..*old(self) }),
    {
        self.f = set_bit(self.f, index, val);
    }

    /// Reads flag bit `index` of F.
    pub fn get_flag_at_index(&self, index: u8) -> (r: bool)
        requires
            index < 8,
        ensures
            r == bit_of(self.f, index),
    {
        (self.f >> index) & 1 == 1
    }

    /// Replaces all four flags at once, keeping the low nibble of F.
    pub fn set_flags(&mut self, z: bool, n: bool, h: bool, c: bool)
        ensures
            *final(self) == old(self).with_flags(z, n, h, c),
    {
        let zb: u8 = if z { 0x80 } else { 0 };
        let nb: u8 = if n { 0x40 } else { 0 };
        let hb: u8 = if h { 0x20 } else { 0 };
        let cb: u8 = if c { 0x10 } else { 0 };
        self.f = (self.f & 0x0F) | zb | nb | hb | cb;
    }

    pub fn get_af(&self) -> (r: u16)
        ensures
            r == self.af(),
    {
        merge_u8s(self.a, self.f)
    }

    /// Loads AF; the low nibble of F is cleared.
    pub fn set_af(&mut self, val: u16)
        ensures
            *final(self) == old(self).with_af(val),
    {
        let split = split_u16(val);
        self.a = split.0;
        self.f = split.1 & 0xF0;
    }

    pub fn get_bc(&self) -> (r: u16)
        ensures
            r == self.bc(),
    {
        merge_u8s(self.b, self.c)
    }

    pub fn set_bc(&mut self, val: u16)
        ensures
            *final(self) == old(self).with_bc(val),
    {
        let split = split_u16(val);
        self.b = split.0;
        self.c = split.1;
    }

    /// Gets the DE register pair.
    pub fn get_de(&self) -> (r: u16)
        ensures
            r == self.de(),
    {
        merge_u8s(self.d, self.e)
    }

    /// Sets the DE register pair.
    pub fn set_de(&mut self, val: u16)
        ensures
            *final(self) == old(self).with_de(val),
    {
        let split = split_u16(val);
        self.d = split.0;
        self.e = split.1;
    }

    /// Gets the HL register pair.
    pub fn get_hl(&self) -> (r: u16)
        ensures
            r == self.hl(),
    {
        merge_u8s(self.h, self.l)
    }

    /// Sets the HL register pair.
    pub fn set_hl(&mut self, val: u16)
        ensures
            *final(self) == old(self).with_hl(val),
    {
        let split = split_u16(val);
        self.h = split.0;
        self.l = split.1;
    }

    /// Gets the stack pointer.
    pub fn get_sp(&self) -> (r: u16)
        ensures
            r == self.sp,
    {
        self.sp
    }

    /// Sets the stack pointer.
    pub fn set_sp(&mut self, val: u16)
        ensures
            *final(self) == (Registers { sp: val, ..*old(self) }),
    {
        self.sp = val;
    }

    /// Gets the program counter.
    pub fn get_pc(&self) -> (r: u16)
        ensures
            r == self.pc,
    {
        self.pc
    }

    /// Sets the program counter.
    pub fn set_pc(&mut self, val: u16)
        ensures
            *final(self) == (Registers { pc: val, ..*old(self) }),
    {
        self.pc = val;
    }

    /// Reads the byte register selected by a 3-bit index.
    pub fn get_reg(&self, index: u8) -> (r: u8)
        requires
            index < 8,
        ensures
            r == self.reg(index),
    {
        match index {
            0 => self.b,
            1 => self.c,
            2 => self.d,
            3 => self.e,
            4 => self.h,
            5 => self.l,
            6 => self.f,
            _ => self.a,
        }
    }

    /// Writes the byte register selected by a 3-bit index.
    pub fn set_reg(&mut self, index: u8, val: u8)
        requires
            index < 8,
        ensures
            *final(self) == old(self).with_reg(index, val),
    {
        match index {
            0 => self.b = val,
            1 => self.c = val,
            2 => self.d = val,
            3 => self.e = val,
            4 => self.h = val,
            5 => self.l = val,
            6 => self.f = val & 0xF0,
            _ => self.a = val,
        }
    }

    pub fn get_flag_z(&self) -> (r: bool)
        ensures
            r == self.flag_z(),
    {
        self.get_flag_at_index(FLAG_Z_INDEX)
    }

    pub fn set_flag_z(&mut self, val: bool)
        ensures
            *final(self) == (Registers { f: with_bit(old(self).f, FLAG_Z_INDEX, val), ..*old(self) }),
    {
        self.set_flag_at_index(FLAG_Z_INDEX, val);
    }

    pub fn get_flag_n(&self) -> (r: bool)
        ensures
            r == self.flag_n(),
    {
        self.get_flag_at_index(FLAG_N_INDEX)
    }

    pub fn set_flag_n(&mut self, val: bool)
        ensures
            *final(self) == (Registers { f: with_bit(old(self).f, FLAG_N_INDEX, val), ..*old(self) }),
    {
        self.set_flag_at_index(FLAG_N_INDEX, val);
    }

    pub fn get_flag_h(&self) -> (r: bool)
        ensures
            r == self.flag_h(),
    {
        self.get_flag_at_index(FLAG_H_INDEX)
    }

    pub fn set_flag_h(&mut self, val: bool)
        ensures
            *final(self) == (Registers { f: with_bit(old(self).f, FLAG_H_INDEX, val), ..*old(self) }),
    {
        self.set_flag_at_index(FLAG_H_INDEX, val);
    }

    pub fn get_flag_c(&self) -> (r: bool)
        ensures
            r == self.flag_c(),
    {
        self.get_flag_at_index(FLAG_C_INDEX)
    }

    pub fn set_flag_c(&mut self, val: bool)
        ensures
            *final(self) == (Registers { f: with_bit(old(self).f, FLAG_C_INDEX, val), ..*old(self) }),
    {
        self.set_flag_at_index(FLAG_C_INDEX, val);
    }
}

/// Reading back the flags of a flag byte gives what was written, and the
/// low nibble is kept.
pub proof fn lemma_flags_byte(f: u8, z: bool, n: bool, h: bool, c: bool)
    ensures
        bit_of(flags_byte(f, z, n, h, c), FLAG_Z_INDEX) == z,
        bit_of(flags_byte(f, z, n, h, c), FLAG_N_INDEX) == n,
        bit_of(flags_byte(f, z, n, h, c), FLAG_H_INDEX) == h,
        bit_of(flags_byte(f, z, n, h, c), FLAG_C_INDEX) == c,
        flags_byte(f, z, n, h, c) & 0x0F == f & 0x0F,
{
    assert(bit_of(flags_byte(f, z, n, h, c), 7) == z && bit_of(flags_byte(f, z, n, h, c), 6) == n
        && bit_of(flags_byte(f, z, n, h, c), 5) == h && bit_of(flags_byte(f, z, n, h, c), 4) == c
        && flags_byte(f, z, n, h, c) & 0x0F == f & 0x0F) by (bit_vector);
}

/// Setting one flag bit leaves the other three flags and the low nibble of
/// F as they were.
pub proof fn lemma_with_bit_flags(f: u8, index: u8, val: bool)
    requires
        4 <= index < 8,
    ensures
        bit_of(with_bit(f, index, val), index) == val,
        forall|j: u8| 4 <= j < 8 && j != index ==> bit_of(with_bit(f, index, val), j) == bit_of(f, j),
        with_bit(f, index, val) & 0x0F == f & 0x0F,
{
    assert(bit_of(with_bit(f, index, val), index) == val && with_bit(f, index, val) & 0x0F == f & 0x0F)
        by (bit_vector)
        requires
            4 <= index < 8,
    ;
    assert forall|j: u8| 4 <= j < 8 && j != index implies bit_of(with_bit(f, index, val), j) == bit_of(f, j) by {
        assert(bit_of(with_bit(f, index, val), j) == bit_of(f, j)) by (bit_vector)
            requires
                4 <= index < 8,
                4 <= j < 8,
                j != index,
        ;
    }
}

/// Writing back what a register pair reads leaves the register file as it
/// was; for AF this holds while the low nibble of F is zero.
pub proof fn lemma_pair_round_trip(r: Registers)
    ensures
        r.with_bc(r.bc()) == r,
        r.with_de(r.de()) == r,
        r.with_hl(r.hl()) == r,
        r.wf() ==> r.with_af(r.af()) == r,
{
    crate::utils::lemma_word_round_trip(0, r.b, r.c);
    crate::utils::lemma_word_round_trip(0, r.d, r.e);
    crate::utils::lemma_word_round_trip(0, r.h, r.l);
    crate::utils::lemma_word_round_trip(0, r.a, r.f);
    let f = r.f;
    assert(f & 0x0F == 0 ==> f & 0xF0 == f) by (bit_vector);
}

} // verus!
