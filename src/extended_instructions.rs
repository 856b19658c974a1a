//! The prefixed opcode table: rotates, shifts and single-bit operations on
//! the byte registers and the byte at HL.
use vstd::prelude::*;

use crate::alu::{bit_regs, shift_regs, shift_value};
use crate::cpu::Cpu;
use crate::semantics::{bit_op, res_set_op, shift_op, step_cb};
use crate::utils::{self, with_bit};

verus! {

impl Cpu {
    /// Reads the byte after the prefix and executes that instruction of the
    /// prefixed table. The cost is the operation's own plus one machine
    /// cycle for the prefix's fetch.
    pub fn exec_cb_instruction(&mut self) -> (r: u8)
        ensures
            (final(self)@, r) == step_cb(old(self)@.skip(1), old(self)@.imm8()),
    {
        let opcode = self.read_u8_at_pc_and_increase();
        let z = opcode % 8;
        let y = (opcode / 8) % 8;
        let cost = if opcode < 0x40 {
            if z == 6 {
                match y {
                    0 => self.rlc_hl(),
                    1 => self.rrc_hl(),
                    2 => self.rl_hl(),
                    3 => self.rr_hl(),
                    4 => self.sla_hl(),
                    5 => self.sra_hl(),
                    6 => self.sll_hl(),
                    _ => self.srl_hl(),
                }
            } else {
                match y {
                    0 => self.rlc(z),
                    1 => self.rrc(z),
                    2 => self.rl(z),
                    3 => self.rr(z),
                    4 => self.sla(z),
                    5 => self.sra(z),
                    6 => self.sll(z),
                    _ => self.srl(z),
                }
            }
        } else if opcode < 0x80 {
            if z == 6 {
                self.bit_hl(y)
            } else {
                self.bit(y, z)
            }
        } else if opcode < 0xC0 {
            if z == 6 {
                self.res_hl(y)
            } else {
                self.res(y, z)
            }
        } else {
            if z == 6 {
                self.set_hl(y)
            } else {
                self.set(y, z)
            }
        };
        cost + 1
    }

    /// `val` with bit `idx` set.
    pub fn set_bit(val: u8, idx: u8) -> (r: u8)
        requires
            idx < 8,
        ensures
            r == with_bit(val, idx, true),
    {
        utils::set_bit(val, idx, true)
    }

    /// SET b on an operand (6: the byte at HL).
    pub fn set(&mut self, bit_idx: u8, register_idx: u8) -> (r: u8)
        requires
            bit_idx < 8,
            register_idx < 8,
        ensures
            (final(self)@, r) == res_set_op(old(self)@, bit_idx, register_idx, true),
    {
        let v = self.read_operand(register_idx);
        self.write_operand(register_idx, Self::set_bit(v, bit_idx));
        if register_idx == 6 { 3 } else { 1 }
    }

    /// SET b,(HL).
    pub fn set_hl(&mut self, bit_idx: u8) -> (r: u8)
        requires
            bit_idx < 8,
        ensures
            (final(self)@, r) == res_set_op(old(self)@, bit_idx, 6, true),
    {
        let address = self.registers.get_hl();
        let val = self.read(address);
        let result = Self::set_bit(val, bit_idx);
        self.write_u8(address, result);
        3
    }

    /// `val` with bit `idx` cleared.
    pub fn reset_bit(val: u8, idx: u8) -> (r: u8)
        requires
            idx < 8,
        ensures
            r == with_bit(val, idx, false),
    {
        utils::set_bit(val, idx, false)
    }

    /// RES b on an operand (6: the byte at HL).
    pub fn res(&mut self, bit_idx: u8, register_idx: u8) -> (r: u8)
        requires
            bit_idx < 8,
            register_idx < 8,
        ensures
            (final(self)@, r) == res_set_op(old(self)@, bit_idx, register_idx, false),
    {
        let v = self.read_operand(register_idx);
        self.write_operand(register_idx, Self::reset_bit(v, bit_idx));
        if register_idx == 6 { 3 } else { 1 }
    }

    /// RES b,(HL).
    pub fn res_hl(&mut self, bit_idx: u8) -> (r: u8)
        requires
            bit_idx < 8,
        ensures
            (final(self)@, r) == res_set_op(old(self)@, bit_idx, 6, false),
    {
        let address = self.registers.get_hl();
        let val = self.read(address);
        let result = Self::reset_bit(val, bit_idx);
        self.write_u8(address, result);
        3
    }

    /// SLL: shifts left, bit 7 into Carry, bit 0 filled with zero.
    pub fn sll_val(&mut self, val: u8) -> (r: u8)
        ensures
            r == shift_value(6, val, old(self).registers.flag_c()),
            final(self)@ == old(self)@.with_regs(shift_regs(old(self).registers, 6, val)),
    {
        let result = val << 1u8;
        self.registers.set_flags(result == 0, false, false, (val >> 7u8) == 1);
        result
    }

    /// SLL on an operand (6: the byte at HL).
    pub fn sll(&mut self, register_idx: u8) -> (r: u8)
        requires
            register_idx < 8,
        ensures
            (final(self)@, r) == shift_op(old(self)@, 6, register_idx),
    {
        let v = self.read_operand(register_idx);
        let res = self.sll_val(v);
        self.write_operand(register_idx, res);
        if register_idx == 6 { 3 } else { 1 }
    }

    /// SLL (HL).
    pub fn sll_hl(&mut self) -> (r: u8)
        ensures
            (final(self)@, r) == shift_op(old(self)@, 6, 6),
    {
        let address = self.registers.get_hl();
        let val = self.read(address);
        let result = self.sll_val(val);
        self.write_u8(address, result);
        3
    }

    /// SRL: shifts right, bit 0 into Carry, bit 7 filled with zero.
    pub fn srl_val(&mut self, val: u8) -> (r: u8)
        ensures
            r == shift_value(7, val, old(self).registers.flag_c()),
            final(self)@ == old(self)@.with_regs(shift_regs(old(self).registers, 7, val)),
    {
        let result = val >> 1u8;
        self.registers.set_flags(result == 0, false, false, (val & 1u8) == 1);
        result
    }

    /// SRL on an operand (6: the byte at HL).
    pub fn srl(&mut self, register_idx: u8) -> (r: u8)
        requires
            register_idx < 8,
        ensures
            (final(self)@, r) == shift_op(old(self)@, 7, register_idx),
    {
        let v = self.read_operand(register_idx);
        let res = self.srl_val(v);
        self.write_operand(register_idx, res);
        if register_idx == 6 { 3 } else { 1 }
    }

    /// SRL (HL).
    pub fn srl_hl(&mut self) -> (r: u8)
        ensures
            (final(self)@, r) == shift_op(old(self)@, 7, 6),
    {
        let address = self.registers.get_hl();
        let val = self.read(address);
        let result = self.srl_val(val);
        self.write_u8(address, result);
        3
    }

    /// SLA: shifts left, bit 7 into Carry, bit 0 filled with zero.
    pub fn sla_val(&mut self, val: u8) -> (r: u8)
        ensures
            r == shift_value(4, val, old(self).registers.flag_c()),
            final(self)@ == old(self)@.with_regs(shift_regs(old(self).registers, 4, val)),
    {
        let result = val << 1u8;
        self.registers.set_flags(result == 0, false, false, (val >> 7u8) == 1);
        result
    }

    /// SLA on an operand (6: the byte at HL).
    pub fn sla(&mut self, register_idx: u8) -> (r: u8)
        requires
            register_idx < 8,
        ensures
            (final(self)@, r) == shift_op(old(self)@, 4, register_idx),
    {
        let v = self.read_operand(register_idx);
        let res = self.sla_val(v);
        self.write_operand(register_idx, res);
        if register_idx == 6 { 3 } else { 1 }
    }

    /// SLA (HL).
    pub fn sla_hl(&mut self) -> (r: u8)
        ensures
            (final(self)@, r) == shift_op(old(self)@, 4, 6),
    {
        let address = self.registers.get_hl();
        let val = self.read(address);
        let result = self.sla_val(val);
        self.write_u8(address, result);
        3
    }

    /// SRA: shifts right, bit 0 into Carry, the sign bit kept.
    pub fn sra_val(&mut self, val: u8) -> (r: u8)
        ensures
            r == shift_value(5, val, old(self).registers.flag_c()),
            final(self)@ == old(self)@.with_regs(shift_regs(old(self).registers, 5, val)),
    {
        let result = (val & 0x80u8) | (val >> 1u8);
        self.registers.set_flags(result == 0, false, false, (val & 1u8) == 1);
        result
    }

    /// SRA on an operand (6: the byte at HL).
    pub fn sra(&mut self, register_idx: u8) -> (r: u8)
        requires
            register_idx < 8,
        ensures
            (final(self)@, r) == shift_op(old(self)@, 5, register_idx),
    {
        let v = self.read_operand(register_idx);
        let res = self.sra_val(v);
        self.write_operand(register_idx, res);
        if register_idx == 6 { 3 } else { 1 }
    }

    /// SRA (HL).
    pub fn sra_hl(&mut self) -> (r: u8)
        ensures
            (final(self)@, r) == shift_op(old(self)@, 5, 6),
    {
        let address = self.registers.get_hl();
        let val = self.read(address);
        let result = self.sra_val(val);
        self.write_u8(address, result);
        3
    }

    /// RR (HL).
    pub fn rr_hl(&mut self) -> (r: u8)
        ensures
            (final(self)@, r) == shift_op(old(self)@, 3, 6),
    {
        let address = self.registers.get_hl();
        let val = self.read(address);
        let result = self.rr_val(val);
        self.write_u8(address, result);
        3
    }

    /// RL (HL).
    pub fn rl_hl(&mut self) -> (r: u8)
        ensures
            (final(self)@, r) == shift_op(old(self)@, 2, 6),
    {
        let address = self.registers.get_hl();
        let val = self.read(address);
        let result = self.rl_val(val);
        self.write_u8(address, result);
        3
    }

    /// RRC (HL).
    pub fn rrc_hl(&mut self) -> (r: u8)
        ensures
            (final(self)@, r) == shift_op(old(self)@, 1, 6),
    {
        let address = self.registers.get_hl();
        let val = self.read(address);
        let result = self.rrc_val(val);
        self.write_u8(address, result);
        3
    }

    /// RLC (HL).
    pub fn rlc_hl(&mut self) -> (r: u8)
        ensures
            (final(self)@, r) == shift_op(old(self)@, 0, 6),
    {
        let address = self.registers.get_hl();
        let val = self.read(address);
        let result = self.rlc_val(val);
        self.write_u8(address, result);
        3
    }

    /// Sets the flags of BIT b on `val`: Zero is the inverse of the bit.
    pub fn test_bit(&mut self, bit_idx: u8, val: u8)
        requires
            bit_idx < 8,
        ensures
            final(self)@ == old(self)@.with_regs(bit_regs(old(self).registers, bit_idx, val)),
    {
        let c = self.registers.get_flag_c();
        self.registers.set_flags(((val >> bit_idx) & 1) != 1, false, true, c);
    }

    /// BIT b,(HL).
    pub fn bit_hl(&mut self, bit_idx: u8) -> (r: u8)
        requires
            bit_idx < 8,
        ensures
            (final(self)@, r) == bit_op(old(self)@, bit_idx, 6),
    {
        let val = self.read(self.registers.get_hl());
        self.test_bit(bit_idx, val);
        2
    }

    /// BIT b on an operand (6: the byte at HL).
    pub fn bit(&mut self, bit_idx: u8, register_idx: u8) -> (r: u8)
        requires
            bit_idx < 8,
            register_idx < 8,
        ensures
            (final(self)@, r) == bit_op(old(self)@, bit_idx, register_idx),
    {
        let val = self.read_operand(register_idx);
        self.test_bit(bit_idx, val);
        if register_idx == 6 { 2 } else { 1 }
    }
}

} // verus!
