//! The primary opcode table and the handlers of its instructions.
use vstd::prelude::*;

use crate::alu::{
    add16_regs, alu_regs, daa_value, dec8_regs, dec8_value, inc8_regs, inc8_value, shift_regs, shift_value,
    signed8, sp_plus, sp_plus_flags, wrap16,
};
use crate::cpu::{Cpu, CpuError};
use crate::registers::Registers;
use crate::semantics::{is_reserved, step, add_hl_op, add_sp_op, alu_imm_op, alu_op, call_cc_op, call_op, call_to, ccf_op, cpl_op, daa_op, dec8_op, di_op, dispatch, ei_op, halt_op, inc8_op, jp_cc_op, jp_hl_op, jp_op, jr_cc_op, jr_op, ld16_imm_op, ld8_imm_op, ld8_op, ld_a16_sp_op, ld_hl_sp_op, ld_sp_hl_op, ldh_load_op, ldh_store_op, load_a16_op, load_a_hl_step_op, load_a_op, pop_op, push_op, ret_cc_op, ret_op, reti_op, rotate_a_op, rst_op, scf_op, shift_op, step16_op, stop_op, store_a16_op, store_a_hl_step_op, store_a_op};
use crate::utils::{merge_u8s, word};

verus! {

impl Cpu {
    /// `base` moved by a signed displacement byte, wrapping.
    fn offset(base: u16, e: u8) -> (r: u16)
        ensures
            r == wrap16(base + signed8(e)),
    {
        if e < 128 {
            base.wrapping_add(e as u16)
        } else {
            base.wrapping_sub(256 - e as u16)
        }
    }

    /// SP plus a signed displacement, setting the flags of that addition.
    fn sp_plus_e(&mut self, e: u8) -> (r: u16)
        ensures
            r == sp_plus(old(self).registers, e),
            final(self)@ == old(self)@.with_regs(sp_plus_flags(old(self).registers, e)),
    {
        let sp = self.registers.sp;
        let h = ((sp & 0x0F) as u32) + ((e & 0x0F) as u32) > 0x0F;
        let c = Self::check_add_low_byte_carry(sp, e as u16);
        assert((e as u16) & 0xFF == e as u16) by (bit_vector);
        self.registers.set_flags(false, false, h, c);
        Self::offset(sp, e)
    }

    /// NOP: costs one cycle and changes nothing.
    pub fn nop(&mut self) -> (r: u8)
        ensures
            final(self)@ == old(self)@,
            r == 1,
    {
        1
    }

    /// STOP: halts and skips the byte that follows.
    pub fn stop(&mut self) -> (r: u8)
        ensures
            (final(self)@, r) == stop_op(old(self)@),
    {
        self.halted = true;
        let _after_stop = self.read_u8_at_pc_and_increase();
        1
    }

    /// HALT: fetch is suspended until an interrupt is pending.
    pub fn hlt(&mut self) -> (r: u8)
        ensures
            (final(self)@, r) == halt_op(old(self)@),
    {
        self.halted = true;
        1
    }

    /// The decimal-adjusted accumulator and the carry it leaves.
    fn daa_result(regs: &Registers) -> (r: (u8, bool))
        ensures
            r == daa_value(*regs),
    {
        let a = regs.a;
        let h = regs.get_flag_h();
        let c = regs.get_flag_c();
        if !regs.get_flag_n() {
            let carry = c || a > 0x99;
            let a1 = if carry { a.wrapping_add(0x60) } else { a };
            let a2 = if h || (a & 0x0F) > 0x09 { a1.wrapping_add(0x06) } else { a1 };
            (a2, carry)
        } else {
            let a1 = if c { a.wrapping_sub(0x60) } else { a };
            let a2 = if h { a1.wrapping_sub(0x06) } else { a1 };
            (a2, c)
        }
    }

    /// DAA: corrects A to packed BCD after an addition or subtraction.
    pub fn daa(&mut self) -> (r: u8)
        ensures
            (final(self)@, r) == daa_op(old(self)@),
    {
        let n = self.registers.get_flag_n();
        let (res, carry) = Self::daa_result(&self.registers);
        self.registers.a = res;
        self.registers.set_flags(res == 0, n, false, carry);
        1
    }

    /// RET.
    pub fn ret(&mut self) -> (r: u8)
        ensures
            (final(self)@, r) == ret_op(old(self)@),
    {
        self.registers.pc = self.pop_stack_u16();
        4
    }

    /// RST: pushes PC and jumps to a fixed low-memory address.
    pub fn rst(&mut self, address: u16) -> (r: u8)
        ensures
            (final(self)@, r) == rst_op(old(self)@, address),
    {
        self.push_stack_u16(self.registers.pc);
        self.registers.set_pc(address);
        4
    }

    pub fn inc16(val: u16) -> (r: u16)
        ensures
            r == wrap16(val + 1),
    {
        val.wrapping_add(1)
    }

    pub fn dec16(val: u16) -> (r: u16)
        ensures
            r == wrap16(val - 1),
    {
        val.wrapping_sub(1)
    }

    /// Pushes PC and jumps to `addr`; the cost is that of CALL.
    pub fn call(&mut self, addr: u16) -> (r: u8)
        ensures
            (final(self)@, r) == (call_to(old(self)@, addr), 6u8),
    {
        self.push_stack_u16(self.registers.pc);
        self.registers.pc = addr;
        6
    }

    /// CALL a16.
    pub fn call_a16(&mut self) -> (r: u8)
        ensures
            (final(self)@, r) == call_op(old(self)@),
    {
        let addr = self.read_u16_at_pc_and_increase();
        self.call(addr)
    }

    /// CALL NZ,a16.
    pub fn call_nz_a16(&mut self) -> (r: u8)
        ensures
            (final(self)@, r) == call_cc_op(old(self)@, 0),
    {
        let addr = self.read_u16_at_pc_and_increase();
        if self.registers.get_flag_z() {
            return 3;
        }
        self.call(addr)
    }

    /// CALL Z,a16.
    pub fn call_z_a16(&mut self) -> (r: u8)
        ensures
            (final(self)@, r) == call_cc_op(old(self)@, 1),
    {
        let addr = self.read_u16_at_pc_and_increase();
        if !self.registers.get_flag_z() {
            return 3;
        }
        self.call(addr)
    }

    /// CALL NC,a16.
    pub fn call_nc_a16(&mut self) -> (r: u8)
        ensures
            (final(self)@, r) == call_cc_op(old(self)@, 2),
    {
        let addr = self.read_u16_at_pc_and_increase();
        if self.registers.get_flag_c() {
            return 3;
        }
        self.call(addr)
    }

    /// CALL C,a16.
    pub fn call_c_a16(&mut self) -> (r: u8)
        ensures
            (final(self)@, r) == call_cc_op(old(self)@, 3),
    {
        let addr = self.read_u16_at_pc_and_increase();
        if !self.registers.get_flag_c() {
            return 3;
        }
        self.call(addr)
    }

    /// Copies `src` into `dst`.
    pub fn ld(src: u8, dst: &mut u8) -> (r: u8)
        ensures
            *final(dst) == src,
            r == 1,
    {
        *dst = src;
        1
    }

    /// INC of a byte: sets the flags and gives the result.
    pub fn inc8(&mut self, val: u8) -> (r: u8)
        ensures
            r == inc8_value(val),
            final(self)@ == old(self)@.with_regs(inc8_regs(old(self).registers, val)),
    {
        let w = val.wrapping_add(1);
        let h = ((val & 0x0F) as u16) + 1 > 0x0F;
        let c = self.registers.get_flag_c();
        self.registers.set_flags(w == 0, false, h, c);
        w
    }

    /// CPL.
    pub fn cpl(&mut self) -> (r: u8)
        ensures
            (final(self)@, r) == cpl_op(old(self)@),
    {
        let z = self.registers.get_flag_z();
        let c = self.registers.get_flag_c();
        self.registers.a = self.registers.a ^ 0xFF;
        self.registers.set_flags(z, true, true, c);
        1
    }

    /// CCF.
    pub fn ccf(&mut self) -> (r: u8)
        ensures
            (final(self)@, r) == ccf_op(old(self)@),
    {
        let z = self.registers.get_flag_z();
        let c = self.registers.get_flag_c();
        self.registers.set_flags(z, false, false, !c);
        1
    }

    /// SCF.
    pub fn scf(&mut self) -> (r: u8)
        ensures
            (final(self)@, r) == scf_op(old(self)@),
    {
        let z = self.registers.get_flag_z();
        self.registers.set_flags(z, false, false, true);
        1
    }

    /// DEC of a byte: sets the flags and gives the result.
    pub fn dec8(&mut self, val: u8) -> (r: u8)
        ensures
            r == dec8_value(val),
            final(self)@ == old(self)@.with_regs(dec8_regs(old(self).registers, val)),
    {
        let w = val.wrapping_sub(1);
        let h = (val & 0x0F) < 1;
        let c = self.registers.get_flag_c();
        self.registers.set_flags(w == 0, true, h, c);
        w
    }

    /// ADD HL,val.
    pub fn add16(&mut self, val: u16)
        ensures
            final(self)@ == old(self)@.with_regs(add16_regs(old(self).registers, val)),
    {
        let hl = self.registers.get_hl();
        let sum: u32 = hl as u32 + val as u32;
        let h = Self::check_add_u16_hc(hl, val);
        let z = self.registers.get_flag_z();
        self.registers.set_hl((sum % 0x10000) as u16);
        self.registers.set_flags(z, false, h, sum > 0xFFFF);
    }

    /// ADC A,val.
    pub fn add8c(&mut self, val: u8) -> (r: u8)
        ensures
            final(self)@ == old(self)@.with_regs(alu_regs(old(self).registers, 1, val)),
            r == 1,
    {
        let a = self.registers.a;
        let c: u16 = if self.registers.get_flag_c() { 1 } else { 0 };
        let sum: u16 = a as u16 + val as u16 + c;
        let res = (sum % 256) as u8;
        let h = ((a & 0x0F) as u16) + ((val & 0x0F) as u16) + c > 0x0F;
        self.registers.a = res;
        self.registers.set_flags(res == 0, false, h, sum > 0xFF);
        1
    }

    /// SBC A,val.
    pub fn sub8c(&mut self, val: u8) -> (r: u8)
        ensures
            final(self)@ == old(self)@.with_regs(alu_regs(old(self).registers, 3, val)),
            r == 1,
    {
        let a = self.registers.a;
        let c: u16 = if self.registers.get_flag_c() { 1 } else { 0 };
        let res = ((a as u16 + 256 - val as u16 - c) % 256) as u8;
        let h = ((a & 0x0F) as u16) < ((val & 0x0F) as u16) + c;
        self.registers.a = res;
        self.registers.set_flags(res == 0, true, h, (a as u16) < (val as u16) + c);
        1
    }

    /// ADD A,val.
    pub fn add8(&mut self, val: u8) -> (r: u8)
        ensures
            final(self)@ == old(self)@.with_regs(alu_regs(old(self).registers, 0, val)),
            r == 1,
    {
        let a = self.registers.a;
        let sum: u16 = a as u16 + val as u16;
        let res = (sum % 256) as u8;
        let h = ((a & 0x0F) as u16) + ((val & 0x0F) as u16) > 0x0F;
        self.registers.a = res;
        self.registers.set_flags(res == 0, false, h, sum > 0xFF);
        1
    }

    /// SUB A,val.
    pub fn sub8(&mut self, val: u8) -> (r: u8)
        ensures
            final(self)@ == old(self)@.with_regs(alu_regs(old(self).registers, 2, val)),
            r == 1,
    {
        let a = self.registers.a;
        let res = a.wrapping_sub(val);
        let h = Self::check_sub_u8_hc(a, val);
        self.registers.a = res;
        self.registers.set_flags(res == 0, true, h, a < val);
        1
    }

    /// Absolute jump.
    pub fn jp(&mut self, address: u16) -> (r: u8)
        ensures
            (final(self)@, r) == (old(self)@.with_pc(address), 4u8),
    {
        self.registers.set_pc(address);
        4
    }

    /// JP NZ,a16.
    pub fn jp_nz_a16(&mut self) -> (r: u8)
        ensures
            (final(self)@, r) == jp_cc_op(old(self)@, 0),
    {
        if self.registers.get_flag_z() {
            let _skipped = self.read_u16_at_pc_and_increase();
            return 3;
        }
        self.jp_a16()
    }

    /// JP NC,a16.
    pub fn jp_nc_a16(&mut self) -> (r: u8)
        ensures
            (final(self)@, r) == jp_cc_op(old(self)@, 2),
    {
        if self.registers.get_flag_c() {
            let _skipped = self.read_u16_at_pc_and_increase();
            return 3;
        }
        self.jp_a16()
    }

    /// JP Z,a16.
    pub fn jp_z_a16(&mut self) -> (r: u8)
        ensures
            (final(self)@, r) == jp_cc_op(old(self)@, 1),
    {
        if !self.registers.get_flag_z() {
            let _skipped = self.read_u16_at_pc_and_increase();
            return 3;
        }
        self.jp_a16()
    }

    /// JP C,a16.
    pub fn jp_c_a16(&mut self) -> (r: u8)
        ensures
            (final(self)@, r) == jp_cc_op(old(self)@, 3),
    {
        if !self.registers.get_flag_c() {
            let _skipped = self.read_u16_at_pc_and_increase();
            return 3;
        }
        self.jp_a16()
    }

    /// Relative jump by a signed displacement.
    pub fn jr(&mut self, val: u8)
        ensures
            final(self)@ == old(self)@.with_pc(wrap16(old(self).registers.pc + signed8(val))),
    {
        self.registers.pc = Self::offset(self.registers.pc, val);
    }

    /// XOR A,val.
    pub fn xor(&mut self, val: u8) -> (r: u8)
        ensures
            final(self)@ == old(self)@.with_regs(alu_regs(old(self).registers, 5, val)),
            r == 1,
    {
        let res = self.registers.a ^ val;
        self.registers.a = res;
        self.registers.set_flags(res == 0, false, false, false);
        1
    }

    /// AND A,val.
    pub fn and(&mut self, val: u8) -> (r: u8)
        ensures
            final(self)@ == old(self)@.with_regs(alu_regs(old(self).registers, 4, val)),
            r == 1,
    {
        let res = self.registers.a & val;
        self.registers.a = res;
        self.registers.set_flags(res == 0, false, true, false);
        1
    }

    /// OR A,val.
    pub fn or(&mut self, val: u8) -> (r: u8)
        ensures
            final(self)@ == old(self)@.with_regs(alu_regs(old(self).registers, 6, val)),
            r == 1,
    {
        let res = self.registers.a | val;
        self.registers.a = res;
        self.registers.set_flags(res == 0, false, false, false);
        1
    }

    /// CP A,val: the flags of SUB, A unchanged.
    pub fn cp(&mut self, val: u8) -> (r: u8)
        ensures
            final(self)@ == old(self)@.with_regs(alu_regs(old(self).registers, 7, val)),
            r == 1,
    {
        let a = self.registers.a;
        let res = a.wrapping_sub(val);
        let h = Self::check_sub_u8_hc(a, val);
        self.registers.set_flags(res == 0, true, h, a < val);
        1
    }

    /// LD B,(HL).
    pub fn ld_b_hl_ptr(&mut self) -> (r: u8)
        ensures
            (final(self)@, r) == ld8_op(old(self)@, 0, 6),
    {
        self.registers.b = self.mmu.read_u8(self.registers.get_hl());
        2
    }

    /// LD D,(HL).
    pub fn ld_d_hl_ptr(&mut self) -> (r: u8)
        ensures
            (final(self)@, r) == ld8_op(old(self)@, 2, 6),
    {
        self.registers.d = self.mmu.read_u8(self.registers.get_hl());
        2
    }

    /// LD H,(HL).
    pub fn ld_h_hl_ptr(&mut self) -> (r: u8)
        ensures
            (final(self)@, r) == ld8_op(old(self)@, 4, 6),
    {
        self.registers.h = self.mmu.read_u8(self.registers.get_hl());
        2
    }

    /// LD C,(HL).
    pub fn ld_c_hl_ptr(&mut self) -> (r: u8)
        ensures
            (final(self)@, r) == ld8_op(old(self)@, 1, 6),
    {
        self.registers.c = self.mmu.read_u8(self.registers.get_hl());
        2
    }

    /// LD E,(HL).
    pub fn ld_e_hl_ptr(&mut self) -> (r: u8)
        ensures
            (final(self)@, r) == ld8_op(old(self)@, 3, 6),
    {
        self.registers.e = self.mmu.read_u8(self.registers.get_hl());
        2
    }

    /// LD L,(HL).
    pub fn ld_l_hl_ptr(&mut self) -> (r: u8)
        ensures
            (final(self)@, r) == ld8_op(old(self)@, 5, 6),
    {
        self.registers.l = self.mmu.read_u8(self.registers.get_hl());
        2
    }

    /// LD A,(HL).
    pub fn ld_a_hl_ptr(&mut self) -> (r: u8)
        ensures
            (final(self)@, r) == ld8_op(old(self)@, 7, 6),
    {
        self.registers.a = self.mmu.read_u8(self.registers.get_hl());
        2
    }

    /// LD HL,SP+e.
    pub fn ld_hl_sp_r8(&mut self) -> (r: u8)
        ensures
            (final(self)@, r) == ld_hl_sp_op(old(self)@),
    {
        let e = self.read_u8_at_pc_and_increase();
        let result = self.sp_plus_e(e);
        self.registers.set_hl(result);
        3
    }

    /// LD SP,HL.
    pub fn ld_sp_hl(&mut self) -> (r: u8)
        ensures
            (final(self)@, r) == ld_sp_hl_op(old(self)@),
    {
        self.registers.sp = self.registers.get_hl();
        2
    }

    /// LD (a16),A.
    pub fn ld_a16_ptr_a(&mut self) -> (r: u8)
        ensures
            (final(self)@, r) == store_a16_op(old(self)@),
    {
        let addr = self.read_u16_at_pc_and_increase();
        self.mmu.write_u8(addr, self.registers.a);
        4
    }

    /// LD A,(a16).
    pub fn ld_a_a16_ptr(&mut self) -> (r: u8)
        ensures
            (final(self)@, r) == load_a16_op(old(self)@),
    {
        let addr = self.read_u16_at_pc_and_increase();
        let val = self.mmu.read_u8(addr);
        self.registers.a = val;
        4
    }

    /// ADD SP,e.
    pub fn add_sp_r8(&mut self) -> (r: u8)
        ensures
            (final(self)@, r) == add_sp_op(old(self)@),
    {
        let e = self.read_u8_at_pc_and_increase();
        let result = self.sp_plus_e(e);
        self.registers.set_sp(result);
        4
    }

    /// LD (0xFF00+C),A.
    pub fn ld_c_ptr_a(&mut self) -> (r: u8)
        ensures
            (final(self)@, r) == store_a_op(old(self)@, word(0xFF, old(self).registers.c)),
    {
        let addr = merge_u8s(0xff, self.registers.c);
        self.mmu.write_u8(addr, self.registers.a);
        2
    }

    /// LD A,(0xFF00+C).
    pub fn ld_a_c_ptr(&mut self) -> (r: u8)
        ensures
            (final(self)@, r) == load_a_op(old(self)@, word(0xFF, old(self).registers.c)),
    {
        let addr = merge_u8s(0xff, self.registers.c);
        self.registers.a = self.mmu.read_u8(addr);
        2
    }

    /// LDH (a8),A.
    pub fn ldh_a8_ptr_a(&mut self) -> (r: u8)
        ensures
            (final(self)@, r) == ldh_store_op(old(self)@),
    {
        let n = self.read_u8_at_pc_and_increase();
        let addr = merge_u8s(0xff, n);
        self.mmu.write_u8(addr, self.registers.a);
        3
    }

    /// LDH A,(a8).
    pub fn ldh_a_a8_ptr(&mut self) -> (r: u8)
        ensures
            (final(self)@, r) == ldh_load_op(old(self)@),
    {
        let n = self.read_u8_at_pc_and_increase();
        let addr = merge_u8s(0xff, n);
        self.registers.a = self.mmu.read_u8(addr);
        3
    }

    /// RETI: returns and enables interrupts at once.
    pub fn reti(&mut self) -> (r: u8)
        ensures
            (final(self)@, r) == reti_op(old(self)@),
    {
        self.ret();
        self.registers.ime = true;
        4
    }

    /// LD (HL),d8.
    pub fn ld_hl_ptr_d8(&mut self) -> (r: u8)
        ensures
            (final(self)@, r) == ld8_imm_op(old(self)@, 6),
    {
        let val = self.read_u8_at_pc_and_increase();
        let hl = self.registers.get_hl();
        self.mmu.write_u8(hl, val);
        3
    }

    /// LD A,(BC).
    pub fn ld_a_bc_ptr(&mut self) -> (r: u8)
        ensures
            (final(self)@, r) == load_a_op(old(self)@, old(self).registers.bc()),
    {
        let val = self.mmu.read_u8(self.registers.get_bc());
        Self::ld(val, &mut self.registers.a);
        2
    }

    /// LD A,(DE).
    pub fn ld_a_de_ptr(&mut self) -> (r: u8)
        ensures
            (final(self)@, r) == load_a_op(old(self)@, old(self).registers.de()),
    {
        let val = self.mmu.read_u8(self.registers.get_de());
        Self::ld(val, &mut self.registers.a);
        2
    }

    /// LD B,d8.
    pub fn ld_b_d8(&mut self) -> (r: u8)
        ensures
            (final(self)@, r) == ld8_imm_op(old(self)@, 0),
    {
        let val = self.read_u8_at_pc_and_increase();
        Self::ld(val, &mut self.registers.b);
        2
    }

    /// LD D,d8.
    pub fn ld_d_d8(&mut self) -> (r: u8)
        ensures
            (final(self)@, r) == ld8_imm_op(old(self)@, 2),
    {
        let val = self.read_u8_at_pc_and_increase();
        Self::ld(val, &mut self.registers.d);
        2
    }

    /// LD H,d8.
    pub fn ld_h_d8(&mut self) -> (r: u8)
        ensures
            (final(self)@, r) == ld8_imm_op(old(self)@, 4),
    {
        let val = self.read_u8_at_pc_and_increase();
        Self::ld(val, &mut self.registers.h);
        2
    }

    /// LD (HL+),A.
    pub fn ld_hl_inc_ptr_a(&mut self) -> (r: u8)
        ensures
            (final(self)@, r) == store_a_hl_step_op(old(self)@, 1),
    {
        let hl = self.registers.get_hl();
        self.mmu.write_u8(hl, self.registers.a);
        self.registers.set_hl(hl.wrapping_add(1));
        2
    }

    /// LD (HL-),A.
    pub fn ld_hl_dec_ptr_a(&mut self) -> (r: u8)
        ensures
            (final(self)@, r) == store_a_hl_step_op(old(self)@, -1),
    {
        let hl = self.registers.get_hl();
        self.mmu.write_u8(hl, self.registers.a);
        self.registers.set_hl(hl.wrapping_sub(1));
        2
    }

    /// LD A,(HL+).
    pub fn ld_a_hl_inc_ptr(&mut self) -> (r: u8)
        ensures
            (final(self)@, r) == load_a_hl_step_op(old(self)@, 1),
    {
        let hl = self.registers.get_hl();
        let val = self.mmu.read_u8(hl);
        Self::ld(val, &mut self.registers.a);
        self.registers.set_hl(hl.wrapping_add(1));
        2
    }

    /// LD A,(HL-).
    pub fn ld_a_hl_dec_ptr(&mut self) -> (r: u8)
        ensures
            (final(self)@, r) == load_a_hl_step_op(old(self)@, -1),
    {
        let hl = self.registers.get_hl();
        let val = self.mmu.read_u8(hl);
        Self::ld(val, &mut self.registers.a);
        self.registers.set_hl(hl.wrapping_sub(1));
        2
    }

    /// LD (DE),A.
    pub fn ld_de_ptr_a(&mut self) -> (r: u8)
        ensures
            (final(self)@, r) == store_a_op(old(self)@, old(self).registers.de()),
    {
        let val = self.registers.a;
        self.mmu.write_u8(self.registers.get_de(), val);
        2
    }

    /// LD C,d8.
    pub fn ld_c_d8(&mut self) -> (r: u8)
        ensures
            (final(self)@, r) == ld8_imm_op(old(self)@, 1),
    {
        let val = self.read_u8_at_pc_and_increase();
        Self::ld(val, &mut self.registers.c);
        2
    }

    /// LD E,d8.
    pub fn ld_e_d8(&mut self) -> (r: u8)
        ensures
            (final(self)@, r) == ld8_imm_op(old(self)@, 3),
    {
        let val = self.read_u8_at_pc_and_increase();
        Self::ld(val, &mut self.registers.e);
        2
    }

    /// LD L,d8.
    pub fn ld_l_d8(&mut self) -> (r: u8)
        ensures
            (final(self)@, r) == ld8_imm_op(old(self)@, 5),
    {
        let val = self.read_u8_at_pc_and_increase();
        Self::ld(val, &mut self.registers.l);
        2
    }

    /// LD A,d8.
    pub fn ld_a_d8(&mut self) -> (r: u8)
        ensures
            (final(self)@, r) == ld8_imm_op(old(self)@, 7),
    {
        let val = self.read_u8_at_pc_and_increase();
        Self::ld(val, &mut self.registers.a);
        2
    }

    /// LD (HL),r for a byte register r.
    pub fn ld_hl_ptr_n(&mut self, register_idx: u8) -> (r: u8)
        requires
            register_idx < 8,
            register_idx != 6,
        ensures
            (final(self)@, r) == ld8_op(old(self)@, 6, register_idx),
    {
        let val = self.registers.get_reg(register_idx);
        self.mmu.write_u8(self.registers.get_hl(), val);
        2
    }

    /// ADD A,(HL).
    pub fn add_hl_ptr(&mut self) -> (r: u8)
        ensures
            (final(self)@, r) == alu_op(old(self)@, 0, 6),
    {
        let val = self.mmu.read_u8(self.registers.get_hl());
        self.add8(val);
        2
    }

    /// ADC A,(HL).
    pub fn adc_hl_ptr(&mut self) -> (r: u8)
        ensures
            (final(self)@, r) == alu_op(old(self)@, 1, 6),
    {
        let val = self.mmu.read_u8(self.registers.get_hl());
        self.add8c(val);
        2
    }

    /// ADC A,d8.
    pub fn adc_d8(&mut self) -> (r: u8)
        ensures
            (final(self)@, r) == alu_imm_op(old(self)@, 1),
    {
        let d8 = self.read_u8_at_pc_and_increase();
        self.add8c(d8);
        2
    }

    /// SUB A,(HL).
    pub fn sub_hl_ptr(&mut self) -> (r: u8)
        ensures
            (final(self)@, r) == alu_op(old(self)@, 2, 6),
    {
        let val = self.mmu.read_u8(self.registers.get_hl());
        self.sub8(val);
        2
    }

    /// SBC A,(HL).
    pub fn sbc_hl_ptr(&mut self) -> (r: u8)
        ensures
            (final(self)@, r) == alu_op(old(self)@, 3, 6),
    {
        let val = self.mmu.read_u8(self.registers.get_hl());
        self.sub8c(val);
        2
    }

    /// SBC A,d8.
    pub fn sbc_d8(&mut self) -> (r: u8)
        ensures
            (final(self)@, r) == alu_imm_op(old(self)@, 3),
    {
        let d8 = self.read_u8_at_pc_and_increase();
        self.sub8c(d8);
        2
    }

    /// XOR A,d8.
    pub fn xor_d8(&mut self) -> (r: u8)
        ensures
            (final(self)@, r) == alu_imm_op(old(self)@, 5),
    {
        let d8 = self.read_u8_at_pc_and_increase();
        self.xor(d8);
        2
    }

    /// AND A,d8.
    pub fn and_d8(&mut self) -> (r: u8)
        ensures
            (final(self)@, r) == alu_imm_op(old(self)@, 4),
    {
        let d8 = self.read_u8_at_pc_and_increase();
        self.and(d8);
        2
    }

    /// OR A,(HL).
    pub fn or_hl_ptr(&mut self) -> (r: u8)
        ensures
            (final(self)@, r) == alu_op(old(self)@, 6, 6),
    {
        let val = self.mmu.read_u8(self.registers.get_hl());
        self.or(val);
        2
    }

    /// XOR A,(HL).
    pub fn xor_hl_ptr(&mut self) -> (r: u8)
        ensures
            (final(self)@, r) == alu_op(old(self)@, 5, 6),
    {
        let val = self.mmu.read_u8(self.registers.get_hl());
        self.xor(val);
        2
    }

    /// AND A,(HL).
    pub fn and_hl_ptr(&mut self) -> (r: u8)
        ensures
            (final(self)@, r) == alu_op(old(self)@, 4, 6),
    {
        let val = self.mmu.read_u8(self.registers.get_hl());
        self.and(val);
        2
    }

    /// OR A,d8.
    pub fn or_d8(&mut self) -> (r: u8)
        ensures
            (final(self)@, r) == alu_imm_op(old(self)@, 6),
    {
        let d8 = self.read_u8_at_pc_and_increase();
        self.or(d8);
        2
    }

    /// ADD A,d8.
    pub fn add_d8(&mut self) -> (r: u8)
        ensures
            (final(self)@, r) == alu_imm_op(old(self)@, 0),
    {
        let d8 = self.read_u8_at_pc_and_increase();
        self.add8(d8);
        2
    }

    /// SUB A,d8.
    pub fn sub_d8(&mut self) -> (r: u8)
        ensures
            (final(self)@, r) == alu_imm_op(old(self)@, 2),
    {
        let d8 = self.read_u8_at_pc_and_increase();
        self.sub8(d8);
        2
    }

    /// CP A,(HL).
    pub fn cp_hl(&mut self) -> (r: u8)
        ensures
            (final(self)@, r) == alu_op(old(self)@, 7, 6),
    {
        let val = self.mmu.read_u8(self.registers.get_hl());
        self.cp(val);
        2
    }

    /// CP A,d8.
    pub fn cp_d8(&mut self) -> (r: u8)
        ensures
            (final(self)@, r) == alu_imm_op(old(self)@, 7),
    {
        let d8 = self.read_u8_at_pc_and_increase();
        self.cp(d8);
        2
    }

    /// LD BC,d16.
    pub fn ld_bc_d16(&mut self) -> (r: u8)
        ensures
            (final(self)@, r) == ld16_imm_op(old(self)@, 0),
    {
        let val = self.read_u16_at_pc_and_increase();
        self.registers.set_bc(val);
        3
    }

    /// LD DE,d16.
    pub fn ld_de_d16(&mut self) -> (r: u8)
        ensures
            (final(self)@, r) == ld16_imm_op(old(self)@, 1),
    {
        let val = self.read_u16_at_pc_and_increase();
        self.registers.set_de(val);
        3
    }

    /// LD HL,d16.
    pub fn ld_hl_d16(&mut self) -> (r: u8)
        ensures
            (final(self)@, r) == ld16_imm_op(old(self)@, 2),
    {
        let val = self.read_u16_at_pc_and_increase();
        self.registers.set_hl(val);
        3
    }

    /// LD SP,d16.
    pub fn ld_sp_d16(&mut self) -> (r: u8)
        ensures
            (final(self)@, r) == ld16_imm_op(old(self)@, 3),
    {
        let val = self.read_u16_at_pc_and_increase();
        self.registers.set_sp(val);
        3
    }

    /// LD (a16),SP.
    pub fn ld_a16_sp(&mut self) -> (r: u8)
        ensures
            (final(self)@, r) == ld_a16_sp_op(old(self)@),
    {
        let addr = self.read_u16_at_pc_and_increase();
        self.mmu.write_u16(addr, self.registers.sp);
        5
    }

    /// LD (BC),A.
    pub fn ld_bc(&mut self) -> (r: u8)
        ensures
            (final(self)@, r) == store_a_op(old(self)@, old(self).registers.bc()),
    {
        let val = self.registers.a;
        let bc = self.registers.get_bc();
        self.mmu.write_u8(bc, val);
        2
    }

    /// INC BC.
    pub fn inc_bc(&mut self) -> (r: u8)
        ensures
            (final(self)@, r) == step16_op(old(self)@, 0, 1),
    {
        let r = self.registers.get_bc();
        let res = Self::inc16(r);
        self.registers.set_bc(res);
        2
    }

    /// DEC BC.
    pub fn dec_bc(&mut self) -> (r: u8)
        ensures
            (final(self)@, r) == step16_op(old(self)@, 0, -1),
    {
        let r = self.registers.get_bc();
        let res = Self::dec16(r);
        self.registers.set_bc(res);
        2
    }

    /// RET NZ.
    pub fn ret_nz(&mut self) -> (r: u8)
        ensures
            (final(self)@, r) == ret_cc_op(old(self)@, 0),
    {
        if self.registers.get_flag_z() {
            return 2;
        }
        self.ret();
        5
    }

    /// RET NC.
    pub fn ret_nc(&mut self) -> (r: u8)
        ensures
            (final(self)@, r) == ret_cc_op(old(self)@, 2),
    {
        if self.registers.get_flag_c() {
            return 2;
        }
        self.ret();
        5
    }

    /// RET Z.
    pub fn ret_z(&mut self) -> (r: u8)
        ensures
            (final(self)@, r) == ret_cc_op(old(self)@, 1),
    {
        if !self.registers.get_flag_z() {
            return 2;
        }
        self.ret();
        5
    }

    /// RET C.
    pub fn ret_c(&mut self) -> (r: u8)
        ensures
            (final(self)@, r) == ret_cc_op(old(self)@, 3),
    {
        if !self.registers.get_flag_c() {
            return 2;
        }
        self.ret();
        5
    }

    /// DEC DE.
    pub fn dec_de(&mut self) -> (r: u8)
        ensures
            (final(self)@, r) == step16_op(old(self)@, 1, -1),
    {
        let r = self.registers.get_de();
        let res = Self::dec16(r);
        self.registers.set_de(res);
        2
    }

    /// DEC HL.
    pub fn dec_hl(&mut self) -> (r: u8)
        ensures
            (final(self)@, r) == step16_op(old(self)@, 2, -1),
    {
        let r = self.registers.get_hl();
        let res = Self::dec16(r);
        self.registers.set_hl(res);
        2
    }

    /// DEC SP.
    pub fn dec_sp(&mut self) -> (r: u8)
        ensures
            (final(self)@, r) == step16_op(old(self)@, 3, -1),
    {
        let r = self.registers.get_sp();
        let res = Self::dec16(r);
        self.registers.set_sp(res);
        2
    }

    /// INC B.
    pub fn inc_b(&mut self) -> (r: u8)
        ensures
            (final(self)@, r) == inc8_op(old(self)@, 0),
    {
        let v = self.registers.b;
        self.registers.b = self.inc8(v);
        1
    }

    /// DEC B.
    pub fn dec_b(&mut self) -> (r: u8)
        ensures
            (final(self)@, r) == dec8_op(old(self)@, 0),
    {
        let v = self.registers.b;
        self.registers.b = self.dec8(v);
        1
    }

    /// ADD HL,BC.
    pub fn add_hl_bc(&mut self) -> (r: u8)
        ensures
            (final(self)@, r) == add_hl_op(old(self)@, 0),
    {
        let bc = self.registers.get_bc();
        self.add16(bc);
        2
    }

    /// INC DE.
    pub fn inc_de(&mut self) -> (r: u8)
        ensures
            (final(self)@, r) == step16_op(old(self)@, 1, 1),
    {
        let r = self.registers.get_de();
        let res = Self::inc16(r);
        self.registers.set_de(res);
        2
    }

    /// INC D.
    pub fn inc_d(&mut self) -> (r: u8)
        ensures
            (final(self)@, r) == inc8_op(old(self)@, 2),
    {
        let v = self.registers.d;
        self.registers.d = self.inc8(v);
        1
    }

    /// DEC D.
    pub fn dec_d(&mut self) -> (r: u8)
        ensures
            (final(self)@, r) == dec8_op(old(self)@, 2),
    {
        let v = self.registers.d;
        self.registers.d = self.dec8(v);
        1
    }

    /// JR e.
    pub fn jr_r8(&mut self) -> (r: u8)
        ensures
            (final(self)@, r) == jr_op(old(self)@),
    {
        let val = self.read_u8_at_pc_and_increase();
        self.jr(val);
        3
    }

    /// ADD HL,DE.
    pub fn add_hl_de(&mut self) -> (r: u8)
        ensures
            (final(self)@, r) == add_hl_op(old(self)@, 1),
    {
        let de = self.registers.get_de();
        self.add16(de);
        2
    }

    /// DEC C.
    pub fn dec_c(&mut self) -> (r: u8)
        ensures
            (final(self)@, r) == dec8_op(old(self)@, 1),
    {
        let v = self.registers.c;
        self.registers.c = self.dec8(v);
        1
    }

    /// DEC E.
    pub fn dec_e(&mut self) -> (r: u8)
        ensures
            (final(self)@, r) == dec8_op(old(self)@, 3),
    {
        let v = self.registers.e;
        self.registers.e = self.dec8(v);
        1
    }

    /// RR of a byte through Carry: sets the flags and gives the result.
    pub fn rr_val(&mut self, val: u8) -> (r: u8)
        ensures
            r == shift_value(3, val, old(self).registers.flag_c()),
            final(self)@ == old(self)@.with_regs(shift_regs(old(self).registers, 3, val)),
    {
        let prev_carry: u8 = if self.registers.get_flag_c() { 0x80 } else { 0 };
        let result = (val >> 1u8) | prev_carry;
        self.registers.set_flags(result == 0, false, false, (val & 1u8) == 1);
        result
    }

    /// RR on an operand (6: the byte at HL).
    pub fn rr(&mut self, register_idx: u8) -> (r: u8)
        requires
            register_idx < 8,
        ensures
            (final(self)@, r) == shift_op(old(self)@, 3, register_idx),
    {
        let v = self.read_operand(register_idx);
        let res = self.rr_val(v);
        self.write_operand(register_idx, res);
        if register_idx == 6 { 3 } else { 1 }
    }

    /// RL of a byte through Carry: sets the flags and gives the result.
    pub fn rl_val(&mut self, val: u8) -> (r: u8)
        ensures
            r == shift_value(2, val, old(self).registers.flag_c()),
            final(self)@ == old(self)@.with_regs(shift_regs(old(self).registers, 2, val)),
    {
        let prev_carry: u8 = if self.registers.get_flag_c() { 1 } else { 0 };
        let result = (val << 1u8) | prev_carry;
        self.registers.set_flags(result == 0, false, false, (val >> 7u8) == 1);
        result
    }

    /// RL on an operand (6: the byte at HL).
    pub fn rl(&mut self, register_idx: u8) -> (r: u8)
        requires
            register_idx < 8,
        ensures
            (final(self)@, r) == shift_op(old(self)@, 2, register_idx),
    {
        let v = self.read_operand(register_idx);
        let res = self.rl_val(v);
        self.write_operand(register_idx, res);
        if register_idx == 6 { 3 } else { 1 }
    }

    /// RLC of a byte: bit 7 wraps to bit 0 and into Carry.
    pub fn rlc_val(&mut self, val: u8) -> (r: u8)
        ensures
            r == shift_value(0, val, old(self).registers.flag_c()),
            final(self)@ == old(self)@.with_regs(shift_regs(old(self).registers, 0, val)),
    {
        let result = (val << 1u8) | (val >> 7u8);
        self.registers.set_flags(result == 0, false, false, (val >> 7u8) == 1);
        result
    }

    /// RLC on an operand (6: the byte at HL).
    pub fn rlc(&mut self, reg_idx: u8) -> (r: u8)
        requires
            reg_idx < 8,
        ensures
            (final(self)@, r) == shift_op(old(self)@, 0, reg_idx),
    {
        let v = self.read_operand(reg_idx);
        let res = self.rlc_val(v);
        self.write_operand(reg_idx, res);
        if reg_idx == 6 { 3 } else { 1 }
    }

    /// RRC of a byte: bit 0 wraps to bit 7 and into Carry.
    pub fn rrc_val(&mut self, val: u8) -> (r: u8)
        ensures
            r == shift_value(1, val, old(self).registers.flag_c()),
            final(self)@ == old(self)@.with_regs(shift_regs(old(self).registers, 1, val)),
    {
        let result = (val >> 1u8) | (val << 7u8);
        self.registers.set_flags(result == 0, false, false, (val & 1u8) == 1);
        result
    }

    /// RRC on an operand (6: the byte at HL).
    pub fn rrc(&mut self, reg_idx: u8) -> (r: u8)
        requires
            reg_idx < 8,
        ensures
            (final(self)@, r) == shift_op(old(self)@, 1, reg_idx),
    {
        let v = self.read_operand(reg_idx);
        let res = self.rrc_val(v);
        self.write_operand(reg_idx, res);
        if reg_idx == 6 { 3 } else { 1 }
    }

    /// RLCA: rotates A; Zero is always cleared.
    pub fn rlca(&mut self) -> (r: u8)
        ensures
            (final(self)@, r) == rotate_a_op(old(self)@, 0),
    {
        let v = self.registers.a;
        let res = (v << 1u8) | (v >> 7u8);
        self.registers.set_flags(false, false, false, (v >> 7u8) == 1);
        self.registers.a = res;
        1
    }

    /// RRCA: rotates A; Zero is always cleared.
    pub fn rrca(&mut self) -> (r: u8)
        ensures
            (final(self)@, r) == rotate_a_op(old(self)@, 1),
    {
        let v = self.registers.a;
        let res = (v >> 1u8) | (v << 7u8);
        self.registers.set_flags(false, false, false, (v & 1u8) == 1);
        self.registers.a = res;
        1
    }

    /// RLA: rotates A; Zero is always cleared.
    pub fn rla(&mut self) -> (r: u8)
        ensures
            (final(self)@, r) == rotate_a_op(old(self)@, 2),
    {
        let v = self.registers.a;
        let prev_carry: u8 = if self.registers.get_flag_c() { 1 } else { 0 };
        let res = (v << 1u8) | prev_carry;
        self.registers.set_flags(false, false, false, (v >> 7u8) == 1);
        self.registers.a = res;
        1
    }

    /// RRA: rotates A; Zero is always cleared.
    pub fn rra(&mut self) -> (r: u8)
        ensures
            (final(self)@, r) == rotate_a_op(old(self)@, 3),
    {
        let v = self.registers.a;
        let prev_carry: u8 = if self.registers.get_flag_c() { 0x80 } else { 0 };
        let res = (v >> 1u8) | prev_carry;
        self.registers.set_flags(false, false, false, (v & 1u8) == 1);
        self.registers.a = res;
        1
    }

    /// INC H.
    pub fn inc_h(&mut self) -> (r: u8)
        ensures
            (final(self)@, r) == inc8_op(old(self)@, 4),
    {
        let v = self.registers.h;
        self.registers.h = self.inc8(v);
        1
    }

    /// DEC H.
    pub fn dec_h(&mut self) -> (r: u8)
        ensures
            (final(self)@, r) == dec8_op(old(self)@, 4),
    {
        let v = self.registers.h;
        self.registers.h = self.dec8(v);
        1
    }

    /// DEC L.
    pub fn dec_l(&mut self) -> (r: u8)
        ensures
            (final(self)@, r) == dec8_op(old(self)@, 5),
    {
        let v = self.registers.l;
        self.registers.l = self.dec8(v);
        1
    }

    /// DEC A.
    pub fn dec_a(&mut self) -> (r: u8)
        ensures
            (final(self)@, r) == dec8_op(old(self)@, 7),
    {
        let v = self.registers.a;
        self.registers.a = self.dec8(v);
        1
    }

    /// INC (HL).
    pub fn inc_hlp(&mut self) -> (r: u8)
        ensures
            (final(self)@, r) == inc8_op(old(self)@, 6),
    {
        let address = self.registers.get_hl();
        let val = self.mmu.read_u8(address);
        let res = self.inc8(val);
        self.mmu.write_u8(address, res);
        3
    }

    /// DEC (HL).
    pub fn dec_hlp(&mut self) -> (r: u8)
        ensures
            (final(self)@, r) == dec8_op(old(self)@, 6),
    {
        let address = self.registers.get_hl();
        let val = self.mmu.read_u8(address);
        let res = self.dec8(val);
        self.mmu.write_u8(address, res);
        3
    }

    /// JR NZ,e.
    pub fn jr_nz_r8(&mut self) -> (r: u8)
        ensures
            (final(self)@, r) == jr_cc_op(old(self)@, 0),
    {
        let val = self.read_u8_at_pc_and_increase();
        if !self.registers.get_flag_z() {
            self.jr(val);
            return 3;
        }
        2
    }

    /// JR Z,e.
    pub fn jr_z_r8(&mut self) -> (r: u8)
        ensures
            (final(self)@, r) == jr_cc_op(old(self)@, 1),
    {
        let val = self.read_u8_at_pc_and_increase();
        if self.registers.get_flag_z() {
            self.jr(val);
            return 3;
        }
        2
    }

    /// JR NC,e.
    pub fn jr_nc_r8(&mut self) -> (r: u8)
        ensures
            (final(self)@, r) == jr_cc_op(old(self)@, 2),
    {
        let val = self.read_u8_at_pc_and_increase();
        if !self.registers.get_flag_c() {
            self.jr(val);
            return 3;
        }
        2
    }

    /// JR C,e.
    pub fn jr_c_r8(&mut self) -> (r: u8)
        ensures
            (final(self)@, r) == jr_cc_op(old(self)@, 3),
    {
        let val = self.read_u8_at_pc_and_increase();
        if self.registers.get_flag_c() {
            self.jr(val);
            return 3;
        }
        2
    }

    /// INC HL.
    pub fn inc_hl(&mut self) -> (r: u8)
        ensures
            (final(self)@, r) == step16_op(old(self)@, 2, 1),
    {
        let r = self.registers.get_hl();
        let res = Self::inc16(r);
        self.registers.set_hl(res);
        2
    }

    /// ADD HL,HL.
    pub fn add_hl_hl(&mut self) -> (r: u8)
        ensures
            (final(self)@, r) == add_hl_op(old(self)@, 2),
    {
        let hl = self.registers.get_hl();
        self.add16(hl);
        2
    }

    /// ADD HL,SP.
    pub fn add_hl_sp(&mut self) -> (r: u8)
        ensures
            (final(self)@, r) == add_hl_op(old(self)@, 3),
    {
        let sp = self.registers.get_sp();
        self.add16(sp);
        2
    }

    /// INC C.
    pub fn inc_c(&mut self) -> (r: u8)
        ensures
            (final(self)@, r) == inc8_op(old(self)@, 1),
    {
        let v = self.registers.c;
        self.registers.c = self.inc8(v);
        1
    }

    /// INC E.
    pub fn inc_e(&mut self) -> (r: u8)
        ensures
            (final(self)@, r) == inc8_op(old(self)@, 3),
    {
        let v = self.registers.e;
        self.registers.e = self.inc8(v);
        1
    }

    /// INC L.
    pub fn inc_l(&mut self) -> (r: u8)
        ensures
            (final(self)@, r) == inc8_op(old(self)@, 5),
    {
        let v = self.registers.l;
        self.registers.l = self.inc8(v);
        1
    }

    /// INC A.
    pub fn inc_a(&mut self) -> (r: u8)
        ensures
            (final(self)@, r) == inc8_op(old(self)@, 7),
    {
        let v = self.registers.a;
        self.registers.a = self.inc8(v);
        1
    }

    /// INC SP.
    pub fn inc_sp(&mut self) -> (r: u8)
        ensures
            (final(self)@, r) == step16_op(old(self)@, 3, 1),
    {
        let r = self.registers.get_sp();
        let res = Self::inc16(r);
        self.registers.set_sp(res);
        2
    }

    /// JP a16.
    pub fn jp_a16(&mut self) -> (r: u8)
        ensures
            (final(self)@, r) == jp_op(old(self)@),
    {
        let address = self.read_u16_at_pc_and_increase();
        self.jp(address);
        4
    }

    /// JP HL.
    pub fn jp_hl(&mut self) -> (r: u8)
        ensures
            (final(self)@, r) == jp_hl_op(old(self)@),
    {
        let hl = self.registers.get_hl();
        self.jp(hl);
        1
    }

    /// DI: interrupts are disabled at once.
    pub fn di(&mut self) -> (r: u8)
        ensures
            (final(self)@, r) == di_op(old(self)@),
    {
        self.registers.ime = false;
        1
    }

    /// EI: interrupts are enabled once the next instruction is dispatched.
    pub fn ei(&mut self) -> (r: u8)
        ensures
            (final(self)@, r) == ei_op(old(self)@),
    {
        self.schedule_ei = true;
        1
    }

    /// POP BC.
    pub fn pop_bc(&mut self) -> (r: u8)
        ensures
            (final(self)@, r) == pop_op(old(self)@, 0),
    {
        let val = self.pop_stack_u16();
        self.registers.set_bc(val);
        3
    }

    /// POP DE.
    pub fn pop_de(&mut self) -> (r: u8)
        ensures
            (final(self)@, r) == pop_op(old(self)@, 1),
    {
        let val = self.pop_stack_u16();
        self.registers.set_de(val);
        3
    }

    /// POP HL.
    pub fn pop_hl(&mut self) -> (r: u8)
        ensures
            (final(self)@, r) == pop_op(old(self)@, 2),
    {
        let val = self.pop_stack_u16();
        self.registers.set_hl(val);
        3
    }

    /// POP AF.
    pub fn pop_af(&mut self) -> (r: u8)
        ensures
            (final(self)@, r) == pop_op(old(self)@, 3),
    {
        let val = self.pop_stack_u16();
        self.registers.set_af(val);
        3
    }

    /// PUSH BC.
    pub fn push_bc(&mut self) -> (r: u8)
        ensures
            (final(self)@, r) == push_op(old(self)@, 0),
    {
        let val = self.registers.get_bc();
        self.push_stack_u16(val);
        4
    }

    /// PUSH DE.
    pub fn push_de(&mut self) -> (r: u8)
        ensures
            (final(self)@, r) == push_op(old(self)@, 1),
    {
        let val = self.registers.get_de();
        self.push_stack_u16(val);
        4
    }

    /// PUSH HL.
    pub fn push_hl(&mut self) -> (r: u8)
        ensures
            (final(self)@, r) == push_op(old(self)@, 2),
    {
        let val = self.registers.get_hl();
        self.push_stack_u16(val);
        4
    }

    /// PUSH AF.
    pub fn push_af(&mut self) -> (r: u8)
        ensures
            (final(self)@, r) == push_op(old(self)@, 3),
    {
        let val = self.registers.get_af();
        self.push_stack_u16(val);
        4
    }

    /// LD dst,src over byte registers and the byte at HL (6).
    pub fn ld_operand(&mut self, dst: u8, src: u8) -> (r: u8)
        requires
            dst < 8,
            src < 8,
            dst != 6 || src != 6,
        ensures
            (final(self)@, r) == ld8_op(old(self)@, dst, src),
    {
        let val = self.read_operand(src);
        self.write_operand(dst, val);
        if dst == 6 || src == 6 { 2 } else { 1 }
    }

    /// The accumulator operation `kind` on an operand (6: the byte at HL).
    pub fn alu_operand(&mut self, kind: u8, idx: u8) -> (r: u8)
        requires
            kind < 8,
            idx < 8,
        ensures
            (final(self)@, r) == alu_op(old(self)@, kind, idx),
    {
        let val = self.read_operand(idx);
        match kind {
            0 => self.add8(val),
            1 => self.add8c(val),
            2 => self.sub8(val),
            3 => self.sub8c(val),
            4 => self.and(val),
            5 => self.xor(val),
            6 => self.or(val),
            _ => self.cp(val),
        };
        if idx == 6 { 2 } else { 1 }
    }

    /// Whether a primary opcode is one of the always-invalid ones.
    pub fn is_reserved_opcode(opcode: u8) -> (r: bool)
        ensures
            r == is_reserved(opcode),
    {
        opcode == 0xd3 || opcode == 0xdb || opcode == 0xdd || opcode == 0xe3 || opcode == 0xe4
            || opcode == 0xeb || opcode == 0xec || opcode == 0xed || opcode == 0xf4 || opcode
            == 0xfc || opcode == 0xfd
    }

    /// Executes an opcode of the first quarter of the table.
    fn exec_block0(&mut self, opcode: u8) -> (r: u8)
        requires
            opcode < 0x40,
        ensures
            (final(self)@, r) == step(old(self)@, opcode),
    {
        match opcode {
            0x00 => self.nop(),
            0x01 => self.ld_bc_d16(),
            0x02 => self.ld_bc(),
            0x03 => self.inc_bc(),
            0x04 => self.inc_b(),
            0x05 => self.dec_b(),
            0x06 => self.ld_b_d8(),
            0x07 => self.rlca(),
            0x08 => self.ld_a16_sp(),
            0x09 => self.add_hl_bc(),
            0x0a => self.ld_a_bc_ptr(),
            0x0b => self.dec_bc(),
            0x0c => self.inc_c(),
            0x0d => self.dec_c(),
            0x0e => self.ld_c_d8(),
            0x0f => self.rrca(),
            0x10 => self.stop(),
            0x11 => self.ld_de_d16(),
            0x12 => self.ld_de_ptr_a(),
            0x13 => self.inc_de(),
            0x14 => self.inc_d(),
            0x15 => self.dec_d(),
            0x16 => self.ld_d_d8(),
            0x17 => self.rla(),
            0x18 => self.jr_r8(),
            0x19 => self.add_hl_de(),
            0x1a => self.ld_a_de_ptr(),
            0x1b => self.dec_de(),
            0x1c => self.inc_e(),
            0x1d => self.dec_e(),
            0x1e => self.ld_e_d8(),
            0x1f => self.rra(),
            0x20 => self.jr_nz_r8(),
            0x21 => self.ld_hl_d16(),
            0x22 => self.ld_hl_inc_ptr_a(),
            0x23 => self.inc_hl(),
            0x24 => self.inc_h(),
            0x25 => self.dec_h(),
            0x26 => self.ld_h_d8(),
            0x27 => self.daa(),
            0x28 => self.jr_z_r8(),
            0x29 => self.add_hl_hl(),
            0x2a => self.ld_a_hl_inc_ptr(),
            0x2b => self.dec_hl(),
            0x2c => self.inc_l(),
            0x2d => self.dec_l(),
            0x2e => self.ld_l_d8(),
            0x2f => self.cpl(),
            0x30 => self.jr_nc_r8(),
            0x31 => self.ld_sp_d16(),
            0x32 => self.ld_hl_dec_ptr_a(),
            0x33 => self.inc_sp(),
            0x34 => self.inc_hlp(),
            0x35 => self.dec_hlp(),
            0x36 => self.ld_hl_ptr_d8(),
            0x37 => self.scf(),
            0x38 => self.jr_c_r8(),
            0x39 => self.add_hl_sp(),
            0x3a => self.ld_a_hl_dec_ptr(),
            0x3b => self.dec_sp(),
            0x3c => self.inc_a(),
            0x3d => self.dec_a(),
            0x3e => self.ld_a_d8(),
            0x3f => self.ccf(),
            _ => 0,
        }
    }

    /// Executes a load between byte registers and the byte at HL, or HALT.
    fn exec_block1(&mut self, opcode: u8) -> (r: u8)
        requires
            0x40 <= opcode < 0x80,
        ensures
            (final(self)@, r) == step(old(self)@, opcode),
    {
        let dst = (opcode - 0x40) / 8;
        let src = opcode % 8;
        match opcode {
            0x46 => self.ld_b_hl_ptr(),
            0x4e => self.ld_c_hl_ptr(),
            0x56 => self.ld_d_hl_ptr(),
            0x5e => self.ld_e_hl_ptr(),
            0x66 => self.ld_h_hl_ptr(),
            0x6e => self.ld_l_hl_ptr(),
            0x76 => self.hlt(),
            0x7e => self.ld_a_hl_ptr(),
            _ => {
                if dst == 6 {
                    self.ld_hl_ptr_n(src)
                } else {
                    self.ld_operand(dst, src)
                }
            },
        }
    }

    /// Executes an accumulator operation on a byte register or the byte at HL.
    fn exec_block2(&mut self, opcode: u8) -> (r: u8)
        requires
            0x80 <= opcode < 0xC0,
        ensures
            (final(self)@, r) == step(old(self)@, opcode),
    {
        match opcode {
            0x86 => self.add_hl_ptr(),
            0x8e => self.adc_hl_ptr(),
            0x96 => self.sub_hl_ptr(),
            0x9e => self.sbc_hl_ptr(),
            0xa6 => self.and_hl_ptr(),
            0xae => self.xor_hl_ptr(),
            0xb6 => self.or_hl_ptr(),
            0xbe => self.cp_hl(),
            _ => self.alu_operand((opcode - 0x80) / 8, opcode % 8),
        }
    }

    /// Executes a defined opcode of the last quarter of the table.
    fn exec_block3(&mut self, opcode: u8) -> (r: u8)
        requires
            0xC0 <= opcode,
            !is_reserved(opcode),
        ensures
            (final(self)@, r) == step(old(self)@, opcode),
    {
        match opcode {
            0xc0 => self.ret_nz(),
            0xc1 => self.pop_bc(),
            0xc2 => self.jp_nz_a16(),
            0xc3 => self.jp_a16(),
            0xc4 => self.call_nz_a16(),
            0xc5 => self.push_bc(),
            0xc6 => self.add_d8(),
            0xc7 => self.rst(0x00),
            0xc8 => self.ret_z(),
            0xc9 => self.ret(),
            0xca => self.jp_z_a16(),
            0xcb => self.exec_cb_instruction(),
            0xcc => self.call_z_a16(),
            0xcd => self.call_a16(),
            0xce => self.adc_d8(),
            0xcf => self.rst(0x08),
            0xd0 => self.ret_nc(),
            0xd1 => self.pop_de(),
            0xd2 => self.jp_nc_a16(),
            0xd4 => self.call_nc_a16(),
            0xd5 => self.push_de(),
            0xd6 => self.sub_d8(),
            0xd7 => self.rst(0x10),
            0xd8 => self.ret_c(),
            0xd9 => self.reti(),
            0xda => self.jp_c_a16(),
            0xdc => self.call_c_a16(),
            0xde => self.sbc_d8(),
            0xdf => self.rst(0x18),
            0xe0 => self.ldh_a8_ptr_a(),
            0xe1 => self.pop_hl(),
            0xe2 => self.ld_c_ptr_a(),
            0xe5 => self.push_hl(),
            0xe6 => self.and_d8(),
            0xe7 => self.rst(0x20),
            0xe8 => self.add_sp_r8(),
            0xe9 => self.jp_hl(),
            0xea => self.ld_a16_ptr_a(),
            0xee => self.xor_d8(),
            0xef => self.rst(0x28),
            0xf0 => self.ldh_a_a8_ptr(),
            0xf1 => self.pop_af(),
            0xf2 => self.ld_a_c_ptr(),
            0xf3 => self.di(),
            0xf5 => self.push_af(),
            0xf6 => self.or_d8(),
            0xf7 => self.rst(0x30),
            0xf8 => self.ld_hl_sp_r8(),
            0xf9 => self.ld_sp_hl(),
            0xfa => self.ld_a_a16_ptr(),
            0xfb => self.ei(),
            0xfe => self.cp_d8(),
            0xff => self.rst(0x38),
            _ => 0,
        }
    }

    /// Fetches the opcode at PC and executes it, giving its cost in machine
    /// cycles. A halted processor fetches nothing and costs nothing; a
    /// reserved opcode is refused with the opcode and its address.
    pub fn exec_instruction(&mut self) -> (r: Result<u8, CpuError>)
        ensures
            old(self).halted ==> final(self)@ == old(self)@ && r == Ok::<u8, CpuError>(0),
            !old(self).halted ==> (final(self)@, r) == dispatch(old(self)@),
    {
        if self.halted {
            return Ok(0);
        }
        let pc = self.registers.pc;
        let opcode = self.read_u8_at_pc_and_increase();
        if self.schedule_ei {
            self.schedule_ei = false;
            self.registers.ime = true;
        }
        if Self::is_reserved_opcode(opcode) {
            return Err(CpuError::ReservedOpcode { opcode, pc });
        }
        let cost = if opcode < 0x40 {
            self.exec_block0(opcode)
        } else if opcode < 0x80 {
            self.exec_block1(opcode)
        } else if opcode < 0xC0 {
            self.exec_block2(opcode)
        } else {
            self.exec_block3(opcode)
        };
        Ok(cost)
    }
}

} // verus!
