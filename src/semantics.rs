//! The instruction set as functions on the machine state. Each function
//! takes the state with PC already past the opcode byte and gives the state
//! after the instruction together with its cost in machine cycles.
use vstd::prelude::*;

use crate::alu::{
    add16_regs, alu_regs, bit_regs, condition, daa_regs, dec8_regs, dec8_value, inc8_regs,
    inc8_value, shift_carry, shift_regs, shift_value, signed8, sp_plus, sp_plus_flags, wrap16,
};
use crate::cpu::{CpuError, CpuState, WRAM_IF_OFFSET};
use crate::registers::Registers;
use crate::utils::{bit_of, with_bit, word};

verus! {

/// The primary opcodes that have no instruction.
pub open spec fn is_reserved(op: u8) -> bool {
    op == 0xD3 || op == 0xDB || op == 0xDD || op == 0xE3 || op == 0xE4 || op == 0xEB || op == 0xEC
        || op == 0xED || op == 0xF4 || op == 0xFC || op == 0xFD
}

/// LD rr,d16 (rr: BC, DE, HL, SP).
pub open spec fn ld16_imm_op(s: CpuState, p: u8) -> (CpuState, u8) {
    let t = s.skip(2);
    (t.with_regs(t.regs.with_rr(p, s.imm16())), 3)
}

/// LD (addr),A.
pub open spec fn store_a_op(s: CpuState, addr: u16) -> (CpuState, u8) {
    (s.wr(addr, s.regs.a), 2)
}

/// LD A,(addr).
pub open spec fn load_a_op(s: CpuState, addr: u16) -> (CpuState, u8) {
    (s.with_regs(Registers { a: s.rd(addr), ..s.regs }), 2)
}

/// LD (HL+),A and LD (HL-),A.
pub open spec fn store_a_hl_step_op(s: CpuState, delta: int) -> (CpuState, u8) {
    let t = s.wr(s.regs.hl(), s.regs.a);
    (t.with_regs(t.regs.with_hl(wrap16(s.regs.hl() + delta))), 2)
}

/// LD A,(HL+) and LD A,(HL-).
pub open spec fn load_a_hl_step_op(s: CpuState, delta: int) -> (CpuState, u8) {
    let r = Registers { a: s.rd(s.regs.hl()), ..s.regs };
    (s.with_regs(r.with_hl(wrap16(s.regs.hl() + delta))), 2)
}

/// INC rr and DEC rr: no flags change.
pub open spec fn step16_op(s: CpuState, p: u8, delta: int) -> (CpuState, u8) {
    (s.with_regs(s.regs.with_rr(p, wrap16(s.regs.rr(p) + delta))), 2)
}

/// INC r / INC (HL).
pub open spec fn inc8_op(s: CpuState, idx: u8) -> (CpuState, u8) {
    let v = s.operand(idx);
    let t = s.with_operand(idx, inc8_value(v));
    (t.with_regs(inc8_regs(t.regs, v)), if idx == 6 { 3 } else { 1 })
}

/// DEC r / DEC (HL).
pub open spec fn dec8_op(s: CpuState, idx: u8) -> (CpuState, u8) {
    let v = s.operand(idx);
    let t = s.with_operand(idx, dec8_value(v));
    (t.with_regs(dec8_regs(t.regs, v)), if idx == 6 { 3 } else { 1 })
}

/// LD r,d8 / LD (HL),d8.
pub open spec fn ld8_imm_op(s: CpuState, idx: u8) -> (CpuState, u8) {
    (s.skip(1).with_operand(idx, s.imm8()), if idx == 6 { 3 } else { 2 })
}

/// RLCA, RRCA, RLA, RRA: like the prefixed rotates on A, but Zero is
/// always cleared.
pub open spec fn rotate_a_op(s: CpuState, kind: u8) -> (CpuState, u8) {
    let v = s.regs.a;
    let r = Registers { a: shift_value(kind, v, s.regs.flag_c()), ..s.regs };
    (s.with_regs(r.with_flags(false, false, false, shift_carry(kind, v))), 1)
}

/// LD (a16),SP.
pub open spec fn ld_a16_sp_op(s: CpuState) -> (CpuState, u8) {
    (s.skip(2).wr16(s.imm16(), s.regs.sp), 5)
}

/// ADD HL,rr.
pub open spec fn add_hl_op(s: CpuState, p: u8) -> (CpuState, u8) {
    (s.with_regs(add16_regs(s.regs, s.regs.rr(p))), 2)
}

/// STOP: halts, skipping the byte that follows.
pub open spec fn stop_op(s: CpuState) -> (CpuState, u8) {
    (CpuState { halted: true, ..s.skip(1) }, 1)
}

/// HALT.
pub open spec fn halt_op(s: CpuState) -> (CpuState, u8) {
    (CpuState { halted: true, ..s }, 1)
}

/// JR e: PC moves by the signed displacement from the end of the
/// instruction.
pub open spec fn jr_op(s: CpuState) -> (CpuState, u8) {
    let t = s.skip(1);
    (t.with_pc(wrap16(t.regs.pc + signed8(s.imm8()))), 3)
}

/// JR cc,e.
pub open spec fn jr_cc_op(s: CpuState, cc: u8) -> (CpuState, u8) {
    if condition(s.regs, cc) {
        jr_op(s)
    } else {
        (s.skip(1), 2)
    }
}

pub open spec fn daa_op(s: CpuState) -> (CpuState, u8) {
    (s.with_regs(daa_regs(s.regs)), 1)
}

/// CPL: A complemented, Subtract and Half-carry set.
pub open spec fn cpl_op(s: CpuState) -> (CpuState, u8) {
    let r = Registers { a: s.regs.a ^ 0xFF, ..s.regs };
    (s.with_regs(r.with_flags(s.regs.flag_z(), true, true, s.regs.flag_c())), 1)
}

/// SCF: Carry set.
pub open spec fn scf_op(s: CpuState) -> (CpuState, u8) {
    (s.with_regs(s.regs.with_flags(s.regs.flag_z(), false, false, true)), 1)
}

/// CCF: Carry complemented.
pub open spec fn ccf_op(s: CpuState) -> (CpuState, u8) {
    (s.with_regs(s.regs.with_flags(s.regs.flag_z(), false, false, !s.regs.flag_c())), 1)
}

/// LD dst,src over byte registers and the byte at HL.
pub open spec fn ld8_op(s: CpuState, dst: u8, src: u8) -> (CpuState, u8) {
    (s.with_operand(dst, s.operand(src)), if dst == 6 || src == 6 { 2 } else { 1 })
}

/// ADD/ADC/SUB/SBC/AND/XOR/OR/CP A,operand.
pub open spec fn alu_op(s: CpuState, kind: u8, idx: u8) -> (CpuState, u8) {
    (s.with_regs(alu_regs(s.regs, kind, s.operand(idx))), if idx == 6 { 2 } else { 1 })
}

/// The same operations with an immediate byte.
pub open spec fn alu_imm_op(s: CpuState, kind: u8) -> (CpuState, u8) {
    let t = s.skip(1);
    (t.with_regs(alu_regs(t.regs, kind, s.imm8())), 2)
}

/// RET.
pub open spec fn ret_op(s: CpuState) -> (CpuState, u8) {
    (s.pop16().with_pc(s.top16()), 4)
}

/// RETI: RET with interrupts enabled at once.
pub open spec fn reti_op(s: CpuState) -> (CpuState, u8) {
    let t = ret_op(s).0;
    (t.with_regs(Registers { ime: true, ..t.regs }), 4)
}

/// RET cc.
pub open spec fn ret_cc_op(s: CpuState, cc: u8) -> (CpuState, u8) {
    if condition(s.regs, cc) {
        (ret_op(s).0, 5)
    } else {
        (s, 2)
    }
}

/// POP rr (rr: BC, DE, HL, AF).
pub open spec fn pop_op(s: CpuState, p: u8) -> (CpuState, u8) {
    let t = s.pop16();
    (t.with_regs(t.regs.with_stack_rr(p, s.top16())), 3)
}

/// PUSH rr (rr: BC, DE, HL, AF).
pub open spec fn push_op(s: CpuState, p: u8) -> (CpuState, u8) {
    (s.push16(s.regs.stack_rr(p)), 4)
}

/// JP a16.
pub open spec fn jp_op(s: CpuState) -> (CpuState, u8) {
    (s.with_pc(s.imm16()), 4)
}

/// JP cc,a16.
pub open spec fn jp_cc_op(s: CpuState, cc: u8) -> (CpuState, u8) {
    if condition(s.regs, cc) {
        jp_op(s)
    } else {
        (s.skip(2), 3)
    }
}

/// JP HL.
pub open spec fn jp_hl_op(s: CpuState) -> (CpuState, u8) {
    (s.with_pc(s.regs.hl()), 1)
}

/// Pushes PC and jumps to `addr`.
pub open spec fn call_to(s: CpuState, addr: u16) -> CpuState {
    s.push16(s.regs.pc).with_pc(addr)
}

/// CALL a16: the return address is the one after the operand bytes.
pub open spec fn call_op(s: CpuState) -> (CpuState, u8) {
    (call_to(s.skip(2), s.imm16()), 6)
}

/// CALL cc,a16.
pub open spec fn call_cc_op(s: CpuState, cc: u8) -> (CpuState, u8) {
    if condition(s.regs, cc) {
        call_op(s)
    } else {
        (s.skip(2), 3)
    }
}

/// RST n.
pub open spec fn rst_op(s: CpuState, addr: u16) -> (CpuState, u8) {
    (call_to(s, addr), 4)
}

/// LDH (a8),A.
pub open spec fn ldh_store_op(s: CpuState) -> (CpuState, u8) {
    (s.skip(1).wr(word(0xFF, s.imm8()), s.regs.a), 3)
}

/// LDH A,(a8).
pub open spec fn ldh_load_op(s: CpuState) -> (CpuState, u8) {
    let t = s.skip(1);
    (t.with_regs(Registers { a: s.rd(word(0xFF, s.imm8())), ..t.regs }), 3)
}

/// LD (a16),A.
pub open spec fn store_a16_op(s: CpuState) -> (CpuState, u8) {
    (s.skip(2).wr(s.imm16(), s.regs.a), 4)
}

/// LD A,(a16).
pub open spec fn load_a16_op(s: CpuState) -> (CpuState, u8) {
    let t = s.skip(2);
    (t.with_regs(Registers { a: s.rd(s.imm16()), ..t.regs }), 4)
}

/// ADD SP,e.
pub open spec fn add_sp_op(s: CpuState) -> (CpuState, u8) {
    let t = s.skip(1);
    let e = s.imm8();
    (t.with_regs(Registers { sp: sp_plus(t.regs, e), ..sp_plus_flags(t.regs, e) }), 4)
}

/// LD HL,SP+e.
pub open spec fn ld_hl_sp_op(s: CpuState) -> (CpuState, u8) {
    let t = s.skip(1);
    let e = s.imm8();
    (t.with_regs(sp_plus_flags(t.regs, e).with_hl(sp_plus(t.regs, e))), 3)
}

/// LD SP,HL.
pub open spec fn ld_sp_hl_op(s: CpuState) -> (CpuState, u8) {
    (s.with_sp(s.regs.hl()), 2)
}

/// DI: takes effect at once.
pub open spec fn di_op(s: CpuState) -> (CpuState, u8) {
    (s.with_regs(Registers { ime: false, ..s.regs }), 1)
}

/// EI: takes effect at the next dispatch.
pub open spec fn ei_op(s: CpuState) -> (CpuState, u8) {
    (CpuState { schedule_ei: true, ..s }, 1)
}

/// A prefixed rotate/shift on an operand: one cycle on a register, three
/// on the byte at HL.
pub open spec fn shift_op(s: CpuState, kind: u8, idx: u8) -> (CpuState, u8) {
    let v = s.operand(idx);
    let t = s.with_operand(idx, shift_value(kind, v, s.regs.flag_c()));
    (t.with_regs(shift_regs(t.regs, kind, v)), if idx == 6 { 3 } else { 1 })
}

/// BIT b,operand: one cycle on a register, two on the byte at HL.
pub open spec fn bit_op(s: CpuState, b: u8, idx: u8) -> (CpuState, u8) {
    (s.with_regs(bit_regs(s.regs, b, s.operand(idx))), if idx == 6 { 2 } else { 1 })
}

/// RES b,operand (`set` false) and SET b,operand (`set` true): one cycle on
/// a register, three on the byte at HL.
pub open spec fn res_set_op(s: CpuState, b: u8, idx: u8, set: bool) -> (CpuState, u8) {
    (s.with_operand(idx, with_bit(s.operand(idx), b, set)), if idx == 6 { 3 } else { 1 })
}

/// An operation of the prefixed table, selected by the byte after the
/// prefix, with its own cost (the prefix's fetch not included).
pub open spec fn cb_op(s: CpuState, cb: u8) -> (CpuState, u8) {
    let y = ((cb / 8) % 8) as u8;
    let z = (cb % 8) as u8;
    if cb < 0x40 {
        shift_op(s, y, z)
    } else if cb < 0x80 {
        bit_op(s, y, z)
    } else if cb < 0xC0 {
        res_set_op(s, y, z, false)
    } else {
        res_set_op(s, y, z, true)
    }
}

/// An instruction of the prefixed table: the operation, plus the machine
/// cycle the prefix costs for its own fetch.
pub open spec fn step_cb(s: CpuState, cb: u8) -> (CpuState, u8) {
    let (t, c) = cb_op(s, cb);
    (t, (c + 1) as u8)
}

/// A defined primary opcode, applied to the state after its fetch.
pub open spec fn step(s: CpuState, op: u8) -> (CpuState, u8) {
    if 0x40 <= op < 0x80 && op != 0x76 {
        ld8_op(s, ((op - 0x40) / 8) as u8, (op % 8) as u8)
    } else if 0x80 <= op < 0xC0 {
        alu_op(s, ((op - 0x80) / 8) as u8, (op % 8) as u8)
    } else {
        match op {
            0x00 => (s, 1),
            0x01 => ld16_imm_op(s, 0),
            0x02 => store_a_op(s, s.regs.bc()),
            0x03 => step16_op(s, 0, 1),
            0x04 => inc8_op(s, 0),
            0x05 => dec8_op(s, 0),
            0x06 => ld8_imm_op(s, 0),
            0x07 => rotate_a_op(s, 0),
            0x08 => ld_a16_sp_op(s),
            0x09 => add_hl_op(s, 0),
            0x0A => load_a_op(s, s.regs.bc()),
            0x0B => step16_op(s, 0, -1),
            0x0C => inc8_op(s, 1),
            0x0D => dec8_op(s, 1),
            0x0E => ld8_imm_op(s, 1),
            0x0F => rotate_a_op(s, 1),
            0x10 => stop_op(s),
            0x11 => ld16_imm_op(s, 1),
            0x12 => store_a_op(s, s.regs.de()),
            0x13 => step16_op(s, 1, 1),
            0x14 => inc8_op(s, 2),
            0x15 => dec8_op(s, 2),
            0x16 => ld8_imm_op(s, 2),
            0x17 => rotate_a_op(s, 2),
            0x18 => jr_op(s),
            0x19 => add_hl_op(s, 1),
            0x1A => load_a_op(s, s.regs.de()),
            0x1B => step16_op(s, 1, -1),
            0x1C => inc8_op(s, 3),
            0x1D => dec8_op(s, 3),
            0x1E => ld8_imm_op(s, 3),
            0x1F => rotate_a_op(s, 3),
            0x20 => jr_cc_op(s, 0),
            0x21 => ld16_imm_op(s, 2),
            0x22 => store_a_hl_step_op(s, 1),
            0x23 => step16_op(s, 2, 1),
            0x24 => inc8_op(s, 4),
            0x25 => dec8_op(s, 4),
            0x26 => ld8_imm_op(s, 4),
            0x27 => daa_op(s),
            0x28 => jr_cc_op(s, 1),
            0x29 => add_hl_op(s, 2),
            0x2A => load_a_hl_step_op(s, 1),
            0x2B => step16_op(s, 2, -1),
            0x2C => inc8_op(s, 5),
            0x2D => dec8_op(s, 5),
            0x2E => ld8_imm_op(s, 5),
            0x2F => cpl_op(s),
            0x30 => jr_cc_op(s, 2),
            0x31 => ld16_imm_op(s, 3),
            0x32 => store_a_hl_step_op(s, -1),
            0x33 => step16_op(s, 3, 1),
            0x34 => inc8_op(s, 6),
            0x35 => dec8_op(s, 6),
            0x36 => ld8_imm_op(s, 6),
            0x37 => scf_op(s),
            0x38 => jr_cc_op(s, 3),
            0x39 => add_hl_op(s, 3),
            0x3A => load_a_hl_step_op(s, -1),
            0x3B => step16_op(s, 3, -1),
            0x3C => inc8_op(s, 7),
            0x3D => dec8_op(s, 7),
            0x3E => ld8_imm_op(s, 7),
            0x3F => ccf_op(s),
            0x76 => halt_op(s),
            0xC0 => ret_cc_op(s, 0),
            0xC1 => pop_op(s, 0),
            0xC2 => jp_cc_op(s, 0),
            0xC3 => jp_op(s),
            0xC4 => call_cc_op(s, 0),
            0xC5 => push_op(s, 0),
            0xC6 => alu_imm_op(s, 0),
            0xC7 => rst_op(s, 0x00),
            0xC8 => ret_cc_op(s, 1),
            0xC9 => ret_op(s),
            0xCA => jp_cc_op(s, 1),
            0xCB => step_cb(s.skip(1), s.imm8()),
            0xCC => call_cc_op(s, 1),
            0xCD => call_op(s),
            0xCE => alu_imm_op(s, 1),
            0xCF => rst_op(s, 0x08),
            0xD0 => ret_cc_op(s, 2),
            0xD1 => pop_op(s, 1),
            0xD2 => jp_cc_op(s, 2),
            0xD4 => call_cc_op(s, 2),
            0xD5 => push_op(s, 1),
            0xD6 => alu_imm_op(s, 2),
            0xD7 => rst_op(s, 0x10),
            0xD8 => ret_cc_op(s, 3),
            0xD9 => reti_op(s),
            0xDA => jp_cc_op(s, 3),
            0xDC => call_cc_op(s, 3),
            0xDE => alu_imm_op(s, 3),
            0xDF => rst_op(s, 0x18),
            0xE0 => ldh_store_op(s),
            0xE1 => pop_op(s, 2),
            0xE2 => store_a_op(s, word(0xFF, s.regs.c)),
            0xE5 => push_op(s, 2),
            0xE6 => alu_imm_op(s, 4),
            0xE7 => rst_op(s, 0x20),
            0xE8 => add_sp_op(s),
            0xE9 => jp_hl_op(s),
            0xEA => store_a16_op(s),
            0xEE => alu_imm_op(s, 5),
            0xEF => rst_op(s, 0x28),
            0xF0 => ldh_load_op(s),
            0xF1 => pop_op(s, 3),
            0xF2 => load_a_op(s, word(0xFF, s.regs.c)),
            0xF3 => di_op(s),
            0xF5 => push_op(s, 3),
            0xF6 => alu_imm_op(s, 6),
            0xF7 => rst_op(s, 0x30),
            0xF8 => ld_hl_sp_op(s),
            0xF9 => ld_sp_hl_op(s),
            0xFA => load_a16_op(s),
            0xFB => ei_op(s),
            0xFE => alu_imm_op(s, 7),
            0xFF => rst_op(s, 0x38),
            _ => (s, 0),
        }
    }
}

/// The state once the opcode byte is fetched: PC moves past it, and an EI
/// from the previous instruction takes effect.
pub open spec fn fetched(s: CpuState) -> CpuState {
    let t = s.skip(1);
    if s.schedule_ei {
        CpuState { schedule_ei: false, ..t.with_regs(Registers { ime: true, ..t.regs }) }
    } else {
        t
    }
}

/// One dispatch from a running (not halted) state: the opcode at PC is
/// fetched and executed, or refused when reserved.
pub open spec fn dispatch(s: CpuState) -> (CpuState, Result<u8, CpuError>) {
    let op = s.rd(s.regs.pc);
    if is_reserved(op) {
        (fetched(s), Err(CpuError::ReservedOpcode { opcode: op, pc: s.regs.pc }))
    } else {
        let (t, cost) = step(fetched(s), op);
        (t, Ok(cost))
    }
}

/// The interrupt source of highest priority among the set bits of
/// `pending` (bit 0 highest).
pub open spec fn first_pending(pending: u8) -> u8 {
    if bit_of(pending, 0) {
        0
    } else if bit_of(pending, 1) {
        1
    } else if bit_of(pending, 2) {
        2
    } else if bit_of(pending, 3) {
        3
    } else {
        4
    }
}

/// The service-handler address of interrupt source `i`.
pub open spec fn handler_address(i: u8) -> u16 {
    (0x40 + 8 * i) as u16
}

/// One service step: with IME set and some source both enabled and
/// pending, IME is cleared, the halt ends, the chosen source's pending bit
/// is cleared, PC is pushed and replaced by the handler address, and five
/// cycles are owed on top (the count stops at the top of its byte).
/// Otherwise nothing changes. The flag says whether an interrupt was
/// serviced.
pub open spec fn service(s: CpuState) -> (CpuState, bool) {
    if !s.regs.ime || s.pending() == 0 {
        (s, false)
    } else {
        let i = first_pending(s.pending());
        let t = CpuState { halted: false, ..s.with_regs(Registers { ime: false, ..s.regs }) };
        let u = t.wr(WRAM_IF_OFFSET, with_bit(s.rd(WRAM_IF_OFFSET), i, false));
        let v = call_to(u, handler_address(i));
        (CpuState { busy_for: if s.busy_for <= 250 { (s.busy_for + 5) as u8 } else { 255 }, ..v }, true)
    }
}

/// The state a machine tick reaches before its interrupt check, its result,
/// and whether the check is made. With cycles owed, one is paid and there
/// is no check. Halted, the processor wakes once an interrupt is both
/// enabled and pending. Otherwise it dispatches the next instruction and
/// owes its cost less the cycle of this tick; a reserved opcode stops it
/// with an error and no check.
pub open spec fn tick_body(s: CpuState) -> (CpuState, Result<(), CpuError>, bool) {
    if s.busy_for > 0 {
        (CpuState { busy_for: (s.busy_for - 1) as u8, ..s }, Ok(()), false)
    } else if s.halted {
        let t = if s.pending() != 0 {
            CpuState { halted: false, ..s }
        } else {
            s
        };
        (t, Ok(()), true)
    } else {
        let (t, r) = dispatch(s);
        match r {
            Err(e) => (t, Err(e), false),
            Ok(cost) => (
                CpuState { busy_for: if cost > 0 { (cost - 1) as u8 } else { 0 }, ..t },
                Ok(()),
                true,
            ),
        }
    }
}

/// One machine tick: its body, then, where the body calls for it, one
/// interrupt service step (serviced only with IME set).
pub open spec fn tick(s: CpuState) -> (CpuState, Result<(), CpuError>) {
    let (t, r, check) = tick_body(s);
    if check {
        (service(t).0, r)
    } else {
        (t, r)
    }
}

} // verus!
