//! What each arithmetic-logic operation computes, with its exact flag
//! effects, as functions of the register file and the operand.
use vstd::prelude::*;

use crate::registers::Registers;
use crate::utils::bit_of;

verus! {

/// The byte that `x` wraps to.
pub open spec fn wrap8(x: int) -> u8 {
    (x % 256) as u8
}

/// The word that `x` wraps to.
pub open spec fn wrap16(x: int) -> u16 {
    (x % 0x10000) as u16
}

/// A displacement byte read as a two's-complement signed value.
pub open spec fn signed8(e: u8) -> int {
    if e < 128 {
        e as int
    } else {
        e as int - 256
    }
}

pub open spec fn carry_in(r: Registers, with_carry: bool) -> int {
    if with_carry && r.flag_c() {
        1
    } else {
        0
    }
}

/// ADD (and ADC with `with_carry`): A + v (+ carry).
pub open spec fn add8_regs(r: Registers, v: u8, with_carry: bool) -> Registers {
    let c = carry_in(r, with_carry);
    let res = wrap8(r.a + v + c);
    Registers { a: res, ..r }.with_flags(
        res == 0,
        false,
        (r.a & 0x0F) + (v & 0x0F) + c > 0x0F,
        r.a + v + c > 0xFF,
    )
}

/// SUB (and SBC with `with_carry`): A - v (- carry).
pub open spec fn sub8_regs(r: Registers, v: u8, with_carry: bool) -> Registers {
    let c = carry_in(r, with_carry);
    let res = wrap8(r.a - v - c);
    Registers { a: res, ..r }.with_flags(
        res == 0,
        true,
        (r.a & 0x0F) < (v & 0x0F) + c,
        (r.a as int) < v + c,
    )
}

/// CP: the flags of SUB, the accumulator unchanged.
pub open spec fn cp_regs(r: Registers, v: u8) -> Registers {
    Registers { a: r.a, ..sub8_regs(r, v, false) }
}

pub open spec fn and_regs(r: Registers, v: u8) -> Registers {
    let res = r.a & v;
    Registers { a: res, ..r }.with_flags(res == 0, false, true, false)
}

pub open spec fn xor_regs(r: Registers, v: u8) -> Registers {
    let res = r.a ^ v;
    Registers { a: res, ..r }.with_flags(res == 0, false, false, false)
}

pub open spec fn or_regs(r: Registers, v: u8) -> Registers {
    let res = r.a | v;
    Registers { a: res, ..r }.with_flags(res == 0, false, false, false)
}

/// The accumulator operation selected by a 3-bit index:
/// 0 ADD, 1 ADC, 2 SUB, 3 SBC, 4 AND, 5 XOR, 6 OR, 7 CP.
pub open spec fn alu_regs(r: Registers, kind: u8, v: u8) -> Registers {
    if kind == 0 {
        add8_regs(r, v, false)
    } else if kind == 1 {
        add8_regs(r, v, true)
    } else if kind == 2 {
        sub8_regs(r, v, false)
    } else if kind == 3 {
        sub8_regs(r, v, true)
    } else if kind == 4 {
        and_regs(r, v)
    } else if kind == 5 {
        xor_regs(r, v)
    } else if kind == 6 {
        or_regs(r, v)
    } else {
        cp_regs(r, v)
    }
}

pub open spec fn inc8_value(v: u8) -> u8 {
    wrap8(v + 1)
}

pub open spec fn dec8_value(v: u8) -> u8 {
    wrap8(v - 1)
}

/// Flags after INC of `v`: half-carry is the carry out of bit 3; Carry
/// is left alone.
pub open spec fn inc8_regs(r: Registers, v: u8) -> Registers {
    r.with_flags(inc8_value(v) == 0, false, (v & 0x0F) + 1 > 0x0F, r.flag_c())
}

/// Flags after DEC of `v`: half-carry is the borrow into bit 4; Carry is
/// left alone.
pub open spec fn dec8_regs(r: Registers, v: u8) -> Registers {
    r.with_flags(dec8_value(v) == 0, true, (v & 0x0F) < 1, r.flag_c())
}

/// ADD HL,v: half-carry out of bit 11, carry out of bit 15, Zero kept.
pub open spec fn add16_regs(r: Registers, v: u16) -> Registers {
    let hl = r.hl();
    r.with_hl(wrap16(hl + v)).with_flags(
        r.flag_z(),
        false,
        (hl & 0x0FFF) + (v & 0x0FFF) > 0x0FFF,
        hl + v > 0xFFFF,
    )
}

/// SP plus a signed displacement.
pub open spec fn sp_plus(r: Registers, e: u8) -> u16 {
    wrap16(r.sp + signed8(e))
}

/// Flags of SP plus a signed displacement: Zero and Subtract cleared,
/// half-carry and carry from the unsigned low-byte addition.
pub open spec fn sp_plus_flags(r: Registers, e: u8) -> Registers {
    r.with_flags(false, false, (r.sp & 0x0F) + (e & 0x0F) > 0x0F, (r.sp & 0xFF) + e > 0xFF)
}

/// The rotate/shift selected by a 3-bit index:
/// 0 RLC, 1 RRC, 2 RL, 3 RR, 4 SLA, 5 SRA, 6 SLL, 7 SRL.
pub open spec fn shift_value(kind: u8, v: u8, carry: bool) -> u8 {
    if kind == 0 {
        (v << 1u8) | (v >> 7u8)
    } else if kind == 1 {
        (v >> 1u8) | (v << 7u8)
    } else if kind == 2 {
        (v << 1u8) | (if carry { 1u8 } else { 0u8 })
    } else if kind == 3 {
        (v >> 1u8) | (if carry { 0x80u8 } else { 0u8 })
    } else if kind == 4 || kind == 6 {
        v << 1u8
    } else if kind == 5 {
        (v & 0x80u8) | (v >> 1u8)
    } else {
        v >> 1u8
    }
}

/// The bit a rotate/shift moves into Carry: bit 7 for the left-going
/// kinds, bit 0 for the right-going ones.
pub open spec fn shift_carry(kind: u8, v: u8) -> bool {
    if kind % 2 == 0 {
        (v >> 7u8) == 1
    } else {
        (v & 1u8) == 1
    }
}

/// Flags after a rotate/shift of `v` on a register or memory operand.
pub open spec fn shift_regs(r: Registers, kind: u8, v: u8) -> Registers {
    r.with_flags(shift_value(kind, v, r.flag_c()) == 0, false, false, shift_carry(kind, v))
}

/// BIT b,v: Zero is the inverse of the tested bit, Half-carry set,
/// Subtract cleared, Carry kept.
pub open spec fn bit_regs(r: Registers, b: u8, v: u8) -> Registers {
    r.with_flags(!bit_of(v, b), false, true, r.flag_c())
}

/// The accumulator after decimal adjustment, and the carry it leaves.
pub open spec fn daa_value(r: Registers) -> (u8, bool) {
    if !r.flag_n() {
        let c = r.flag_c() || r.a > 0x99;
        let a1 = if c { wrap8(r.a + 0x60) } else { r.a };
        let a2 = if r.flag_h() || (r.a & 0x0F) > 0x09 { wrap8(a1 + 0x06) } else { a1 };
        (a2, c)
    } else {
        let a1 = if r.flag_c() { wrap8(r.a - 0x60) } else { r.a };
        let a2 = if r.flag_h() { wrap8(a1 - 0x06) } else { a1 };
        (a2, r.flag_c())
    }
}

/// DAA: packed-BCD correction after an addition or a subtraction.
pub open spec fn daa_regs(r: Registers) -> Registers {
    let (a, c) = daa_value(r);
    Registers { a: a, ..r }.with_flags(a == 0, r.flag_n(), false, c)
}

/// The condition selected by a 2-bit index: 0 NZ, 1 Z, 2 NC, 3 C.
pub open spec fn condition(r: Registers, cc: u8) -> bool {
    if cc == 0 {
        !r.flag_z()
    } else if cc == 1 {
        r.flag_z()
    } else if cc == 2 {
        !r.flag_c()
    } else {
        r.flag_c()
    }
}

} // verus!
