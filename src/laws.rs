//! Properties of the instruction set that span several calls or hold for
//! every state.
use vstd::prelude::*;

use crate::alu::{add8_regs, alu_regs, daa_regs, daa_value, sp_plus_flags, sub8_regs, wrap8, wrap16};
use crate::cpu::{CpuState, WRAM_IE_OFFSET, WRAM_IF_OFFSET};
use crate::mmu::next_addr;
use crate::registers::{lemma_flags_byte, Registers};
use crate::utils::{bit_of, lo, with_bit};
use crate::semantics::{
    dispatch, fetched, first_pending, is_reserved, service, step, step_cb, tick, tick_body,
};

verus! {

/// NOP at any address moves PC past itself, costs one machine cycle, and
/// changes nothing else (no EI is waiting to take effect).
pub proof fn lemma_nop_changes_only_pc(s: CpuState)
    requires
        !s.schedule_ei,
        s.rd(s.regs.pc) == 0x00,
    ensures
        dispatch(s) == (s.skip(1), Ok::<u8, crate::cpu::CpuError>(1)),
{
}

/// EI immediately followed by DI never services an interrupt, even one that
/// is already enabled and pending: after the two ticks that dispatch them,
/// IME is still clear, PC has simply moved past both, nothing has been
/// pushed and the pending register is untouched.
pub proof fn lemma_ei_then_di_never_services(s: CpuState)
    requires
        !s.halted,
        s.busy_for == 0,
        !s.regs.ime,
        !s.schedule_ei,
        s.pending() != 0,
        s.rd(s.regs.pc) == 0xFB,
        s.rd(next_addr(s.regs.pc)) == 0xF3,
    ensures
        ({
            let (s1, r1) = tick(s);
            let (s2, r2) = tick(s1);
            &&& r1 is Ok
            &&& r2 is Ok
            &&& !s2.regs.ime
            &&& !s2.schedule_ei
            &&& s2.regs.pc == wrap16(s.regs.pc + 2)
            &&& s2.regs.sp == s.regs.sp
            &&& s2.mem == s.mem
        }),
{
    assert(next_addr(s.regs.pc) == wrap16(s.regs.pc + 1));
}

/// Replacing the flags keeps the low nibble of F as it was.
pub broadcast proof fn lemma_with_flags_wf(r: Registers, z: bool, n: bool, h: bool, c: bool)
    ensures
        #[trigger] r.with_flags(z, n, h, c).wf() == r.wf(),
{
    lemma_flags_byte(r.f, z, n, h, c);
}

/// Loading AF always leaves the low nibble of F zero.
pub broadcast proof fn lemma_with_af_wf(r: Registers, v: u16)
    ensures
        #[trigger] r.with_af(v).wf(),
{
    let l = lo(v);
    assert((l & 0xF0) & 0x0F == 0) by (bit_vector);
}

/// Every accumulator operation keeps the low nibble of F zero.
pub proof fn lemma_alu_wf(r: Registers, kind: u8, v: u8)
    requires
        r.wf(),
    ensures
        alu_regs(r, kind, v).wf(),
{
    broadcast use lemma_with_flags_wf;

    if kind == 0 {
        assert(alu_regs(r, kind, v).wf());
    } else if kind == 1 {
        assert(alu_regs(r, kind, v).wf());
    } else if kind == 2 {
        assert(alu_regs(r, kind, v).wf());
    } else if kind == 3 {
        assert(alu_regs(r, kind, v).wf());
    } else if kind == 4 {
        assert(alu_regs(r, kind, v).wf());
    } else if kind == 5 {
        assert(alu_regs(r, kind, v).wf());
    } else if kind == 6 {
        assert(alu_regs(r, kind, v).wf());
    } else {
        assert(sub8_regs(r, v, false).wf());
    }
}

/// Every instruction keeps the low nibble of F zero.
#[verifier::rlimit(50)]
pub proof fn lemma_step_keeps_flags_well_formed(s: CpuState, op: u8)
    requires
        s.regs.wf(),
    ensures
        step(s, op).0.regs.wf(),
{
    broadcast use lemma_with_flags_wf, lemma_with_af_wf;

    if op < 0x40 {
        assert(step(s, op).0.regs.wf());
    } else if op < 0x80 {
        assert(step(s, op).0.regs.wf());
    } else if op < 0xC0 {
        lemma_alu_wf(s.regs, ((op - 0x80) / 8) as u8, s.operand((op % 8) as u8));
        assert(step(s, op).0.regs.wf());
    } else if op == 0xCB {
        let t = s.skip(1);
        let cb = s.imm8();
        assert(step_cb(t, cb).0.regs.wf());
    } else {
        let t = s.skip(1);
        lemma_alu_wf(t.regs, ((op - 0xC0) / 8) as u8, s.imm8());
        assert(s.pop16().regs.with_af(s.top16()).wf());
        assert(sp_plus_flags(t.regs, s.imm8()).wf());
        assert(step(s, op).0.regs.wf());
    }
}

/// A whole machine tick keeps the low nibble of F zero.
pub proof fn lemma_tick_keeps_flags_well_formed(s: CpuState)
    requires
        s.regs.wf(),
    ensures
        tick(s).0.regs.wf(),
{
    lemma_step_keeps_flags_well_formed(fetched(s), s.rd(s.regs.pc));
}

/// With IME set, VBlank both enabled and pending, PC at 0x1234 and SP at
/// 0xFFFE, one service step jumps to 0x0040, clears VBlank's pending bit and
/// IME, and leaves the return address at 0xFFFC/0xFFFD, low byte first.
pub proof fn lemma_service_vblank(s: CpuState)
    requires
        s.mem.len() == 0x10000,
        s.regs.ime,
        bit_of(s.rd(WRAM_IE_OFFSET), 0),
        bit_of(s.rd(WRAM_IF_OFFSET), 0),
        s.regs.pc == 0x1234,
        s.regs.sp == 0xFFFE,
    ensures
        ({
            let (t, serviced) = service(s);
            &&& serviced
            &&& t.regs.pc == 0x0040
            &&& !bit_of(t.rd(WRAM_IF_OFFSET), 0)
            &&& !t.regs.ime
            &&& t.regs.sp == 0xFFFC
            &&& t.rd(0xFFFC) == 0x34
            &&& t.rd(0xFFFD) == 0x12
        }),
{
    let ie = s.rd(WRAM_IE_OFFSET);
    let iff = s.rd(WRAM_IF_OFFSET);
    assert(bit_of(ie, 0) && bit_of(iff, 0) ==> bit_of(ie & iff & 0x1F, 0) && (ie & iff & 0x1F) != 0)
        by (bit_vector);
    assert(!bit_of(with_bit(iff, 0, false), 0)) by (bit_vector);
    assert(first_pending(s.pending()) == 0);
}

/// Opcodes other than EI and RETI never set IME, and leave the scheduled
/// enable as the fetch left it.
#[verifier::rlimit(50)]
pub proof fn lemma_step_keeps_ime(s: CpuState, op: u8)
    requires
        op != 0xFB,
        op != 0xD9,
    ensures
        (step(s, op).0.regs.ime ==> s.regs.ime),
        step(s, op).0.schedule_ei == s.schedule_ei,
{
    if op < 0x40 {
        assert((step(s, op).0.regs.ime ==> s.regs.ime));
    } else if op < 0x80 {
        assert((step(s, op).0.regs.ime ==> s.regs.ime));
    } else if op < 0xC0 {
        assert((step(s, op).0.regs.ime ==> s.regs.ime));
    } else if op == 0xCB {
        assert((step_cb(s.skip(1), s.imm8()).0.regs.ime ==> s.regs.ime));
    } else {
        let t = s.skip(1);
        lemma_alu_keeps_ime(t.regs, ((op - 0xC0) / 8) as u8, s.imm8());
        assert((step(s, op).0.regs.ime ==> s.regs.ime));
    }
}

/// Accumulator operations leave IME alone.
pub proof fn lemma_alu_keeps_ime(r: Registers, kind: u8, v: u8)
    ensures
        alu_regs(r, kind, v).ime == r.ime,
{
    if kind == 0 {
    } else if kind == 1 {
    } else if kind == 2 {
    } else if kind == 3 {
    } else if kind == 4 {
    } else if kind == 5 {
    } else if kind == 6 {
    } else {
    }
}

/// Whether the next tick dispatches EI or RETI, the two instructions that
/// turn interrupts on.
pub open spec fn enables_next(s: CpuState) -> bool {
    s.busy_for == 0 && !s.halted && (s.rd(s.regs.pc) == 0xFB || s.rd(s.regs.pc) == 0xD9)
}

/// With IME clear and no enable scheduled, a tick that does not dispatch EI
/// or RETI services nothing (it is its body alone) and leaves IME clear
/// and no enable scheduled.
pub proof fn lemma_quiet_tick(s: CpuState)
    requires
        !s.regs.ime,
        !s.schedule_ei,
        !enables_next(s),
    ensures
        tick(s) == (tick_body(s).0, tick_body(s).1),
        !tick(s).0.regs.ime,
        !tick(s).0.schedule_ei,
{
    if s.busy_for == 0 && !s.halted {
        let op = s.rd(s.regs.pc);
        if !is_reserved(op) {
            lemma_step_keeps_ime(fetched(s), op);
        }
    }
}

/// The state after `n` ticks.
pub open spec fn run(s: CpuState, n: nat) -> CpuState
    decreases n,
{
    if n == 0 {
        s
    } else {
        run(tick(s).0, (n - 1) as nat)
    }
}

/// None of the next `n` ticks dispatches EI or RETI.
pub open spec fn quiet(s: CpuState, n: nat) -> bool
    decreases n,
{
    n == 0 || (!enables_next(s) && quiet(tick(s).0, (n - 1) as nat))
}

/// Once IME is clear with no enable scheduled (as right after EI then DI),
/// IME stays clear through any run of ticks that dispatches neither EI nor
/// RETI; by `lemma_quiet_tick`, none of those ticks services an interrupt.
pub proof fn lemma_ime_stays_clear(s: CpuState, n: nat)
    requires
        !s.regs.ime,
        !s.schedule_ei,
        quiet(s, n),
    ensures
        !run(s, n).regs.ime,
        !run(s, n).schedule_ei,
    decreases n,
{
    if n > 0 {
        lemma_quiet_tick(s);
        lemma_ime_stays_clear(tick(s).0, (n - 1) as nat);
    }
}

/// The decimal value of a packed-BCD byte.
pub open spec fn bcd_value(x: u8) -> int {
    (x / 16) as int * 10 + (x % 16) as int
}

/// Both digits of `x` are decimal.
pub open spec fn is_bcd(x: u8) -> bool {
    x % 16 <= 9 && x / 16 <= 9
}

/// After adding two packed-BCD bytes, DAA gives the packed-BCD sum modulo
/// 100, with Carry telling whether it reached 100.
pub proof fn lemma_daa_after_add(r: Registers, b: u8)
    requires
        is_bcd(r.a),
        is_bcd(b),
    ensures
        is_bcd(daa_regs(add8_regs(r, b, false)).a),
        bcd_value(daa_regs(add8_regs(r, b, false)).a) == (bcd_value(r.a) + bcd_value(b)) % 100,
        daa_regs(add8_regs(r, b, false)).flag_c() == (bcd_value(r.a) + bcd_value(b) >= 100),
{
    let a = r.a;
    let t = add8_regs(r, b, false);
    let res = wrap8(a + b);
    lemma_flags_byte(Registers { a: res, ..r }.f, res == 0, false, (a & 0x0F) + (b & 0x0F) > 0x0F, a + b > 0xFF);
    assert(t.a == res);
    assert(!t.flag_n());
    assert(t.flag_h() == ((a & 0x0F) + (b & 0x0F) > 0x0F));
    assert(t.flag_c() == (a + b > 0xFF));
    let (a2, c2) = daa_value(t);
    lemma_flags_byte(Registers { a: a2, ..t }.f, a2 == 0, false, false, c2);
    assert({
        let h = (a & 0x0F) + (b & 0x0F) > 0x0F;
        let c = a + b > 0xFF;
        let res = ((a + b) % 256) as u8;
        let c2 = c || res > 0x99;
        let a1 = if c2 { ((res + 0x60) % 256) as u8 } else { res };
        let a2 = if h || (res & 0x0F) > 0x09 { ((a1 + 0x06) % 256) as u8 } else { a1 };
        &&& a2 % 16 <= 9 && a2 / 16 <= 9
        &&& (a2 / 16) * 10 + a2 % 16 == ((a / 16) * 10 + a % 16 + (b / 16) * 10 + b % 16) % 100
        &&& c2 == ((a / 16) * 10 + a % 16 + (b / 16) * 10 + b % 16 >= 100)
    }) by (bit_vector)
        requires
            a % 16 <= 9 && a / 16 <= 9,
            b % 16 <= 9 && b / 16 <= 9,
    ;
}

/// The digit arithmetic behind DAA after a subtraction.
proof fn lemma_bcd_sub_digits(a: u8, b: u8)
    by (bit_vector)
    requires
        a % 16 <= 9 && a / 16 <= 9,
        b % 16 <= 9 && b / 16 <= 9,
    ensures
        ({
            let h = (a & 0x0F) < (b & 0x0F);
            let c = a < b;
            let res = ((a - b) % 256) as u8;
            let a1 = if c { ((res - 0x60) % 256) as u8 } else { res };
            let a2 = if h { ((a1 - 0x06) % 256) as u8 } else { a1 };
            &&& a2 % 16 <= 9 && a2 / 16 <= 9
            &&& (a2 / 16) * 10 + a2 % 16 == ((a / 16) * 10 + a % 16 + 100 - (b / 16) * 10 - b
                % 16) % 100
        }),
{
}

/// After subtracting two packed-BCD bytes, DAA gives the packed-BCD
/// difference modulo 100, with Carry telling whether it borrowed.
#[verifier::rlimit(100)]
pub proof fn lemma_daa_after_sub(r: Registers, b: u8)
    requires
        is_bcd(r.a),
        is_bcd(b),
    ensures
        is_bcd(daa_regs(sub8_regs(r, b, false)).a),
        bcd_value(daa_regs(sub8_regs(r, b, false)).a) == (bcd_value(r.a) + 100 - bcd_value(b)) % 100,
        daa_regs(sub8_regs(r, b, false)).flag_c() == (bcd_value(r.a) < bcd_value(b)),
{
    let a = r.a;
    let t = sub8_regs(r, b, false);
    let res = wrap8(a - b);
    lemma_flags_byte(Registers { a: res, ..r }.f, res == 0, true, (a & 0x0F) < (b & 0x0F), (a as int) < b);
    assert(t.a == res);
    assert(t.flag_n());
    assert(t.flag_h() == ((a & 0x0F) < (b & 0x0F)));
    assert(t.flag_c() == ((a as int) < b));
    let (a2, c2) = daa_value(t);
    lemma_flags_byte(Registers { a: a2, ..t }.f, a2 == 0, true, false, c2);
    lemma_bcd_sub_digits(a, b);
}

} // verus!
