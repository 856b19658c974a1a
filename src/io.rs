//! The timer: the divider and the programmable counter whose registers sit
//! on the bus, stepped once per machine cycle, raising the Timer interrupt
//! when the counter overflows.
use vstd::prelude::*;

use crate::cpu::WRAM_IF_OFFSET;
use crate::mmu::Mmu;
use crate::utils::{self, with_bit};

verus! {

/// Divider register.
pub const REGISTER_DIV_ADDRESS: u16 = 0xFF04;

/// Timer counter.
pub const REGISTER_TIMA_ADDRESS: u16 = 0xFF05;

/// Timer modulo: the value the counter reloads with after an overflow.
pub const REGISTER_TMA_ADDRESS: u16 = 0xFF06;

/// Timer control: bit 2 enables the counter, bits 0-1 select its rate.
pub const REGISTER_TAC_ADDRESS: u16 = 0xFF07;

/// Bit of the Timer interrupt in the pending register.
pub const TIMER_INTERRUPT_BIT: u8 = 2;

/// Whether the timer control value enables the counter.
pub open spec fn timer_on(tac: u8) -> bool {
    tac & 0b100 == 0b100
}

/// Machine cycles between two counter increments, by the rate bits.
pub open spec fn timer_period(tac: u8) -> u16 {
    let sel = tac & 0b11;
    if sel == 0 {
        256
    } else if sel == 1 {
        4
    } else if sel == 2 {
        16
    } else {
        64
    }
}

/// The timer's own state besides its registers: the cycles it has seen.
#[derive(Debug, Clone, Copy, PartialEq, Eq, Structural)]
pub struct Io {
    pub cycles: u16,
}

/// The bus and cycle count after one timer step. The divider counts every
/// cycle. When enabled, the counter counts each `timer_period` cycles; on
/// overflow it reloads from the modulo register and the Timer interrupt is
/// requested.
pub open spec fn timer_step(io: Io, mem: Seq<u8>) -> (Io, Seq<u8>, bool) {
    let div = mem[REGISTER_DIV_ADDRESS as int];
    let tima = mem[REGISTER_TIMA_ADDRESS as int];
    let tma = mem[REGISTER_TMA_ADDRESS as int];
    let tac = mem[REGISTER_TAC_ADDRESS as int];
    let m1 = mem.update(REGISTER_DIV_ADDRESS as int, ((div + 1) % 256) as u8);
    let next = Io { cycles: ((io.cycles + 1) % 0x10000) as u16 };
    if timer_on(tac) && io.cycles % timer_period(tac) == 0 {
        if tima == 0xFF {
            let m2 = m1.update(REGISTER_TIMA_ADDRESS as int, tma);
            let flags = m2[WRAM_IF_OFFSET as int];
            (next, m2.update(WRAM_IF_OFFSET as int, with_bit(flags, TIMER_INTERRUPT_BIT, true)), true)
        } else {
            (next, m1.update(REGISTER_TIMA_ADDRESS as int, (tima + 1) as u8), false)
        }
    } else {
        (next, m1, false)
    }
}

impl Io {
    pub fn new() -> (r: Io)
        ensures
            r.cycles == 0,
    {
        Io { cycles: 0 }
    }

    /// Whether the counter is enabled by `tac`.
    fn timer_enabled(tac: u8) -> (r: bool)
        ensures
            r == timer_on(tac),
    {
        tac & 0b100 == 0b100
    }

    /// Cycles between counter increments for `tac`.
    fn clock_select(tac: u8) -> (r: u16)
        ensures
            r == timer_period(tac),
            r > 0,
    {
        let val = tac & 0b11;
        if val == 0 {
            256
        } else if val == 1 {
            4
        } else if val == 2 {
            16
        } else {
            64
        }
    }

    /// Clears the divider.
    pub fn reset_div(&mut self, mmu: &mut Mmu)
        ensures
            *final(self) == *old(self),
            final(mmu)@ == old(mmu)@.update(REGISTER_DIV_ADDRESS as int, 0),
            final(mmu).rom_locked == old(mmu).rom_locked,
    {
        mmu.write_u8(REGISTER_DIV_ADDRESS, 0x00);
    }

    /// One machine cycle of the timer; tells whether the Timer interrupt was
    /// requested.
    pub fn cycle(&mut self, mmu: &mut Mmu) -> (r: bool)
        ensures
            (*final(self), final(mmu)@, r) == timer_step(*old(self), old(mmu)@),
            final(mmu).rom_locked == old(mmu).rom_locked,
    {
        let div = mmu.read_u8(REGISTER_DIV_ADDRESS);
        let tima = mmu.read_u8(REGISTER_TIMA_ADDRESS);
        let tma = mmu.read_u8(REGISTER_TMA_ADDRESS);
        let tac = mmu.read_u8(REGISTER_TAC_ADDRESS);
        mmu.write_u8(REGISTER_DIV_ADDRESS, div.wrapping_add(1));
        let due = Self::timer_enabled(tac) && self.cycles % Self::clock_select(tac) == 0;
        self.cycles = self.cycles.wrapping_add(1);
        if due {
            if tima == 0xFF {
                mmu.write_u8(REGISTER_TIMA_ADDRESS, tma);
                let flags = mmu.read_u8(WRAM_IF_OFFSET);
                mmu.write_u8(WRAM_IF_OFFSET, utils::set_bit(flags, TIMER_INTERRUPT_BIT, true));
                return true;
            } else {
                mmu.write_u8(REGISTER_TIMA_ADDRESS, tima + 1);
            }
        }
        false
    }
}

} // verus!
