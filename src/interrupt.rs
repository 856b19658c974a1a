//! Interrupt sources and their servicing.
use vstd::prelude::*;

use crate::cpu::{Cpu, WRAM_IE_OFFSET, WRAM_IF_OFFSET};
use crate::semantics::{first_pending, handler_address, service};
use crate::utils::{self, bit_of, with_bit};

verus! {

/// The interrupt sources, in priority order.
#[derive(Debug, Clone, Copy, PartialEq, Eq, Structural)]
pub enum Interrupt {
    VBlank,
    LCD,
    Timer,
    Serial,
    Joypad,
}

impl Interrupt {
    /// The source's bit in the enable and pending registers.
    pub open spec fn bit(self) -> u8 {
        match self {
            Interrupt::VBlank => 0,
            Interrupt::LCD => 1,
            Interrupt::Timer => 2,
            Interrupt::Serial => 3,
            Interrupt::Joypad => 4,
        }
    }

    /// Whether this source's bit is set in `reg_val`.
    pub fn is_set(self, reg_val: u8) -> (r: bool)
        ensures
            r == bit_of(reg_val, self.bit()),
    {
        ((reg_val >> self.bit_index()) & 1) == 1
    }

    /// This source's bit index.
    pub fn bit_index(self) -> (r: u8)
        ensures
            r == self.bit(),
            r < 5,
    {
        match self {
            Self::VBlank => 0,
            Self::LCD => 1,
            Self::Timer => 2,
            Self::Serial => 3,
            Self::Joypad => 4,
        }
    }

    /// This source's service-handler address.
    pub fn address(self) -> (r: u16)
        ensures
            r == handler_address(self.bit()),
    {
        match self {
            Self::VBlank => 0x40,
            Self::LCD => 0x48,
            Self::Timer => 0x50,
            Self::Serial => 0x58,
            Self::Joypad => 0x60,
        }
    }
}

impl Cpu {
    /// Requests an interrupt by setting its bit in the pending register.
    pub fn request_interrupt(&mut self, source: Interrupt)
        ensures
            final(self)@ == old(self)@.wr(
                WRAM_IF_OFFSET,
                with_bit(old(self)@.rd(WRAM_IF_OFFSET), source.bit(), true),
            ),
    {
        let flags = self.mmu.read_u8(WRAM_IF_OFFSET);
        self.mmu.write_u8(WRAM_IF_OFFSET, utils::set_bit(flags, source.bit_index(), true));
    }

    /// Acknowledges an interrupt by clearing its bit in the pending register.
    fn acknowledge_interrupt(&mut self, source: Interrupt)
        ensures
            final(self)@ == old(self)@.wr(
                WRAM_IF_OFFSET,
                with_bit(old(self)@.rd(WRAM_IF_OFFSET), source.bit(), false),
            ),
    {
        let flags = self.mmu.read_u8(WRAM_IF_OFFSET);
        self.mmu.write_u8(WRAM_IF_OFFSET, utils::set_bit(flags, source.bit_index(), false));
    }

    /// Whether some interrupt is both enabled and pending.
    pub fn interrupt_pending(&self) -> (r: bool)
        ensures
            r == (self@.pending() != 0),
    {
        let enabled = self.mmu.read_u8(WRAM_IE_OFFSET);
        let requested = self.mmu.read_u8(WRAM_IF_OFFSET);
        (enabled & requested & 0x1F) != 0
    }

    /// Services the interrupt of highest priority that is both enabled and
    /// pending, if IME is set; tells whether one was serviced.
    pub fn handle_interrupts(&mut self) -> (r: bool)
        ensures
            (final(self)@, r) == service(old(self)@),
    {
        let enabled = self.mmu.read_u8(WRAM_IE_OFFSET);
        let requested = self.mmu.read_u8(WRAM_IF_OFFSET);
        let pending = enabled & requested & 0x1F;
        if !self.registers.ime || pending == 0 {
            return false;
        }
        self.registers.ime = false;
        self.halted = false;
        let source = if Interrupt::VBlank.is_set(pending) {
            Interrupt::VBlank
        } else if Interrupt::LCD.is_set(pending) {
            Interrupt::LCD
        } else if Interrupt::Timer.is_set(pending) {
            Interrupt::Timer
        } else if Interrupt::Serial.is_set(pending) {
            Interrupt::Serial
        } else {
            Interrupt::Joypad
        };
        assert(source.bit() == first_pending(pending));
        self.acknowledge_interrupt(source);
        self.call(source.address());
        self.busy_for = self.busy_for.saturating_add(5);
        true
    }
}

} // verus!
