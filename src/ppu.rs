//! The picture unit's timing: the mode state machine and the line counter
//! LY on the bus, which raises the VBlank interrupt when the last visible
//! line is done.
use vstd::prelude::*;

use crate::cpu::WRAM_IF_OFFSET;
use crate::mmu::Mmu;
use crate::utils::{self, with_bit};

verus! {

/// Address of the LY register on the bus.
pub const LY_ADDRESS: u16 = 0xFF44;

/// The first line of the vertical blank.
pub const LY_VBLANK_START: u8 = 144;

/// Bit of the VBlank interrupt in the pending register.
pub const VBLANK_INTERRUPT_BIT: u8 = 0;

/// PPU State. State cycles throughout operation and determines what the PPU does.
#[derive(Debug, Clone, Copy, PartialEq, Eq, Structural)]
pub enum State {
    /// Load sprite pixels for current scanline.
    OAMSearch,
    /// Draw pixels to LCD (pass them to the renderer).
    PixelTransfer,
    /// Idle for remainder of scanline.
    HBlank,
    /// Idle for V-Blank scanlines.
    VBlank,
}

#[derive(Debug, Clone, Copy, PartialEq, Eq, Structural)]
pub struct Ppu {
    /// PPU State.
    pub state: State,
    /// Cycles seen so far.
    pub t_cycle: u16,
}

/// The state and bus after one cycle of the picture unit. The search phase
/// ends on a multiple of 80 cycles, the transfer after one cycle, a line on
/// a multiple of 456 (LY moves on, and after the last visible line the
/// vertical blank begins and VBlank is requested), and the vertical blank
/// on a multiple of 4560 (LY back to zero).
pub open spec fn ppu_step(p: Ppu, mem: Seq<u8>) -> (Ppu, Seq<u8>) {
    let t = ((p.t_cycle + 1) % 0x10000) as u16;
    let ly = mem[LY_ADDRESS as int];
    match p.state {
        State::OAMSearch => if p.t_cycle % 80 == 0 {
            (Ppu { state: State::PixelTransfer, t_cycle: t }, mem)
        } else {
            (Ppu { state: State::OAMSearch, t_cycle: t }, mem)
        },
        State::PixelTransfer => (Ppu { state: State::HBlank, t_cycle: t }, mem),
        State::HBlank => if p.t_cycle % 456 == 0 {
            let ly2 = ((ly + 1) % 256) as u8;
            let m = mem.update(LY_ADDRESS as int, ly2);
            if ly2 >= LY_VBLANK_START {
                let flags = m[WRAM_IF_OFFSET as int];
                (
                    Ppu { state: State::VBlank, t_cycle: t },
                    m.update(WRAM_IF_OFFSET as int, with_bit(flags, VBLANK_INTERRUPT_BIT, true)),
                )
            } else {
                (Ppu { state: State::OAMSearch, t_cycle: t }, m)
            }
        } else {
            (Ppu { state: State::HBlank, t_cycle: t }, mem)
        },
        State::VBlank => if p.t_cycle % 4560 == 0 {
            (Ppu { state: State::OAMSearch, t_cycle: t }, mem.update(LY_ADDRESS as int, 0))
        } else {
            (Ppu { state: State::VBlank, t_cycle: t }, mem)
        },
    }
}

impl Ppu {
    pub fn new() -> (r: Ppu)
        ensures
            r.state == State::OAMSearch,
            r.t_cycle == 0,
    {
        Ppu { t_cycle: 0, state: State::OAMSearch }
    }

    pub fn state(&self) -> (r: State)
        ensures
            r == self.state,
    {
        self.state
    }

    /// The LY register.
    pub fn ly(&self, mmu: &Mmu) -> (r: u8)
        ensures
            r == mmu@[LY_ADDRESS as int],
    {
        mmu.read_u8(LY_ADDRESS)
    }

    /// Sets LY.
    fn set_ly(&self, mmu: &mut Mmu, val: u8)
        ensures
            final(mmu)@ == old(mmu)@.update(LY_ADDRESS as int, val),
            final(mmu).rom_locked == old(mmu).rom_locked,
    {
        mmu.write_u8(LY_ADDRESS, val);
    }

    /// Moves LY on by one and gives its new value.
    fn inc_ly(&self, mmu: &mut Mmu) -> (r: u8)
        ensures
            r == ((old(mmu)@[LY_ADDRESS as int] + 1) % 256) as u8,
            final(mmu)@ == old(mmu)@.update(LY_ADDRESS as int, r),
            final(mmu).rom_locked == old(mmu).rom_locked,
    {
        let ly = mmu.read_u8(LY_ADDRESS).wrapping_add(1);
        mmu.write_u8(LY_ADDRESS, ly);
        ly
    }

    /// One cycle of the picture unit, giving the state it is left in.
    pub fn cycle(&mut self, mmu: &mut Mmu) -> (r: State)
        ensures
            (*final(self), final(mmu)@) == ppu_step(*old(self), old(mmu)@),
            final(mmu).rom_locked == old(mmu).rom_locked,
            r == final(self).state,
    {
        match self.state {
            State::OAMSearch => {
                if self.t_cycle % 80 == 0 {
                    self.state = State::PixelTransfer;
                }
            },
            State::PixelTransfer => {
                self.state = State::HBlank;
            },
            State::HBlank => {
                if self.t_cycle % 456 == 0 {
                    let ly = self.inc_ly(mmu);
                    if ly >= LY_VBLANK_START {
                        self.state = State::VBlank;
                        let flags = mmu.read_u8(WRAM_IF_OFFSET);
                        mmu.write_u8(
                            WRAM_IF_OFFSET,
                            utils::set_bit(flags, VBLANK_INTERRUPT_BIT, true),
                        );
                    } else {
                        self.state = State::OAMSearch;
                    }
                }
            },
            State::VBlank => {
                if self.t_cycle % 4560 == 0 {
                    self.set_ly(mmu, 0);
                    self.state = State::OAMSearch;
                }
            },
        }
        self.t_cycle = self.t_cycle.wrapping_add(1);
        self.state
    }
}

} // verus!
