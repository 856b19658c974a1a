//! The memory bus the processor consumes: a flat 64 KiB address space read
//! and written byte by byte, with little-endian words built from two byte
//! accesses. Cartridge banking and the peripherals behind memory-mapped
//! registers belong to whoever fills and drives this space.
use vstd::prelude::*;

use crate::utils::{hi, lo, merge_u8s, split_u16, word};

verus! {

/// Size of the address space.
pub const MEMORY_SIZE: usize = 0x10000;

/// End (exclusive) of the cartridge ROM area.
pub const ROM_END: usize = 0x8000;

/// Work RAM bounds.
pub const WRAM_START: usize = 0xC000;

pub const WRAM_END: usize = 0xE000;

/// High RAM bounds.
pub const HRAM_START: usize = 0xFF80;

pub const HRAM_END: usize = 0xFFFF;

/// The address that follows `a`, wrapping at the top of the address space.
pub open spec fn next_addr(a: u16) -> u16 {
    ((a + 1) % 0x10000) as u16
}

/// The value an I/O register holds at power-on, where the hardware sets one.
pub open spec fn power_on_io(addr: int) -> Option<u8> {
    if addr == 0xFF10 {
        Some(0x80u8)
    } else if addr == 0xFF11 || addr == 0xFF14 || addr == 0xFF19 || addr == 0xFF23 {
        Some(0xBFu8)
    } else if addr == 0xFF12 || addr == 0xFF25 {
        Some(0xF3u8)
    } else if addr == 0xFF16 {
        Some(0x3Fu8)
    } else if addr == 0xFF1A {
        Some(0x7Fu8)
    } else if addr == 0xFF1B || addr == 0xFF1E || addr == 0xFF20 || addr == 0xFF48 || addr
        == 0xFF49 {
        Some(0xFFu8)
    } else if addr == 0xFF1C {
        Some(0x9Fu8)
    } else if addr == 0xFF24 {
        Some(0x77u8)
    } else if addr == 0xFF26 {
        Some(0xF1u8)
    } else if addr == 0xFF40 {
        Some(0x91u8)
    } else if addr == 0xFF47 {
        Some(0xFCu8)
    } else {
        None
    }
}

/// Relies on rand::random: some byte from the thread-local generator, used
/// for the undefined power-on contents of RAM.
#[verifier::external_body]
fn random_byte() -> u8 {
    rand::random::<u8>()
}

/// Echo RAM bounds: reads and writes there reach work RAM 0x2000 below.
pub const ECHO_START: u16 = 0xE000;

pub const ECHO_END: u16 = 0xFE00;

/// The storage cell an address reaches: echo RAM mirrors work RAM.
pub open spec fn phys(a: u16) -> int {
    if ECHO_START <= a < ECHO_END {
        a - 0x2000
    } else {
        a as int
    }
}

/// What a read of `a` gives.
pub open spec fn read_bus(m: Seq<u8>, a: u16) -> u8 {
    m[phys(a)]
}

/// The storage after a write of `v` to `a`. With a cartridge inserted its
/// ROM area is read-only and the write is dropped.
pub open spec fn write_bus(m: Seq<u8>, rom_locked: bool, a: u16, v: u8) -> Seq<u8> {
    if rom_locked && (a as int) < ROM_END {
        m
    } else {
        m.update(phys(a), v)
    }
}

/// The bus: 64 KiB of storage; `rom_locked` is set when a cartridge is
/// inserted, whose ROM area then ignores writes. Without one the whole
/// space is plain RAM, which bare test programs use.
#[derive(Clone, PartialEq, Eq, Debug)]
pub struct Mmu {
    pub mem: [u8; MEMORY_SIZE],
    pub rom_locked: bool,
}

impl View for Mmu {
    type V = Seq<u8>;

    open spec fn view(&self) -> Seq<u8> {
        self.mem@
    }
}

/// The power-on bus: the cartridge image mapped from address zero (at most
/// the 32 KiB ROM area), work and high RAM holding whatever the hardware
/// left there, the I/O registers at their power-on values and everything
/// else zero.
pub open spec fn is_power_on(rom: Seq<u8>, m: Seq<u8>) -> bool {
    &&& m.len() == MEMORY_SIZE
    &&& forall|i: int| 0 <= i < ROM_END ==> m[i] == (if i < rom.len() { rom[i] } else { 0u8 })
    &&& forall|i: int| ROM_END <= i < WRAM_START ==> m[i] == 0
    &&& forall|i: int|
        WRAM_END <= i < HRAM_START ==> m[i] == (match power_on_io(i) {
            Some(v) => v,
            None => 0u8,
        })
    &&& m[0xFFFF] == 0
}

impl Mmu {
    /// The bus at power-on, with `rom` mapped from address zero; a
    /// non-empty image is a cartridge, and its ROM area is read-only.
    pub fn new(rom: &[u8]) -> (r: Mmu)
        ensures
            is_power_on(rom@, r@),
            r.rom_locked == (rom@.len() > 0),
    {
        let mut mmu = Mmu { mem: [0u8; MEMORY_SIZE], rom_locked: rom.len() > 0 };
        let n: usize = if rom.len() < ROM_END { rom.len() } else { ROM_END };
        let mut i: usize = 0;
        while i < n
            invariant
                n <= ROM_END,
                n <= rom@.len(),
                i <= n,
                mmu@.len() == MEMORY_SIZE,
                mmu.rom_locked == (rom@.len() > 0),
                forall|j: int| 0 <= j < i ==> mmu@[j] == rom@[j],
                forall|j: int| i <= j < MEMORY_SIZE ==> mmu@[j] == 0,
            decreases n - i,
        {
            mmu.mem[i] = rom[i];
            i = i + 1;
        }
        let mut k: usize = WRAM_START;
        while k < WRAM_END
            invariant
                WRAM_START <= k <= WRAM_END,
                n <= ROM_END,
                n <= rom@.len(),
                mmu@.len() == MEMORY_SIZE,
                mmu.rom_locked == (rom@.len() > 0),
                forall|j: int| 0 <= j < n ==> mmu@[j] == rom@[j],
                forall|j: int| (n <= j < WRAM_START || WRAM_END <= j < MEMORY_SIZE) ==> mmu@[j] == 0,
            decreases WRAM_END - k,
        {
            let v = random_byte();
            mmu.mem[k] = v;
            k = k + 1;
        }
        let mut m: usize = HRAM_START;
        while m < HRAM_END
            invariant
                HRAM_START <= m <= HRAM_END,
                n <= ROM_END,
                n <= rom@.len(),
                mmu@.len() == MEMORY_SIZE,
                mmu.rom_locked == (rom@.len() > 0),
                forall|j: int| 0 <= j < n ==> mmu@[j] == rom@[j],
                forall|j: int|
                    (n <= j < WRAM_START || WRAM_END <= j < HRAM_START || j == HRAM_END) ==> mmu@[j]
                        == 0,
            decreases HRAM_END - m,
        {
            let v = random_byte();
            mmu.mem[m] = v;
            m = m + 1;
        }
        mmu.initial_write();
        mmu
    }

    /// Writes the power-on values of the I/O registers.
    fn initial_write(&mut self)
        ensures
            final(self).rom_locked == old(self).rom_locked,
            forall|i: int|
                0 <= i < MEMORY_SIZE ==> final(self)@[i] == (match power_on_io(i) {
                    Some(v) => v,
                    None => old(self)@[i],
                }),
    {
        self.mem[0xFF10] = 0x80;
        self.mem[0xFF11] = 0xBF;
        self.mem[0xFF12] = 0xF3;
        self.mem[0xFF14] = 0xBF;
        self.mem[0xFF16] = 0x3F;
        self.mem[0xFF19] = 0xBF;
        self.mem[0xFF1A] = 0x7F;
        self.mem[0xFF1B] = 0xFF;
        self.mem[0xFF1C] = 0x9F;
        self.mem[0xFF1E] = 0xFF;
        self.mem[0xFF20] = 0xFF;
        self.mem[0xFF23] = 0xBF;
        self.mem[0xFF24] = 0x77;
        self.mem[0xFF25] = 0xF3;
        self.mem[0xFF26] = 0xF1;
        self.mem[0xFF40] = 0x91;
        self.mem[0xFF47] = 0xFC;
        self.mem[0xFF48] = 0xFF;
        self.mem[0xFF49] = 0xFF;
    }

    /// The storage index an address reaches.
    fn phys_index(address: u16) -> (r: usize)
        ensures
            r == phys(address),
    {
        if ECHO_START <= address && address < ECHO_END {
            (address - 0x2000) as usize
        } else {
            address as usize
        }
    }

    /// Reads the byte at `address`.
    pub fn read_u8(&self, address: u16) -> (r: u8)
        ensures
            r == read_bus(self@, address),
    {
        self.mem[Self::phys_index(address)]
    }

    /// Reads the little-endian word at `address`: low byte first, the
    /// address after it wrapping at the top.
    pub fn read_u16(&self, address: u16) -> (r: u16)
        ensures
            r == word(read_bus(self@, next_addr(address)), read_bus(self@, address)),
    {
        let l = self.read_u8(address);
        let h = self.read_u8(address.wrapping_add(1));
        merge_u8s(h, l)
    }

    /// Writes the byte `val` at `address`.
    pub fn write_u8(&mut self, address: u16, val: u8)
        ensures
            final(self)@ == write_bus(old(self)@, old(self).rom_locked, address, val),
            final(self).rom_locked == old(self).rom_locked,
    {
        if self.rom_locked && (address as usize) < ROM_END {
            return;
        }
        self.mem[Self::phys_index(address)] = val;
    }

    /// Writes `val` little-endian at `address`: low byte first.
    pub fn write_u16(&mut self, address: u16, val: u16)
        ensures
            final(self)@ == write_bus(
                write_bus(old(self)@, old(self).rom_locked, address, lo(val)),
                old(self).rom_locked,
                next_addr(address),
                hi(val),
            ),
            final(self).rom_locked == old(self).rom_locked,
    {
        let (h, l) = split_u16(val);
        self.write_u8(address, l);
        self.write_u8(address.wrapping_add(1), h);
    }
}

} // verus!
