//! The machine: the processor and the peripherals that share its bus,
//! stepped together in a fixed order each machine cycle.
use vstd::prelude::*;

use crate::cpu::{Cpu, CpuError, CpuState};
use crate::io::{timer_step, Io};
use crate::mmu::is_power_on;
use crate::ppu::{ppu_step, Ppu, State};
use crate::registers::power_on_registers;
use crate::semantics::tick;

verus! {

pub struct Gameboy {
    pub cpu: Cpu,
    pub ppu: Ppu,
    pub io: Io,
}

/// One machine cycle of the whole machine: the processor's tick, then the
/// picture unit's, then the timer's, each on the bus as the one before left
/// it. A processor error stops the cycle before the peripherals run.
pub open spec fn machine_step(cpu: CpuState, ppu: Ppu, io: Io) -> (CpuState, Ppu, Io, Result<(), CpuError>) {
    let (s1, r1) = tick(cpu);
    match r1 {
        Err(e) => (s1, ppu, io, Err(e)),
        Ok(()) => {
            let (p2, m2) = ppu_step(ppu, s1.mem);
            let (io3, m3, _) = timer_step(io, m2);
            (CpuState { mem: m3, ..s1 }, p2, io3, Ok(()))
        },
    }
}

impl Gameboy {
    /// The machine at power-on with `rom` as its cartridge.
    pub fn new(rom: &[u8]) -> (r: Gameboy)
        ensures
            r.cpu.registers == power_on_registers(),
            r.cpu.busy_for == 0,
            !r.cpu.halted,
            !r.cpu.schedule_ei,
            is_power_on(rom@, r.cpu.mmu@),
            r.cpu.mmu.rom_locked == (rom@.len() > 0),
            r.ppu.state == State::OAMSearch,
            r.ppu.t_cycle == 0,
            r.io.cycles == 0,
    {
        Gameboy { cpu: Cpu::new(rom), ppu: Ppu::new(), io: Io::new() }
    }

    /// Advances the machine by one machine cycle.
    pub fn cycle(&mut self) -> (r: Result<(), CpuError>)
        ensures
            (final(self).cpu@, final(self).ppu, final(self).io, r) == machine_step(
                old(self).cpu@,
                old(self).ppu,
                old(self).io,
            ),
    {
        match self.cpu.cycle() {
            Err(e) => Err(e),
            Ok(()) => {
                self.ppu.cycle(&mut self.cpu.mmu);
                self.io.cycle(&mut self.cpu.mmu);
                Ok(())
            },
        }
    }
}

} // verus!
