//! The processor: its register file, the bus it drives, the owed-cycle
//! counter and the halt and delayed-enable state, with the primitive
//! accesses every instruction is built from.
use vstd::prelude::*;

use crate::alu::wrap16;
use crate::mmu::{is_power_on, next_addr, read_bus, write_bus, Mmu};
use crate::registers::{power_on_registers, Registers};
use crate::semantics::tick;
use crate::utils::{hi, lo, word};

verus! {

/// Address of the interrupt-enable register on the bus.
pub const WRAM_IE_OFFSET: u16 = 0xFFFF;

/// Address of the interrupt-pending (flag) register on the bus.
pub const WRAM_IF_OFFSET: u16 = 0xFF0F;

/// Why execution cannot go on.
#[derive(Debug, Clone, Copy, PartialEq, Eq, Structural)]
pub enum CpuError {
    /// One of the always-invalid primary opcodes was fetched at `pc`.
    ReservedOpcode { opcode: u8, pc: u16 },
}

/// The whole machine state as the instruction set sees it.
pub struct CpuState {
    pub regs: Registers,
    pub mem: Seq<u8>,
    pub rom_locked: bool,
    pub halted: bool,
    pub schedule_ei: bool,
    pub busy_for: u8,
}

impl CpuState {
    pub open spec fn rd(self, a: u16) -> u8 {
        read_bus(self.mem, a)
    }

    /// The little-endian word at `a`.
    pub open spec fn rd16(self, a: u16) -> u16 {
        word(self.rd(next_addr(a)), self.rd(a))
    }

    pub open spec fn wr(self, a: u16, v: u8) -> CpuState {
        CpuState { mem: write_bus(self.mem, self.rom_locked, a, v), ..self }
    }

    /// Writes `v` little-endian at `a`, low byte first.
    pub open spec fn wr16(self, a: u16, v: u16) -> CpuState {
        self.wr(a, lo(v)).wr(next_addr(a), hi(v))
    }

    pub open spec fn with_regs(self, r: Registers) -> CpuState {
        CpuState { regs: r, ..self }
    }

    pub open spec fn with_pc(self, pc: u16) -> CpuState {
        self.with_regs(Registers { pc: pc, ..self.regs })
    }

    pub open spec fn with_sp(self, sp: u16) -> CpuState {
        self.with_regs(Registers { sp: sp, ..self.regs })
    }

    /// The byte after the opcode.
    pub open spec fn imm8(self) -> u8 {
        self.rd(self.regs.pc)
    }

    /// The little-endian word after the opcode.
    pub open spec fn imm16(self) -> u16 {
        self.rd16(self.regs.pc)
    }

    /// The program counter moved past `n` operand bytes.
    pub open spec fn skip(self, n: int) -> CpuState {
        self.with_pc(wrap16(self.regs.pc + n))
    }

    /// The operand selected by a 3-bit index: a byte register, or for 6 the
    /// memory byte that HL addresses.
    pub open spec fn operand(self, idx: u8) -> u8 {
        if idx == 6 {
            self.rd(self.regs.hl())
        } else {
            self.regs.reg(idx)
        }
    }

    pub open spec fn with_operand(self, idx: u8, v: u8) -> CpuState {
        if idx == 6 {
            self.wr(self.regs.hl(), v)
        } else {
            self.with_regs(self.regs.with_reg(idx, v))
        }
    }

    /// SP moves down by two, then the word goes to the new top.
    pub open spec fn push16(self, v: u16) -> CpuState {
        let sp = wrap16(self.regs.sp - 2);
        self.with_sp(sp).wr16(sp, v)
    }

    /// The word on top of the stack.
    pub open spec fn top16(self) -> u16 {
        self.rd16(self.regs.sp)
    }

    /// The stack with its top word removed.
    pub open spec fn pop16(self) -> CpuState {
        self.with_sp(wrap16(self.regs.sp + 2))
    }

    /// The interrupts both enabled and pending.
    pub open spec fn pending(self) -> u8 {
        self.rd(WRAM_IE_OFFSET) & self.rd(WRAM_IF_OFFSET) & 0x1F
    }
}

/// The processor, holding its state and the bus it drives.
#[derive(Clone, PartialEq, Eq, Debug)]
pub struct Cpu {
    pub registers: Registers,
    /// Cycles still owed by the instruction last dispatched.
    pub busy_for: u8,
    pub mmu: Mmu,
    /// Fetch and dispatch are suspended until an interrupt is pending.
    pub halted: bool,
    /// An EI waits to take effect at the next dispatch.
    pub schedule_ei: bool,
}

impl View for Cpu {
    type V = CpuState;

    open spec fn view(&self) -> CpuState {
        CpuState {
            regs: self.registers,
            mem: self.mmu@,
            rom_locked: self.mmu.rom_locked,
            halted: self.halted,
            schedule_ei: self.schedule_ei,
            busy_for: self.busy_for,
        }
    }
}

impl Cpu {
    /// Power-on: the boot ROM's register values, nothing owed, not halted,
    /// and the bus holding the cartridge image.
    pub fn new(rom: &[u8]) -> (r: Cpu)
        ensures
            r.registers == power_on_registers(),
            r.busy_for == 0,
            !r.halted,
            !r.schedule_ei,
            is_power_on(rom@, r.mmu@),
            r.mmu.rom_locked == (rom@.len() > 0),
    {
        Cpu {
            registers: Registers::new(),
            mmu: Mmu::new(rom),
            busy_for: 0,
            halted: false,
            schedule_ei: false,
        }
    }

    /// Reads the byte at `address` from the bus.
    pub fn read(&self, address: u16) -> (r: u8)
        ensures
            r == self@.rd(address),
    {
        self.mmu.read_u8(address)
    }

    /// Writes a byte to the bus.
    pub fn write_u8(&mut self, address: u16, val: u8)
        ensures
            final(self)@ == old(self)@.wr(address, val),
    {
        self.mmu.write_u8(address, val);
    }

    /// Writes a word to the bus, low byte first.
    pub fn write_u16(&mut self, address: u16, val: u16)
        ensures
            final(self)@ == old(self)@.wr16(address, val),
    {
        self.mmu.write_u16(address, val);
    }

    /// Reads the operand selected by a 3-bit index (6: the byte at HL).
    pub fn read_operand(&self, idx: u8) -> (r: u8)
        requires
            idx < 8,
        ensures
            r == self@.operand(idx),
    {
        if idx == 6 {
            self.mmu.read_u8(self.registers.get_hl())
        } else {
            self.registers.get_reg(idx)
        }
    }

    /// Writes the operand selected by a 3-bit index (6: the byte at HL).
    pub fn write_operand(&mut self, idx: u8, val: u8)
        requires
            idx < 8,
        ensures
            final(self)@ == old(self)@.with_operand(idx, val),
    {
        if idx == 6 {
            let hl = self.registers.get_hl();
            self.mmu.write_u8(hl, val);
        } else {
            self.registers.set_reg(idx, val);
        }
    }

    /// Push a byte: SP moves down by one, then the byte is written there.
    pub fn push_stack_u8(&mut self, val: u8)
        ensures
            final(self)@ == old(self)@.with_sp(wrap16(old(self).registers.sp - 1)).wr(
                wrap16(old(self).registers.sp - 1),
                val,
            ),
    {
        self.registers.sp = self.registers.sp.wrapping_sub(1);
        self.mmu.write_u8(self.registers.sp, val);
    }

    /// Pop a byte: it is read at SP, then SP moves up by one.
    pub fn pop_stack_u8(&mut self) -> (r: u8)
        ensures
            r == old(self)@.rd(old(self).registers.sp),
            final(self)@ == old(self)@.with_sp(wrap16(old(self).registers.sp + 1)),
    {
        let v = self.mmu.read_u8(self.registers.sp);
        self.registers.sp = self.registers.sp.wrapping_add(1);
        v
    }

    /// Push a word: SP moves down by two, then the word is written there,
    /// low byte at the lower address.
    pub fn push_stack_u16(&mut self, val: u16)
        ensures
            final(self)@ == old(self)@.push16(val),
    {
        self.registers.sp = self.registers.sp.wrapping_sub(2);
        self.mmu.write_u16(self.registers.sp, val);
    }

    /// Pop a word: it is read at SP, then SP moves up by two.
    pub fn pop_stack_u16(&mut self) -> (r: u16)
        ensures
            r == old(self)@.top16(),
            final(self)@ == old(self)@.pop16(),
    {
        let v = self.mmu.read_u16(self.registers.sp);
        self.registers.sp = self.registers.sp.wrapping_add(2);
        v
    }

    /// Reads the byte at PC and moves PC past it.
    pub fn read_u8_at_pc_and_increase(&mut self) -> (r: u8)
        ensures
            r == old(self)@.imm8(),
            final(self)@ == old(self)@.skip(1),
    {
        let val = self.mmu.read_u8(self.registers.pc);
        self.registers.pc = self.registers.pc.wrapping_add(1);
        val
    }

    /// Reads the little-endian word at PC.
    pub fn read_u16_at_pc(&self) -> (r: u16)
        ensures
            r == self@.imm16(),
    {
        self.mmu.read_u16(self.registers.pc)
    }

    /// Reads the little-endian word at PC and moves PC past it.
    pub fn read_u16_at_pc_and_increase(&mut self) -> (r: u16)
        ensures
            r == old(self)@.imm16(),
            final(self)@ == old(self)@.skip(2),
    {
        let val = self.mmu.read_u16(self.registers.pc);
        self.registers.pc = self.registers.pc.wrapping_add(2);
        val
    }

    /// Advances the processor by one machine tick.
    pub fn cycle(&mut self) -> (r: Result<(), CpuError>)
        ensures
            (final(self)@, r) == tick(old(self)@),
    {
        if self.busy_for > 0 {
            self.busy_for = self.busy_for - 1;
            return Ok(());
        }
        if self.halted {
            if self.interrupt_pending() {
                self.halted = false;
            }
            self.handle_interrupts();
            return Ok(());
        }
        match self.exec_instruction() {
            Err(e) => Err(e),
            Ok(cost) => {
                self.busy_for = if cost > 0 { cost - 1 } else { 0 };
                self.handle_interrupts();
                Ok(())
            },
        }
    }

    /// Whether adding two bytes carries out of bit 3.
    pub fn check_add_u8_hc(left: u8, right: u8) -> (r: bool)
        ensures
            r == ((left & 0x0F) + (right & 0x0F) > 0x0F),
    {
        ((left & 0x0F) as u16) + ((right & 0x0F) as u16) > 0x0F
    }

    /// Whether adding two words carries out of bit 11 (the 16-bit
    /// half-carry).
    pub fn check_add_u16_hc(left: u16, right: u16) -> (r: bool)
        ensures
            r == ((left & 0x0FFF) + (right & 0x0FFF) > 0x0FFF),
    {
        ((left & 0x0FFF) as u32) + ((right & 0x0FFF) as u32) > 0x0FFF
    }

    /// Whether adding two words carries out of bit 7 (their low bytes).
    pub fn check_add_low_byte_carry(left: u16, right: u16) -> (r: bool)
        ensures
            r == ((left & 0xFF) + (right & 0xFF) > 0xFF),
    {
        ((left & 0xFF) as u32) + ((right & 0xFF) as u32) > 0xFF
    }

    /// Whether subtracting two bytes borrows into bit 4.
    pub fn check_sub_u8_hc(left: u8, right: u8) -> (r: bool)
        ensures
            r == ((left & 0x0F) < (right & 0x0F)),
    {
        (left & 0x0F) < (right & 0x0F)
    }
}

/// Advances `cpu` by one machine tick.
pub fn clock_cycle(cpu: &mut Cpu) -> (r: Result<(), CpuError>)
    ensures
        (final(cpu)@, r) == tick(old(cpu)@),
{
    cpu.cycle()
}

/// A processor at power-on with an empty cartridge.
pub fn init_cpu() -> (r: Cpu)
    ensures
        r.registers == power_on_registers(),
        r.busy_for == 0,
        !r.halted,
        !r.schedule_ei,
        is_power_on(Seq::empty(), r.mmu@),
{
    let rom: [u8; 0] = [];
    let r = Cpu::new(&rom);
    assert(rom@ =~= Seq::<u8>::empty());
    r
}

} // verus!
