use rustboy::cpu::{Cpu, CpuError, WRAM_IE_OFFSET, WRAM_IF_OFFSET};
use rustboy::interrupt::Interrupt;
use rustboy::registers::{REGISTER_A_INDEX, REGISTER_B_INDEX};

#[test]
fn inc_wraps_ff_to_zero_with_half_carry() {
    let mut cpu = Cpu::new(&[]);
    cpu.registers.b = 0xFF;
    cpu.registers.set_flag_c(true);
    assert_eq!(cpu.inc_b(), 1);
    assert_eq!(cpu.registers.b, 0x00);
    assert!(cpu.registers.get_flag_z());
    assert!(cpu.registers.get_flag_h());
    assert!(!cpu.registers.get_flag_n());
    assert!(cpu.registers.get_flag_c());
}

#[test]
fn dec_wraps_zero_to_ff_with_half_carry() {
    let mut cpu = Cpu::new(&[]);
    cpu.registers.b = 0x00;
    cpu.registers.set_flag_c(false);
    assert_eq!(cpu.dec_b(), 1);
    assert_eq!(cpu.registers.b, 0xFF);
    assert!(!cpu.registers.get_flag_z());
    assert!(cpu.registers.get_flag_h());
    assert!(cpu.registers.get_flag_n());
    assert!(!cpu.registers.get_flag_c());
}

#[test]
fn add_a_a_half_carry_and_carry() {
    let mut cpu = Cpu::new(&[]);
    cpu.mmu.mem[0x100] = 0x87;
    cpu.registers.a = 0x0F;
    assert_eq!(cpu.exec_instruction(), Ok(1));
    assert_eq!(cpu.registers.a, 0x1E);
    assert!(cpu.registers.get_flag_h());
    assert!(!cpu.registers.get_flag_c());
    assert!(!cpu.registers.get_flag_z());

    cpu.registers.pc = 0x100;
    cpu.registers.a = 0x80;
    assert_eq!(cpu.exec_instruction(), Ok(1));
    assert_eq!(cpu.registers.a, 0x00);
    assert!(cpu.registers.get_flag_z());
    assert!(cpu.registers.get_flag_c());
}

#[test]
fn prefixed_rlc_rotates_through_carry() {
    let mut cpu = Cpu::new(&[]);
    cpu.registers.b = 0b1000_0001;
    assert_eq!(cpu.rlc(REGISTER_B_INDEX), 1);
    assert_eq!(cpu.registers.b, 0b0000_0011);
    assert!(cpu.registers.get_flag_c());
    cpu.registers.b = 0b0000_0001;
    cpu.rlc(REGISTER_B_INDEX);
    assert_eq!(cpu.registers.b, 0b0000_0010);
    assert!(!cpu.registers.get_flag_c());
    assert!(!cpu.registers.get_flag_z());
}

#[test]
fn rlc_on_accumulator_costs_one_cycle_and_prefix_adds_one() {
    let mut cpu = Cpu::new(&[]);
    cpu.registers.a = 0b1000_0001;
    assert_eq!(cpu.rlc(REGISTER_A_INDEX), 1);
    assert_eq!(cpu.registers.a, 0b0000_0011);
    assert!(cpu.registers.get_flag_c());
    cpu.registers.set_hl(0xC000);
    assert_eq!(cpu.rlc(6), 3);
    cpu.registers.a = 0b1000_0001;
    cpu.mmu.mem[0x100] = 0xCB;
    cpu.mmu.mem[0x101] = 0x07;
    assert_eq!(cpu.exec_instruction(), Ok(2));
    assert_eq!(cpu.registers.a, 0b0000_0011);
    cpu.mmu.mem[0x102] = 0xCB;
    cpu.mmu.mem[0x103] = 0x06;
    assert_eq!(cpu.exec_instruction(), Ok(4));
}

#[test]
fn prefixed_rotate_of_zero_sets_zero_but_accumulator_rotate_does_not() {
    let mut cpu = Cpu::new(&[]);
    cpu.registers.a = 0;
    cpu.rlc(REGISTER_A_INDEX);
    assert!(cpu.registers.get_flag_z());
    cpu.rlca();
    assert!(!cpu.registers.get_flag_z());
}

#[test]
fn bit_7_of_hl_byte_zero() {
    let mut cpu = Cpu::new(&[]);
    cpu.registers.set_hl(0xC123);
    cpu.mmu.mem[0xC123] = 0x00;
    cpu.mmu.mem[0x100] = 0xCB;
    cpu.mmu.mem[0x101] = 0x7E;
    cpu.registers.set_flag_c(true);
    cpu.registers.set_flag_n(true);
    assert_eq!(cpu.exec_instruction(), Ok(3));
    assert!(cpu.registers.get_flag_z());
    assert!(cpu.registers.get_flag_h());
    assert!(!cpu.registers.get_flag_n());
    assert!(cpu.registers.get_flag_c());
    assert_eq!(cpu.mmu.mem[0xC123], 0x00);
    assert_eq!(cpu.registers.pc, 0x102);

    cpu.mmu.mem[0xC123] = 0x80;
    cpu.registers.set_flag_c(false);
    cpu.bit_hl(7);
    assert!(!cpu.registers.get_flag_z());
    assert!(!cpu.registers.get_flag_c());
    assert_eq!(cpu.mmu.mem[0xC123], 0x80);
}

#[test]
fn service_vblank_pushes_pc_and_jumps() {
    let mut cpu = Cpu::new(&[]);
    cpu.registers.ime = true;
    cpu.mmu.mem[WRAM_IE_OFFSET as usize] = 0x01;
    cpu.mmu.mem[WRAM_IF_OFFSET as usize] = 0x01;
    cpu.registers.pc = 0x1234;
    cpu.registers.sp = 0xFFFE;
    assert!(cpu.handle_interrupts());
    assert_eq!(cpu.registers.pc, 0x0040);
    assert_eq!(cpu.mmu.mem[WRAM_IF_OFFSET as usize] & 1, 0);
    assert!(!cpu.registers.ime);
    assert_eq!(cpu.registers.sp, 0xFFFC);
    assert_eq!(cpu.mmu.mem[0xFFFC], 0x34);
    assert_eq!(cpu.mmu.mem[0xFFFD], 0x12);
    assert_eq!(cpu.busy_for, 5);
}

#[test]
fn service_owed_cycles_stop_at_the_top_of_the_byte() {
    let mut cpu = Cpu::new(&[]);
    cpu.registers.ime = true;
    cpu.busy_for = 253;
    cpu.mmu.mem[WRAM_IE_OFFSET as usize] = 0x01;
    cpu.mmu.mem[WRAM_IF_OFFSET as usize] = 0x01;
    assert!(cpu.handle_interrupts());
    assert_eq!(cpu.busy_for, 255);
}

#[test]
fn service_follows_priority_and_needs_both_bits() {
    let mut cpu = Cpu::new(&[]);
    cpu.registers.ime = true;
    cpu.registers.pc = 0x2000;
    cpu.mmu.mem[WRAM_IE_OFFSET as usize] = 0b0001_0100;
    cpu.mmu.mem[WRAM_IF_OFFSET as usize] = 0b0001_0011;
    assert!(cpu.handle_interrupts());
    assert_eq!(cpu.registers.pc, 0x0060);
    assert_eq!(cpu.mmu.mem[WRAM_IF_OFFSET as usize], 0b0000_0011);

    let mut idle = Cpu::new(&[]);
    idle.registers.ime = true;
    idle.mmu.mem[WRAM_IE_OFFSET as usize] = 0b0000_0010;
    idle.mmu.mem[WRAM_IF_OFFSET as usize] = 0b0000_0001;
    let before = idle.clone();
    assert!(!idle.handle_interrupts());
    assert_eq!(idle, before);
}

#[test]
fn request_interrupt_sets_pending_bit() {
    let mut cpu = Cpu::new(&[]);
    cpu.mmu.mem[WRAM_IF_OFFSET as usize] = 0;
    cpu.request_interrupt(Interrupt::Timer);
    assert_eq!(cpu.mmu.mem[WRAM_IF_OFFSET as usize], 0b0000_0100);
    cpu.request_interrupt(Interrupt::Joypad);
    assert_eq!(cpu.mmu.mem[WRAM_IF_OFFSET as usize], 0b0001_0100);
}

#[test]
fn ei_then_di_never_services() {
    let mut cpu = Cpu::new(&[]);
    cpu.mmu.mem[0x100] = 0xFB;
    cpu.mmu.mem[0x101] = 0xF3;
    cpu.mmu.mem[0x102] = 0x00;
    cpu.mmu.mem[0x103] = 0x00;
    cpu.mmu.mem[WRAM_IE_OFFSET as usize] = 0x01;
    cpu.mmu.mem[WRAM_IF_OFFSET as usize] = 0x01;
    for _ in 0..4 {
        assert_eq!(cpu.cycle(), Ok(()));
        assert!(cpu.registers.pc >= 0x100 && cpu.registers.pc <= 0x104);
    }
    assert!(!cpu.registers.ime);
    assert_eq!(cpu.mmu.mem[WRAM_IF_OFFSET as usize], 0x01);
    assert_eq!(cpu.registers.sp, 0xFFFE);
}

#[test]
fn ei_takes_effect_after_the_next_instruction() {
    let mut cpu = Cpu::new(&[]);
    cpu.mmu.mem[0x100] = 0xFB;
    cpu.mmu.mem[0x101] = 0x00;
    cpu.mmu.mem[0x102] = 0x00;
    cpu.mmu.mem[WRAM_IE_OFFSET as usize] = 0x04;
    cpu.mmu.mem[WRAM_IF_OFFSET as usize] = 0x04;
    assert_eq!(cpu.cycle(), Ok(()));
    assert_eq!(cpu.registers.pc, 0x101);
    assert!(!cpu.registers.ime);
    assert_eq!(cpu.cycle(), Ok(()));
    assert_eq!(cpu.registers.pc, 0x0050);
    assert_eq!(cpu.mmu.mem[0xFFFC], 0x02);
    assert_eq!(cpu.mmu.mem[0xFFFD], 0x01);
    assert_eq!(cpu.busy_for, 5);
}

#[test]
fn load_bc_immediate_end_to_end() {
    let mut cpu = Cpu::new(&[]);
    cpu.registers.pc = 0x0100;
    cpu.mmu.mem[0x100] = 0x01;
    cpu.mmu.mem[0x101] = 0xFE;
    cpu.mmu.mem[0x102] = 0xBE;
    assert_eq!(cpu.exec_instruction(), Ok(3));
    assert_eq!(cpu.registers.get_bc(), 0xBEFE);
    assert_eq!(cpu.registers.pc, 0x0103);
}

#[test]
fn nop_end_to_end_changes_only_pc() {
    let mut cpu = Cpu::new(&[]);
    cpu.registers.pc = 0x1234;
    cpu.mmu.mem[0x1234] = 0x00;
    let before = cpu.clone();
    assert_eq!(cpu.exec_instruction(), Ok(1));
    let mut expected = before.registers;
    expected.pc = 0x1235;
    assert_eq!(cpu.registers, expected);
    assert_eq!(cpu.mmu, before.mmu);
}

#[test]
fn reserved_opcode_is_refused() {
    let mut cpu = Cpu::new(&[]);
    cpu.mmu.mem[0x100] = 0xD3;
    assert_eq!(
        cpu.exec_instruction(),
        Err(CpuError::ReservedOpcode { opcode: 0xD3, pc: 0x100 })
    );
    cpu.registers.pc = 0x200;
    cpu.mmu.mem[0x200] = 0xFD;
    assert_eq!(cpu.cycle(), Err(CpuError::ReservedOpcode { opcode: 0xFD, pc: 0x200 }));
}

#[test]
fn owed_cycles_gate_the_next_fetch() {
    let mut cpu = Cpu::new(&[]);
    cpu.mmu.mem[0x100] = 0x01;
    cpu.mmu.mem[0x101] = 0x34;
    cpu.mmu.mem[0x102] = 0x12;
    cpu.mmu.mem[0x103] = 0x00;
    assert_eq!(cpu.cycle(), Ok(()));
    assert_eq!(cpu.registers.pc, 0x103);
    assert_eq!(cpu.busy_for, 2);
    assert_eq!(cpu.cycle(), Ok(()));
    assert_eq!(cpu.cycle(), Ok(()));
    assert_eq!(cpu.busy_for, 0);
    assert_eq!(cpu.registers.pc, 0x103);
    assert_eq!(cpu.cycle(), Ok(()));
    assert_eq!(cpu.registers.pc, 0x104);
}

#[test]
fn halt_wakes_without_service_when_ime_clear() {
    let mut cpu = Cpu::new(&[]);
    cpu.mmu.mem[0x100] = 0x76;
    cpu.mmu.mem[WRAM_IE_OFFSET as usize] = 0x01;
    cpu.mmu.mem[WRAM_IF_OFFSET as usize] = 0x00;
    assert_eq!(cpu.cycle(), Ok(()));
    assert!(cpu.halted);
    assert_eq!(cpu.cycle(), Ok(()));
    assert!(cpu.halted);
    assert_eq!(cpu.registers.pc, 0x101);
    cpu.request_interrupt(Interrupt::VBlank);
    assert_eq!(cpu.cycle(), Ok(()));
    assert!(!cpu.halted);
    assert_eq!(cpu.registers.pc, 0x101);
    assert_eq!(cpu.mmu.mem[WRAM_IF_OFFSET as usize], 0x01);
}

#[test]
fn halt_wakes_and_services_when_ime_set() {
    let mut cpu = Cpu::new(&[]);
    cpu.halted = true;
    cpu.registers.ime = true;
    cpu.registers.pc = 0x150;
    cpu.mmu.mem[WRAM_IE_OFFSET as usize] = 0x02;
    cpu.mmu.mem[WRAM_IF_OFFSET as usize] = 0x02;
    assert_eq!(cpu.cycle(), Ok(()));
    assert!(!cpu.halted);
    assert_eq!(cpu.registers.pc, 0x48);
    assert_eq!(cpu.exec_instruction().is_ok(), true);
}

#[test]
fn halted_exec_does_nothing() {
    let mut cpu = Cpu::new(&[]);
    cpu.halted = true;
    let before = cpu.clone();
    assert_eq!(cpu.exec_instruction(), Ok(0));
    assert_eq!(cpu, before);
}

#[test]
fn daa_after_add_and_sub() {
    let mut cpu = Cpu::new(&[]);
    cpu.registers.a = 0x15;
    cpu.add8(0x27);
    assert_eq!(cpu.registers.a, 0x3C);
    cpu.daa();
    assert_eq!(cpu.registers.a, 0x42);
    assert!(!cpu.registers.get_flag_c());
    assert!(!cpu.registers.get_flag_h());

    cpu.sub8(0x15);
    assert_eq!(cpu.registers.a, 0x2D);
    cpu.daa();
    assert_eq!(cpu.registers.a, 0x27);

    cpu.registers.a = 0x15;
    cpu.sub8(0x27);
    cpu.daa();
    assert_eq!(cpu.registers.a, 0x88);
    assert!(cpu.registers.get_flag_c());

    cpu.registers.a = 0x99;
    cpu.add8(0x01);
    cpu.daa();
    assert_eq!(cpu.registers.a, 0x00);
    assert!(cpu.registers.get_flag_c());
    assert!(cpu.registers.get_flag_z());
}

#[test]
fn carry_in_arithmetic() {
    let mut cpu = Cpu::new(&[]);
    cpu.registers.a = 0x01;
    cpu.registers.set_flag_c(true);
    cpu.add8c(0xFF);
    assert_eq!(cpu.registers.a, 0x01);
    assert!(cpu.registers.get_flag_c());
    assert!(cpu.registers.get_flag_h());

    cpu.registers.a = 0x00;
    cpu.registers.set_flag_c(true);
    cpu.sub8c(0x00);
    assert_eq!(cpu.registers.a, 0xFF);
    assert!(cpu.registers.get_flag_c());
    assert!(cpu.registers.get_flag_h());
    assert!(cpu.registers.get_flag_n());

    cpu.registers.a = 0x10;
    cpu.cp(0x10);
    assert_eq!(cpu.registers.a, 0x10);
    assert!(cpu.registers.get_flag_z());
    assert!(cpu.registers.get_flag_n());
}

#[test]
fn logic_operations_flags() {
    let mut cpu = Cpu::new(&[]);
    cpu.registers.a = 0b1100_1100;
    cpu.and(0b1010_1010);
    assert_eq!(cpu.registers.a, 0b1000_1000);
    assert_eq!(cpu.registers.f, 0x20);
    cpu.or(0b0000_0001);
    assert_eq!(cpu.registers.a, 0b1000_1001);
    assert_eq!(cpu.registers.f, 0x00);
    cpu.xor(0b1000_1001);
    assert_eq!(cpu.registers.a, 0);
    assert_eq!(cpu.registers.f, 0x80);
}

#[test]
fn add16_half_carry_from_bit_11() {
    let mut cpu = Cpu::new(&[]);
    cpu.registers.set_hl(0x0FFF);
    cpu.registers.set_bc(0x0001);
    cpu.registers.set_flag_z(true);
    assert_eq!(cpu.add_hl_bc(), 2);
    assert_eq!(cpu.registers.get_hl(), 0x1000);
    assert!(cpu.registers.get_flag_h());
    assert!(!cpu.registers.get_flag_c());
    assert!(cpu.registers.get_flag_z());
    cpu.registers.set_hl(0xFFFF);
    cpu.add16(0x0001);
    assert_eq!(cpu.registers.get_hl(), 0x0000);
    assert!(cpu.registers.get_flag_c());
}

#[test]
fn relative_jumps() {
    let mut cpu = Cpu::new(&[]);
    cpu.mmu.mem[0x100] = 0x18;
    cpu.mmu.mem[0x101] = 0xFE;
    assert_eq!(cpu.exec_instruction(), Ok(3));
    assert_eq!(cpu.registers.pc, 0x100);
    cpu.mmu.mem[0x100] = 0x20;
    cpu.mmu.mem[0x101] = 0x05;
    cpu.registers.set_flag_z(true);
    assert_eq!(cpu.exec_instruction(), Ok(2));
    assert_eq!(cpu.registers.pc, 0x102);
    cpu.registers.pc = 0x100;
    cpu.registers.set_flag_z(false);
    assert_eq!(cpu.exec_instruction(), Ok(3));
    assert_eq!(cpu.registers.pc, 0x107);
}

#[test]
fn call_and_return() {
    let mut cpu = Cpu::new(&[]);
    cpu.mmu.mem[0x100] = 0xCD;
    cpu.mmu.mem[0x101] = 0x00;
    cpu.mmu.mem[0x102] = 0x30;
    cpu.mmu.mem[0x3000] = 0xC9;
    assert_eq!(cpu.exec_instruction(), Ok(6));
    assert_eq!(cpu.registers.pc, 0x3000);
    assert_eq!(cpu.registers.sp, 0xFFFC);
    assert_eq!(cpu.mmu.mem[0xFFFC], 0x03);
    assert_eq!(cpu.mmu.mem[0xFFFD], 0x01);
    assert_eq!(cpu.exec_instruction(), Ok(4));
    assert_eq!(cpu.registers.pc, 0x103);
    assert_eq!(cpu.registers.sp, 0xFFFE);
}

#[test]
fn conditional_call_and_return_costs() {
    let mut cpu = Cpu::new(&[]);
    cpu.registers.set_flag_c(false);
    cpu.mmu.mem[0x100] = 0xDC;
    assert_eq!(cpu.exec_instruction(), Ok(3));
    assert_eq!(cpu.registers.pc, 0x103);
    cpu.mmu.mem[0x103] = 0xD8;
    assert_eq!(cpu.exec_instruction(), Ok(2));
    assert_eq!(cpu.registers.pc, 0x104);
    cpu.mmu.mem[0x104] = 0xD0;
    cpu.mmu.mem[0xFFFE] = 0x00;
    cpu.mmu.mem[0xFFFF] = 0x02;
    assert_eq!(cpu.exec_instruction(), Ok(5));
    assert_eq!(cpu.registers.pc, 0x0200);
}

#[test]
fn rst_pushes_return_address() {
    let mut cpu = Cpu::new(&[]);
    cpu.mmu.mem[0x100] = 0xEF;
    assert_eq!(cpu.exec_instruction(), Ok(4));
    assert_eq!(cpu.registers.pc, 0x28);
    assert_eq!(cpu.mmu.mem[0xFFFC], 0x01);
    assert_eq!(cpu.mmu.mem[0xFFFD], 0x01);
}

#[test]
fn push_and_pop_af_keep_f_low_nibble_clear() {
    let mut cpu = Cpu::new(&[]);
    cpu.push_stack_u16(0x12FF);
    assert_eq!(cpu.pop_af(), 3);
    assert_eq!(cpu.registers.a, 0x12);
    assert_eq!(cpu.registers.f, 0xF0);
    cpu.registers.set_bc(0xBEEF);
    cpu.push_bc();
    assert_eq!(cpu.pop_stack_u16(), 0xBEEF);
    cpu.push_stack_u8(0xAB);
    assert_eq!(cpu.registers.sp, 0xFFFD);
    assert_eq!(cpu.pop_stack_u8(), 0xAB);
    assert_eq!(cpu.registers.sp, 0xFFFE);
}

#[test]
fn shifts_on_memory_and_registers() {
    let mut cpu = Cpu::new(&[]);
    cpu.registers.set_hl(0xC000);
    cpu.mmu.mem[0xC000] = 0b1000_0001;
    assert_eq!(cpu.sra_hl(), 3);
    assert_eq!(cpu.mmu.mem[0xC000], 0b1100_0000);
    assert!(cpu.registers.get_flag_c());
    assert_eq!(cpu.srl_hl(), 3);
    assert_eq!(cpu.mmu.mem[0xC000], 0b0110_0000);
    assert!(!cpu.registers.get_flag_c());
    cpu.registers.b = 0b1000_0000;
    cpu.sla(REGISTER_B_INDEX);
    assert_eq!(cpu.registers.b, 0);
    assert!(cpu.registers.get_flag_z());
    assert!(cpu.registers.get_flag_c());
    cpu.registers.b = 0b0100_0001;
    cpu.sll(REGISTER_B_INDEX);
    assert_eq!(cpu.registers.b, 0b1000_0010);
    cpu.registers.set_flag_c(true);
    cpu.registers.b = 0b0000_0010;
    cpu.rr(REGISTER_B_INDEX);
    assert_eq!(cpu.registers.b, 0b1000_0001);
    assert!(!cpu.registers.get_flag_c());
}

#[test]
fn set_and_res_through_prefix() {
    let mut cpu = Cpu::new(&[]);
    cpu.registers.d = 0;
    cpu.mmu.mem[0x100] = 0xCB;
    cpu.mmu.mem[0x101] = 0xDA;
    assert_eq!(cpu.exec_instruction(), Ok(2));
    assert_eq!(cpu.registers.d, 0b0000_1000);
    cpu.registers.set_hl(0xC010);
    cpu.mmu.mem[0xC010] = 0xFF;
    cpu.mmu.mem[0x102] = 0xCB;
    cpu.mmu.mem[0x103] = 0xBE;
    assert_eq!(cpu.exec_instruction(), Ok(4));
    assert_eq!(cpu.mmu.mem[0xC010], 0x7F);
}

#[test]
fn stack_pointer_relative_arithmetic() {
    let mut cpu = Cpu::new(&[]);
    cpu.registers.sp = 0xFFF8;
    cpu.mmu.mem[0x100] = 0xF8;
    cpu.mmu.mem[0x101] = 0x02;
    assert_eq!(cpu.exec_instruction(), Ok(3));
    assert_eq!(cpu.registers.get_hl(), 0xFFFA);
    assert!(!cpu.registers.get_flag_z() && !cpu.registers.get_flag_n());
    assert!(!cpu.registers.get_flag_h() && !cpu.registers.get_flag_c());
    cpu.mmu.mem[0x102] = 0xE8;
    cpu.mmu.mem[0x103] = 0xFF;
    assert_eq!(cpu.exec_instruction(), Ok(4));
    assert_eq!(cpu.registers.sp, 0xFFF7);
    assert!(cpu.registers.get_flag_h() && cpu.registers.get_flag_c());
}

#[test]
fn loads_between_registers_and_memory() {
    let mut cpu = Cpu::new(&[]);
    cpu.registers.c = 0x5A;
    cpu.mmu.mem[0x100] = 0x41;
    assert_eq!(cpu.exec_instruction(), Ok(1));
    assert_eq!(cpu.registers.b, 0x5A);
    cpu.registers.set_hl(0xC100);
    cpu.mmu.mem[0x101] = 0x70;
    assert_eq!(cpu.exec_instruction(), Ok(2));
    assert_eq!(cpu.mmu.mem[0xC100], 0x5A);
    cpu.registers.a = 0x77;
    cpu.mmu.mem[0x102] = 0x22;
    assert_eq!(cpu.exec_instruction(), Ok(2));
    assert_eq!(cpu.mmu.mem[0xC100], 0x77);
    assert_eq!(cpu.registers.get_hl(), 0xC101);
    cpu.registers.c = 0x80;
    cpu.mmu.mem[0x103] = 0xE2;
    assert_eq!(cpu.exec_instruction(), Ok(2));
    assert_eq!(cpu.mmu.mem[0xFF80], 0x77);
}

#[test]
fn power_on_bus_maps_the_cartridge() {
    let rom = [0x31u8, 0xFE, 0xFF, 0xAF];
    let cpu = Cpu::new(&rom);
    assert_eq!(cpu.mmu.read_u8(0x0000), 0x31);
    assert_eq!(cpu.mmu.read_u16(0x0001), 0xFFFE);
    assert_eq!(cpu.mmu.read_u8(0x0004), 0x00);
    assert_eq!(cpu.mmu.read_u8(0xFF40), 0x91);
    assert_eq!(cpu.mmu.read_u8(0xFF47), 0xFC);
    assert_eq!(cpu.mmu.read_u8(0xFFFF), 0x00);
    assert_eq!(cpu.registers.pc, 0x0100);
    assert_eq!(cpu.registers.sp, 0xFFFE);
}

#[test]
fn word_access_is_little_endian_and_wraps() {
    let mut cpu = Cpu::new(&[]);
    cpu.mmu.write_u16(0xFFFF, 0xABCD);
    assert_eq!(cpu.mmu.read_u8(0xFFFF), 0xCD);
    assert_eq!(cpu.mmu.read_u8(0x0000), 0xAB);
    assert_eq!(cpu.mmu.read_u16(0xFFFF), 0xABCD);
}

#[test]
fn clock_cycle_runs_one_tick() {
    let mut cpu = rustboy::cpu::init_cpu();
    assert_eq!(cpu.registers.pc, 0x100);
    assert_eq!(rustboy::cpu::clock_cycle(&mut cpu), Ok(()));
    assert_eq!(cpu.registers.pc, 0x101);
}

#[test]
fn cartridge_rom_is_read_only_and_echo_ram_mirrors_work_ram() {
    let rom = [0x3Cu8, 0x00, 0x00];
    let mut cpu = Cpu::new(&rom);
    assert!(cpu.mmu.rom_locked);
    cpu.mmu.write_u8(0x0000, 0xFF);
    assert_eq!(cpu.mmu.read_u8(0x0000), 0x3C);
    cpu.mmu.write_u16(0x7FFF, 0x1234);
    assert_eq!(cpu.mmu.read_u8(0x7FFF), 0x00);
    assert_eq!(cpu.mmu.read_u8(0x8000), 0x12);
    cpu.mmu.write_u8(0xE010, 0x5A);
    assert_eq!(cpu.mmu.read_u8(0xC010), 0x5A);
    cpu.mmu.write_u8(0xC020, 0xA5);
    assert_eq!(cpu.mmu.read_u8(0xE020), 0xA5);

    let mut bare = Cpu::new(&[]);
    assert!(!bare.mmu.rom_locked);
    bare.mmu.write_u8(0x0000, 0xFF);
    assert_eq!(bare.mmu.read_u8(0x0000), 0xFF);
}
