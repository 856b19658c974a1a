use rustboy::cpu::WRAM_IF_OFFSET;
use rustboy::gb::Gameboy;
use rustboy::io::{Io, REGISTER_DIV_ADDRESS, REGISTER_TAC_ADDRESS, REGISTER_TIMA_ADDRESS, REGISTER_TMA_ADDRESS};
use rustboy::mmu::Mmu;
use rustboy::ppu::{Ppu, State, LY_ADDRESS};

#[test]
fn timer_counts_and_reloads_on_overflow() {
    let mut mmu = Mmu::new(&[]);
    let mut io = Io::new();
    mmu.write_u8(REGISTER_TAC_ADDRESS, 0b101);
    mmu.write_u8(REGISTER_TIMA_ADDRESS, 0xFE);
    mmu.write_u8(REGISTER_TMA_ADDRESS, 0x40);
    mmu.write_u8(REGISTER_DIV_ADDRESS, 0x00);
    mmu.write_u8(WRAM_IF_OFFSET, 0x00);
    assert!(!io.cycle(&mut mmu));
    assert_eq!(mmu.read_u8(REGISTER_TIMA_ADDRESS), 0xFF);
    assert_eq!(mmu.read_u8(REGISTER_DIV_ADDRESS), 0x01);
    for _ in 0..3 {
        assert!(!io.cycle(&mut mmu));
    }
    assert_eq!(mmu.read_u8(REGISTER_TIMA_ADDRESS), 0xFF);
    assert!(io.cycle(&mut mmu));
    assert_eq!(mmu.read_u8(REGISTER_TIMA_ADDRESS), 0x40);
    assert_eq!(mmu.read_u8(WRAM_IF_OFFSET), 0b100);
    assert_eq!(io.cycles, 5);
    io.reset_div(&mut mmu);
    assert_eq!(mmu.read_u8(REGISTER_DIV_ADDRESS), 0);
}

#[test]
fn timer_disabled_leaves_counter() {
    let mut mmu = Mmu::new(&[]);
    let mut io = Io::new();
    mmu.write_u8(REGISTER_TAC_ADDRESS, 0b001);
    mmu.write_u8(REGISTER_TIMA_ADDRESS, 0x10);
    for _ in 0..10 {
        io.cycle(&mut mmu);
    }
    assert_eq!(mmu.read_u8(REGISTER_TIMA_ADDRESS), 0x10);
}

#[test]
fn ppu_modes_and_vblank_request() {
    let mut mmu = Mmu::new(&[]);
    let mut ppu = Ppu::new();
    mmu.write_u8(LY_ADDRESS, 143);
    mmu.write_u8(WRAM_IF_OFFSET, 0);
    assert_eq!(ppu.cycle(&mut mmu), State::PixelTransfer);
    assert_eq!(ppu.cycle(&mut mmu), State::HBlank);
    let mut steps = 0;
    while ppu.state() == State::HBlank {
        ppu.cycle(&mut mmu);
        steps += 1;
    }
    assert_eq!(steps, 455);
    assert_eq!(ppu.state(), State::VBlank);
    assert_eq!(ppu.ly(&mmu), 144);
    assert_eq!(mmu.read_u8(WRAM_IF_OFFSET) & 1, 1);
    while ppu.state() == State::VBlank {
        ppu.cycle(&mut mmu);
    }
    assert_eq!(ppu.state(), State::OAMSearch);
    assert_eq!(ppu.ly(&mmu), 0);
}

#[test]
fn machine_steps_processor_then_peripherals() {
    let mut gb = Gameboy::new(&[]);
    assert_eq!(gb.cycle(), Ok(()));
    assert_eq!(gb.cpu.registers.pc, 0x101);
    assert_eq!(gb.ppu.state(), State::PixelTransfer);
    assert_eq!(gb.io.cycles, 1);
    assert_eq!(gb.cpu.mmu.read_u8(REGISTER_DIV_ADDRESS), 1);
}
