//! An instruction-execution engine for the LR35902 processor of a classic
//! 8-bit handheld console: register file, ALU with exact flag semantics,
//! primary and prefixed opcode tables, stack and control flow, interrupt
//! servicing and owed-cycle accounting, over a flat 64 KiB memory bus.
pub mod alu;
pub mod cpu;
pub mod extended_instructions;
pub mod gb;
pub mod instructions;
pub mod interrupt;
pub mod io;
pub mod laws;
pub mod mmu;
pub mod ppu;
pub mod registers;
pub mod semantics;
pub mod utils;
