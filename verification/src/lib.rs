//! The processing core of an 8-bit handheld console: register file,
//! cartridge, memory bus, display controller and instruction engine,
//! each with a machine-checked contract.
//!
//! The instruction engine drives everything. [`cpu::Cpu::step`] fetches
//! one instruction through the bus, carries it out and lets the display
//! controller run for the cycles it cost; the result says whether a
//! frame was completed meanwhile, which is then found in
//! [`cpu::Cpu::frame`]. Nothing here blocks, prints or aborts: every
//! failure comes back as a value.

pub mod bits;
pub mod regs;
pub mod alu;
pub mod cartridge;
pub mod boot;
pub mod ppu;
pub mod timing;
pub mod mmu;
pub mod instr;
pub mod cpu;
pub mod behaviour;
