//! Cycle-level emulation core for the Ricoh 2A03 CPU (a 6502 variant) and the
//! NES picture processing unit: instruction semantics, interrupt timing, VRAM
//! address arithmetic, scanline-driven rendering, and per-scanline sprite
//! evaluation, each with a verified contract.

pub mod arith;
pub mod bus;
pub mod cpu;
pub mod nes;
pub mod opcode;
pub mod ppu;
pub mod ppu_memory;
pub mod ppu_registers;
pub mod renderer;
