//! A Nintendo Entertainment System core: a 6502 interpreter, the picture
//! processing unit, the CPU-side memory bus with its OAM DMA coordinator, and
//! the console that clocks them three PPU dots to one CPU cycle.
//!
//! Every operation is specified by a function over a mathematical view of the
//! machine state, and every executable function is proved to compute it.

pub mod bits;
pub mod cartridge;
pub mod palette;
pub mod ppu;
pub mod ppu_proofs;
pub mod bus;
pub mod opcodes;
pub mod cpu;
pub mod cpu_proofs;
pub mod nes;
pub mod nes_proofs;
