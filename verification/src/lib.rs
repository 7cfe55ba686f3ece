//! Core of a Game Boy (DMG) emulator: an SM83 CPU interpreter in lockstep
//! with a programmable timer, a pixel-processing unit, an OAM DMA channel and
//! an interrupt controller, all behind a single memory bus.
pub mod alu;
pub mod bits;
pub mod cartridge;
pub mod cpu;
pub mod emu;
pub mod instruction;
pub mod interrupt;
pub mod io;
pub mod ppu;
pub mod ram;
pub mod timer;
pub mod utils;
