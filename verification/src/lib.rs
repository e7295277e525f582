//! Core of an 8-bit CPU emulator (Game-Boy-class architecture): a memory bus
//! that resolves 16-bit addresses into backed regions, and a fetch-decode-execute
//! interpreter that runs instructions over that bus.
//!
//! The bus (`mem`) owns all addressable storage and reports accesses to
//! unmapped regions as faults. The interpreter (`cpu`) owns the register file,
//! decodes opcodes through a pure dispatch table, and executes each
//! instruction's effect on registers, flags, memory and control flow.
//! Cartridge-level validation (logo signature, title extraction) lives in
//! `gameboy`; plain byte packing helpers live in `util`.

pub mod cpu;
pub mod gameboy;
pub mod flags;
pub mod mem;
pub mod util;
