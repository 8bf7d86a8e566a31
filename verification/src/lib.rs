//! Emulation cores for 8-bit machines: the MOS 6502 family, its peripheral
//! chips, a CHIP-8 interpreter, and the machines built from them.

pub mod bits;
pub mod bus;
pub mod chip8;
pub mod chips;
pub mod devices;
pub mod machines;
pub mod mos6502;
pub mod text;
