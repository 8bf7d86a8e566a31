pub mod config;
pub mod cpu;
pub mod memory;
pub mod instruction;
pub mod isa;
pub mod emulator;
