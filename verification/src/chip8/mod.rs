pub mod cpu;
pub mod instruction;
pub mod config;
pub mod memory;
pub mod emulator;
pub mod screen;
pub mod sized_memory;
pub mod sized_instruction;
pub mod standalone;
