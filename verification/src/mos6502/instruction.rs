//! The 6502 opcode table and instruction execution.

use vstd::prelude::*;
use crate::bus::{Bus, bus_read_u16, word, low_byte, high_byte};
use crate::mos6502::config::{CpuFamily, RmwBehavior};
use crate::mos6502::cpu::{Cpu, StatusRegister, push_spec, pull_spec, page_crossed};
use crate::mos6502::isa::{
    rd, wr, fetch_operand_spec, fetch_address_spec, fetch_indirect_target_spec, lda, ldx, ldy,
    and_a, ora, eor, adc, sbc, compare, bit, asl_a, lsr_a, rol_a, ror_a, alr, arr, anc, sax_imm,
    branch, rmw_dummy, inc_mem, dec_mem, shift_mem, php, plp, jsr, rts, brk, rti, test_bits,
    high_plus_one, nz, set_flag, adc_decimal, sbc_decimal, carry_in, cmos_override, is_kil,
    cmos_spec, main_spec, execute_spec, with_cross,
};

verus! {

/// How an instruction finds its operand.
#[derive(Debug, Clone, Copy, PartialEq, Eq, Structural)]
pub enum AddressingMode {
    Implied,
    Accumulator,
    Immediate,
    ZeroPage,
    ZeroPageX,
    ZeroPageY,
    Absolute,
    AbsoluteX,
    AbsoluteY,
    Indirect,
    IndirectX,
    IndirectY,
    Relative,
    ZeroPageIndirect,
}

/// What the opcode table says of one opcode.
#[derive(Debug, Clone, Copy)]
pub struct OpcodeInfo {
    pub opcode: u8,
    pub name: &'static str,
    pub mode: AddressingMode,
    pub bytes: u8,
    pub cycles: u8,
}

/// The opcode table: mnemonic (undocumented opcodes start with '*'),
/// addressing mode, instruction length in bytes, base cycle count.
pub open spec fn opcode_table(opcode: u8) -> (&'static str, AddressingMode, u8, u8) {
    match opcode {
        0x00 => ("BRK", AddressingMode::Implied, 1, 7),
        0x01 => ("ORA", AddressingMode::IndirectX, 2, 6),
        0x02 => ("KIL", AddressingMode::Implied, 1, 2),
        0x03 => ("*SLO", AddressingMode::IndirectX, 2, 8),
        0x04 => ("*NOP", AddressingMode::ZeroPage, 2, 3),
        0x05 => ("ORA", AddressingMode::ZeroPage, 2, 3),
        0x06 => ("ASL", AddressingMode::ZeroPage, 2, 5),
        0x07 => ("*SLO", AddressingMode::ZeroPage, 2, 5),
        0x08 => ("PHP", AddressingMode::Implied, 1, 3),
        0x09 => ("ORA", AddressingMode::Immediate, 2, 2),
        0x0A => ("ASL", AddressingMode::Accumulator, 1, 2),
        0x0B => ("*ANC", AddressingMode::Immediate, 2, 2),
        0x0C => ("*NOP", AddressingMode::Absolute, 3, 4),
        0x0D => ("ORA", AddressingMode::Absolute, 3, 4),
        0x0E => ("ASL", AddressingMode::Absolute, 3, 6),
        0x0F => ("*SLO", AddressingMode::Absolute, 3, 6),
        0x10 => ("BPL", AddressingMode::Relative, 2, 2),
        0x11 => ("ORA", AddressingMode::IndirectY, 2, 5),
        0x12 => ("KIL", AddressingMode::Implied, 1, 2),
        0x13 => ("*SLO", AddressingMode::IndirectY, 2, 8),
        0x14 => ("*NOP", AddressingMode::ZeroPageX, 2, 4),
        0x15 => ("ORA", AddressingMode::ZeroPageX, 2, 4),
        0x16 => ("ASL", AddressingMode::ZeroPageX, 2, 6),
        0x17 => ("*SLO", AddressingMode::ZeroPageX, 2, 6),
        0x18 => ("CLC", AddressingMode::Implied, 1, 2),
        0x19 => ("ORA", AddressingMode::AbsoluteY, 3, 4),
        0x1A => ("*NOP", AddressingMode::Implied, 1, 2),
        0x1B => ("*SLO", AddressingMode::AbsoluteY, 3, 7),
        0x1C => ("*NOP", AddressingMode::AbsoluteX, 3, 4),
        0x1D => ("ORA", AddressingMode::AbsoluteX, 3, 4),
        0x1E => ("ASL", AddressingMode::AbsoluteX, 3, 7),
        0x1F => ("*SLO", AddressingMode::AbsoluteX, 3, 7),
        0x20 => ("JSR", AddressingMode::Absolute, 3, 6),
        0x21 => ("AND", AddressingMode::IndirectX, 2, 6),
        0x22 => ("KIL", AddressingMode::Implied, 1, 2),
        0x23 => ("*RLA", AddressingMode::IndirectX, 2, 8),
        0x24 => ("BIT", AddressingMode::ZeroPage, 2, 3),
        0x25 => ("AND", AddressingMode::ZeroPage, 2, 3),
        0x26 => ("ROL", AddressingMode::ZeroPage, 2, 5),
        0x27 => ("*RLA", AddressingMode::ZeroPage, 2, 5),
        0x28 => ("PLP", AddressingMode::Implied, 1, 4),
        0x29 => ("AND", AddressingMode::Immediate, 2, 2),
        0x2A => ("ROL", AddressingMode::Accumulator, 1, 2),
        0x2B => ("*ANC", AddressingMode::Immediate, 2, 2),
        0x2C => ("BIT", AddressingMode::Absolute, 3, 4),
        0x2D => ("AND", AddressingMode::Absolute, 3, 4),
        0x2E => ("ROL", AddressingMode::Absolute, 3, 6),
        0x2F => ("*RLA", AddressingMode::Absolute, 3, 6),
        0x30 => ("BMI", AddressingMode::Relative, 2, 2),
        0x31 => ("AND", AddressingMode::IndirectY, 2, 5),
        0x32 => ("KIL", AddressingMode::Implied, 1, 2),
        0x33 => ("*RLA", AddressingMode::IndirectY, 2, 8),
        0x34 => ("*NOP", AddressingMode::ZeroPageX, 2, 4),
        0x35 => ("AND", AddressingMode::ZeroPageX, 2, 4),
        0x36 => ("ROL", AddressingMode::ZeroPageX, 2, 6),
        0x37 => ("*RLA", AddressingMode::ZeroPageX, 2, 6),
        0x38 => ("SEC", AddressingMode::Implied, 1, 2),
        0x39 => ("AND", AddressingMode::AbsoluteY, 3, 4),
        0x3A => ("*NOP", AddressingMode::Implied, 1, 2),
        0x3B => ("*RLA", AddressingMode::AbsoluteY, 3, 7),
        0x3C => ("*NOP", AddressingMode::AbsoluteX, 3, 4),
        0x3D => ("AND", AddressingMode::AbsoluteX, 3, 4),
        0x3E => ("ROL", AddressingMode::AbsoluteX, 3, 7),
        0x3F => ("*RLA", AddressingMode::AbsoluteX, 3, 7),
        0x40 => ("RTI", AddressingMode::Implied, 1, 6),
        0x41 => ("EOR", AddressingMode::IndirectX, 2, 6),
        0x42 => ("KIL", AddressingMode::Implied, 1, 2),
        0x43 => ("*SRE", AddressingMode::IndirectX, 2, 8),
        0x44 => ("*NOP", AddressingMode::ZeroPage, 2, 3),
        0x45 => ("EOR", AddressingMode::ZeroPage, 2, 3),
        0x46 => ("LSR", AddressingMode::ZeroPage, 2, 5),
        0x47 => ("*SRE", AddressingMode::ZeroPage, 2, 5),
        0x48 => ("PHA", AddressingMode::Implied, 1, 3),
        0x49 => ("EOR", AddressingMode::Immediate, 2, 2),
        0x4A => ("LSR", AddressingMode::Accumulator, 1, 2),
        0x4B => ("*ALR", AddressingMode::Immediate, 2, 2),
        0x4C => ("JMP", AddressingMode::Absolute, 3, 3),
        0x4D => ("EOR", AddressingMode::Absolute, 3, 4),
        0x4E => ("LSR", AddressingMode::Absolute, 3, 6),
        0x4F => ("*SRE", AddressingMode::Absolute, 3, 6),
        0x50 => ("BVC", AddressingMode::Relative, 2, 2),
        0x51 => ("EOR", AddressingMode::IndirectY, 2, 5),
        0x52 => ("KIL", AddressingMode::Implied, 1, 2),
        0x53 => ("*SRE", AddressingMode::IndirectY, 2, 8),
        0x54 => ("*NOP", AddressingMode::ZeroPageX, 2, 4),
        0x55 => ("EOR", AddressingMode::ZeroPageX, 2, 4),
        0x56 => ("LSR", AddressingMode::ZeroPageX, 2, 6),
        0x57 => ("*SRE", AddressingMode::ZeroPageX, 2, 6),
        0x58 => ("CLI", AddressingMode::Implied, 1, 2),
        0x59 => ("EOR", AddressingMode::AbsoluteY, 3, 4),
        0x5A => ("PHY", AddressingMode::Implied, 1, 3),
        0x5B => ("*SRE", AddressingMode::AbsoluteY, 3, 7),
        0x5C => ("*NOP", AddressingMode::AbsoluteX, 3, 4),
        0x5D => ("EOR", AddressingMode::AbsoluteX, 3, 4),
        0x5E => ("LSR", AddressingMode::AbsoluteX, 3, 7),
        0x5F => ("*SRE", AddressingMode::AbsoluteX, 3, 7),
        0x60 => ("RTS", AddressingMode::Implied, 1, 6),
        0x61 => ("ADC", AddressingMode::IndirectX, 2, 6),
        0x62 => ("KIL", AddressingMode::Implied, 1, 2),
        0x63 => ("*RRA", AddressingMode::IndirectX, 2, 8),
        0x64 => ("*NOP", AddressingMode::ZeroPage, 2, 3),
        0x65 => ("ADC", AddressingMode::ZeroPage, 2, 3),
        0x66 => ("ROR", AddressingMode::ZeroPage, 2, 5),
        0x67 => ("*RRA", AddressingMode::ZeroPage, 2, 5),
        0x68 => ("PLA", AddressingMode::Implied, 1, 4),
        0x69 => ("ADC", AddressingMode::Immediate, 2, 2),
        0x6A => ("ROR", AddressingMode::Accumulator, 1, 2),
        0x6B => ("*ARR", AddressingMode::Immediate, 2, 2),
        0x6C => ("JMP", AddressingMode::Indirect, 3, 5),
        0x6D => ("ADC", AddressingMode::Absolute, 3, 4),
        0x6E => ("ROR", AddressingMode::Absolute, 3, 6),
        0x6F => ("*RRA", AddressingMode::Absolute, 3, 6),
        0x70 => ("BVS", AddressingMode::Relative, 2, 2),
        0x71 => ("ADC", AddressingMode::IndirectY, 2, 5),
        0x72 => ("KIL", AddressingMode::Implied, 1, 2),
        0x73 => ("*RRA", AddressingMode::IndirectY, 2, 8),
        0x74 => ("*NOP", AddressingMode::ZeroPageX, 2, 4),
        0x75 => ("ADC", AddressingMode::ZeroPageX, 2, 4),
        0x76 => ("ROR", AddressingMode::ZeroPageX, 2, 6),
        0x77 => ("*RRA", AddressingMode::ZeroPageX, 2, 6),
        0x78 => ("SEI", AddressingMode::Implied, 1, 2),
        0x79 => ("ADC", AddressingMode::AbsoluteY, 3, 4),
        0x7A => ("*NOP", AddressingMode::Implied, 1, 2),
        0x7B => ("*RRA", AddressingMode::AbsoluteY, 3, 7),
        0x7C => ("*NOP", AddressingMode::AbsoluteX, 3, 4),
        0x7D => ("ADC", AddressingMode::AbsoluteX, 3, 4),
        0x7E => ("ROR", AddressingMode::AbsoluteX, 3, 7),
        0x7F => ("*RRA", AddressingMode::AbsoluteX, 3, 7),
        0x80 => ("*NOP", AddressingMode::Immediate, 2, 2),
        0x81 => ("STA", AddressingMode::IndirectX, 2, 6),
        0x82 => ("*NOP", AddressingMode::Immediate, 2, 2),
        0x83 => ("*SAX", AddressingMode::IndirectX, 2, 6),
        0x84 => ("STY", AddressingMode::ZeroPage, 2, 3),
        0x85 => ("STA", AddressingMode::ZeroPage, 2, 3),
        0x86 => ("STX", AddressingMode::ZeroPage, 2, 3),
        0x87 => ("*SAX", AddressingMode::ZeroPage, 2, 3),
        0x88 => ("DEY", AddressingMode::Implied, 1, 2),
        0x89 => ("*NOP", AddressingMode::Immediate, 2, 2),
        0x8A => ("TXA", AddressingMode::Implied, 1, 2),
        0x8B => ("*NOP", AddressingMode::Implied, 1, 2),
        0x8C => ("STY", AddressingMode::Absolute, 3, 4),
        0x8D => ("STA", AddressingMode::Absolute, 3, 4),
        0x8E => ("STX", AddressingMode::Absolute, 3, 4),
        0x8F => ("*SAX", AddressingMode::Absolute, 3, 4),
        0x90 => ("BCC", AddressingMode::Relative, 2, 2),
        0x91 => ("STA", AddressingMode::IndirectY, 2, 6),
        0x92 => ("KIL", AddressingMode::Implied, 1, 2),
        0x93 => ("*AXA", AddressingMode::IndirectY, 2, 6),
        0x94 => ("STY", AddressingMode::ZeroPageX, 2, 4),
        0x95 => ("STA", AddressingMode::ZeroPageX, 2, 4),
        0x96 => ("STX", AddressingMode::ZeroPageY, 2, 4),
        0x97 => ("*SAX", AddressingMode::ZeroPageY, 2, 4),
        0x98 => ("TYA", AddressingMode::Implied, 1, 2),
        0x99 => ("STA", AddressingMode::AbsoluteY, 3, 5),
        0x9A => ("TXS", AddressingMode::Implied, 1, 2),
        0x9B => ("*TAS", AddressingMode::AbsoluteY, 3, 5),
        0x9C => ("*SAY", AddressingMode::AbsoluteX, 3, 5),
        0x9D => ("STA", AddressingMode::AbsoluteX, 3, 5),
        0x9E => ("*XAS", AddressingMode::AbsoluteY, 3, 5),
        0x9F => ("*AXA", AddressingMode::AbsoluteY, 3, 5),
        0xA0 => ("LDY", AddressingMode::Immediate, 2, 2),
        0xA1 => ("LDA", AddressingMode::IndirectX, 2, 6),
        0xA2 => ("LDX", AddressingMode::Immediate, 2, 2),
        0xA3 => ("*LAX", AddressingMode::IndirectX, 2, 6),
        0xA4 => ("LDY", AddressingMode::ZeroPage, 2, 3),
        0xA5 => ("LDA", AddressingMode::ZeroPage, 2, 3),
        0xA6 => ("LDX", AddressingMode::ZeroPage, 2, 3),
        0xA7 => ("*LAX", AddressingMode::ZeroPage, 2, 3),
        0xA8 => ("TAY", AddressingMode::Implied, 1, 2),
        0xA9 => ("LDA", AddressingMode::Immediate, 2, 2),
        0xAA => ("TAX", AddressingMode::Implied, 1, 2),
        0xAB => ("*LAX", AddressingMode::Immediate, 2, 2),
        0xAC => ("LDY", AddressingMode::Absolute, 3, 4),
        0xAD => ("LDA", AddressingMode::Absolute, 3, 4),
        0xAE => ("LDX", AddressingMode::Absolute, 3, 4),
        0xAF => ("*LAX", AddressingMode::Absolute, 3, 4),
        0xB0 => ("BCS", AddressingMode::Relative, 2, 2),
        0xB1 => ("LDA", AddressingMode::IndirectY, 2, 5),
        0xB2 => ("KIL", AddressingMode::Implied, 1, 2),
        0xB3 => ("*LAX", AddressingMode::IndirectY, 2, 5),
        0xB4 => ("LDY", AddressingMode::ZeroPageX, 2, 4),
        0xB5 => ("LDA", AddressingMode::ZeroPageX, 2, 4),
        0xB6 => ("LDX", AddressingMode::ZeroPageY, 2, 4),
        0xB7 => ("*LAX", AddressingMode::ZeroPageY, 2, 4),
        0xB8 => ("CLV", AddressingMode::Implied, 1, 2),
        0xB9 => ("LDA", AddressingMode::AbsoluteY, 3, 4),
        0xBA => ("TSX", AddressingMode::Implied, 1, 2),
        0xBB => ("*LAS", AddressingMode::AbsoluteY, 3, 4),
        0xBC => ("LDY", AddressingMode::AbsoluteX, 3, 4),
        0xBD => ("LDA", AddressingMode::AbsoluteX, 3, 4),
        0xBE => ("LDX", AddressingMode::AbsoluteY, 3, 4),
        0xBF => ("*LAX", AddressingMode::AbsoluteY, 3, 4),
        0xC0 => ("CPY", AddressingMode::Immediate, 2, 2),
        0xC1 => ("CMP", AddressingMode::IndirectX, 2, 6),
        0xC2 => ("*NOP", AddressingMode::Immediate, 2, 2),
        0xC3 => ("*DCP", AddressingMode::IndirectX, 2, 8),
        0xC4 => ("CPY", AddressingMode::ZeroPage, 2, 3),
        0xC5 => ("CMP", AddressingMode::ZeroPage, 2, 3),
        0xC6 => ("DEC", AddressingMode::ZeroPage, 2, 5),
        0xC7 => ("*DCP", AddressingMode::ZeroPage, 2, 5),
        0xC8 => ("INY", AddressingMode::Implied, 1, 2),
        0xC9 => ("CMP", AddressingMode::Immediate, 2, 2),
        0xCA => ("DEX", AddressingMode::Implied, 1, 2),
        0xCB => ("*SAX", AddressingMode::Immediate, 2, 2),
        0xCC => ("CPY", AddressingMode::Absolute, 3, 4),
        0xCD => ("CMP", AddressingMode::Absolute, 3, 4),
        0xCE => ("DEC", AddressingMode::Absolute, 3, 6),
        0xCF => ("*DCP", AddressingMode::Absolute, 3, 6),
        0xD0 => ("BNE", AddressingMode::Relative, 2, 2),
        0xD1 => ("CMP", AddressingMode::IndirectY, 2, 5),
        0xD2 => ("KIL", AddressingMode::Implied, 1, 2),
        0xD3 => ("*DCP", AddressingMode::IndirectY, 2, 8),
        0xD4 => ("*NOP", AddressingMode::ZeroPageX, 2, 4),
        0xD5 => ("CMP", AddressingMode::ZeroPageX, 2, 4),
        0xD6 => ("DEC", AddressingMode::ZeroPageX, 2, 6),
        0xD7 => ("*DCP", AddressingMode::ZeroPageX, 2, 6),
        0xD8 => ("CLD", AddressingMode::Implied, 1, 2),
        0xD9 => ("CMP", AddressingMode::AbsoluteY, 3, 4),
        0xDA => ("*NOP", AddressingMode::Implied, 1, 2),
        0xDB => ("*DCP", AddressingMode::AbsoluteY, 3, 7),
        0xDC => ("*NOP", AddressingMode::AbsoluteX, 3, 4),
        0xDD => ("CMP", AddressingMode::AbsoluteX, 3, 4),
        0xDE => ("DEC", AddressingMode::AbsoluteX, 3, 7),
        0xDF => ("*DCP", AddressingMode::AbsoluteX, 3, 7),
        0xE0 => ("CPX", AddressingMode::Immediate, 2, 2),
        0xE1 => ("SBC", AddressingMode::IndirectX, 2, 6),
        0xE2 => ("*NOP", AddressingMode::Immediate, 2, 2),
        0xE3 => ("*ISC", AddressingMode::IndirectX, 2, 8),
        0xE4 => ("CPX", AddressingMode::ZeroPage, 2, 3),
        0xE5 => ("SBC", AddressingMode::ZeroPage, 2, 3),
        0xE6 => ("INC", AddressingMode::ZeroPage, 2, 5),
        0xE7 => ("*ISC", AddressingMode::ZeroPage, 2, 5),
        0xE8 => ("INX", AddressingMode::Implied, 1, 2),
        0xE9 => ("SBC", AddressingMode::Immediate, 2, 2),
        0xEA => ("NOP", AddressingMode::Implied, 1, 2),
        0xEB => ("*SBC", AddressingMode::Immediate, 2, 2),
        0xEC => ("CPX", AddressingMode::Absolute, 3, 4),
        0xED => ("SBC", AddressingMode::Absolute, 3, 4),
        0xEE => ("INC", AddressingMode::Absolute, 3, 6),
        0xEF => ("*ISC", AddressingMode::Absolute, 3, 6),
        0xF0 => ("BEQ", AddressingMode::Relative, 2, 2),
        0xF1 => ("SBC", AddressingMode::IndirectY, 2, 5),
        0xF2 => ("KIL", AddressingMode::Implied, 1, 2),
        0xF3 => ("*ISC", AddressingMode::IndirectY, 2, 8),
        0xF4 => ("*NOP", AddressingMode::ZeroPageX, 2, 4),
        0xF5 => ("SBC", AddressingMode::ZeroPageX, 2, 4),
        0xF6 => ("INC", AddressingMode::ZeroPageX, 2, 6),
        0xF7 => ("*ISC", AddressingMode::ZeroPageX, 2, 6),
        0xF8 => ("SED", AddressingMode::Implied, 1, 2),
        0xF9 => ("SBC", AddressingMode::AbsoluteY, 3, 4),
        0xFA => ("*NOP", AddressingMode::Implied, 1, 2),
        0xFB => ("*ISC", AddressingMode::AbsoluteY, 3, 7),
        0xFC => ("*NOP", AddressingMode::AbsoluteX, 3, 4),
        0xFD => ("SBC", AddressingMode::AbsoluteX, 3, 4),
        0xFE => ("INC", AddressingMode::AbsoluteX, 3, 7),
        _ => ("*ISC", AddressingMode::AbsoluteX, 3, 7),
    }
}

fn table_lookup(opcode: u8) -> (r: (&'static str, AddressingMode, u8, u8))
    ensures
        r == opcode_table(opcode),
{
    match opcode {
        0x00 => ("BRK", AddressingMode::Implied, 1, 7),
        0x01 => ("ORA", AddressingMode::IndirectX, 2, 6),
        0x02 => ("KIL", AddressingMode::Implied, 1, 2),
        0x03 => ("*SLO", AddressingMode::IndirectX, 2, 8),
        0x04 => ("*NOP", AddressingMode::ZeroPage, 2, 3),
        0x05 => ("ORA", AddressingMode::ZeroPage, 2, 3),
        0x06 => ("ASL", AddressingMode::ZeroPage, 2, 5),
        0x07 => ("*SLO", AddressingMode::ZeroPage, 2, 5),
        0x08 => ("PHP", AddressingMode::Implied, 1, 3),
        0x09 => ("ORA", AddressingMode::Immediate, 2, 2),
        0x0A => ("ASL", AddressingMode::Accumulator, 1, 2),
        0x0B => ("*ANC", AddressingMode::Immediate, 2, 2),
        0x0C => ("*NOP", AddressingMode::Absolute, 3, 4),
        0x0D => ("ORA", AddressingMode::Absolute, 3, 4),
        0x0E => ("ASL", AddressingMode::Absolute, 3, 6),
        0x0F => ("*SLO", AddressingMode::Absolute, 3, 6),
        0x10 => ("BPL", AddressingMode::Relative, 2, 2),
        0x11 => ("ORA", AddressingMode::IndirectY, 2, 5),
        0x12 => ("KIL", AddressingMode::Implied, 1, 2),
        0x13 => ("*SLO", AddressingMode::IndirectY, 2, 8),
        0x14 => ("*NOP", AddressingMode::ZeroPageX, 2, 4),
        0x15 => ("ORA", AddressingMode::ZeroPageX, 2, 4),
        0x16 => ("ASL", AddressingMode::ZeroPageX, 2, 6),
        0x17 => ("*SLO", AddressingMode::ZeroPageX, 2, 6),
        0x18 => ("CLC", AddressingMode::Implied, 1, 2),
        0x19 => ("ORA", AddressingMode::AbsoluteY, 3, 4),
        0x1A => ("*NOP", AddressingMode::Implied, 1, 2),
        0x1B => ("*SLO", AddressingMode::AbsoluteY, 3, 7),
        0x1C => ("*NOP", AddressingMode::AbsoluteX, 3, 4),
        0x1D => ("ORA", AddressingMode::AbsoluteX, 3, 4),
        0x1E => ("ASL", AddressingMode::AbsoluteX, 3, 7),
        0x1F => ("*SLO", AddressingMode::AbsoluteX, 3, 7),
        0x20 => ("JSR", AddressingMode::Absolute, 3, 6),
        0x21 => ("AND", AddressingMode::IndirectX, 2, 6),
        0x22 => ("KIL", AddressingMode::Implied, 1, 2),
        0x23 => ("*RLA", AddressingMode::IndirectX, 2, 8),
        0x24 => ("BIT", AddressingMode::ZeroPage, 2, 3),
        0x25 => ("AND", AddressingMode::ZeroPage, 2, 3),
        0x26 => ("ROL", AddressingMode::ZeroPage, 2, 5),
        0x27 => ("*RLA", AddressingMode::ZeroPage, 2, 5),
        0x28 => ("PLP", AddressingMode::Implied, 1, 4),
        0x29 => ("AND", AddressingMode::Immediate, 2, 2),
        0x2A => ("ROL", AddressingMode::Accumulator, 1, 2),
        0x2B => ("*ANC", AddressingMode::Immediate, 2, 2),
        0x2C => ("BIT", AddressingMode::Absolute, 3, 4),
        0x2D => ("AND", AddressingMode::Absolute, 3, 4),
        0x2E => ("ROL", AddressingMode::Absolute, 3, 6),
        0x2F => ("*RLA", AddressingMode::Absolute, 3, 6),
        0x30 => ("BMI", AddressingMode::Relative, 2, 2),
        0x31 => ("AND", AddressingMode::IndirectY, 2, 5),
        0x32 => ("KIL", AddressingMode::Implied, 1, 2),
        0x33 => ("*RLA", AddressingMode::IndirectY, 2, 8),
        0x34 => ("*NOP", AddressingMode::ZeroPageX, 2, 4),
        0x35 => ("AND", AddressingMode::ZeroPageX, 2, 4),
        0x36 => ("ROL", AddressingMode::ZeroPageX, 2, 6),
        0x37 => ("*RLA", AddressingMode::ZeroPageX, 2, 6),
        0x38 => ("SEC", AddressingMode::Implied, 1, 2),
        0x39 => ("AND", AddressingMode::AbsoluteY, 3, 4),
        0x3A => ("*NOP", AddressingMode::Implied, 1, 2),
        0x3B => ("*RLA", AddressingMode::AbsoluteY, 3, 7),
        0x3C => ("*NOP", AddressingMode::AbsoluteX, 3, 4),
        0x3D => ("AND", AddressingMode::AbsoluteX, 3, 4),
        0x3E => ("ROL", AddressingMode::AbsoluteX, 3, 7),
        0x3F => ("*RLA", AddressingMode::AbsoluteX, 3, 7),
        0x40 => ("RTI", AddressingMode::Implied, 1, 6),
        0x41 => ("EOR", AddressingMode::IndirectX, 2, 6),
        0x42 => ("KIL", AddressingMode::Implied, 1, 2),
        0x43 => ("*SRE", AddressingMode::IndirectX, 2, 8),
        0x44 => ("*NOP", AddressingMode::ZeroPage, 2, 3),
        0x45 => ("EOR", AddressingMode::ZeroPage, 2, 3),
        0x46 => ("LSR", AddressingMode::ZeroPage, 2, 5),
        0x47 => ("*SRE", AddressingMode::ZeroPage, 2, 5),
        0x48 => ("PHA", AddressingMode::Implied, 1, 3),
        0x49 => ("EOR", AddressingMode::Immediate, 2, 2),
        0x4A => ("LSR", AddressingMode::Accumulator, 1, 2),
        0x4B => ("*ALR", AddressingMode::Immediate, 2, 2),
        0x4C => ("JMP", AddressingMode::Absolute, 3, 3),
        0x4D => ("EOR", AddressingMode::Absolute, 3, 4),
        0x4E => ("LSR", AddressingMode::Absolute, 3, 6),
        0x4F => ("*SRE", AddressingMode::Absolute, 3, 6),
        0x50 => ("BVC", AddressingMode::Relative, 2, 2),
        0x51 => ("EOR", AddressingMode::IndirectY, 2, 5),
        0x52 => ("KIL", AddressingMode::Implied, 1, 2),
        0x53 => ("*SRE", AddressingMode::IndirectY, 2, 8),
        0x54 => ("*NOP", AddressingMode::ZeroPageX, 2, 4),
        0x55 => ("EOR", AddressingMode::ZeroPageX, 2, 4),
        0x56 => ("LSR", AddressingMode::ZeroPageX, 2, 6),
        0x57 => ("*SRE", AddressingMode::ZeroPageX, 2, 6),
        0x58 => ("CLI", AddressingMode::Implied, 1, 2),
        0x59 => ("EOR", AddressingMode::AbsoluteY, 3, 4),
        0x5A => ("PHY", AddressingMode::Implied, 1, 3),
        0x5B => ("*SRE", AddressingMode::AbsoluteY, 3, 7),
        0x5C => ("*NOP", AddressingMode::AbsoluteX, 3, 4),
        0x5D => ("EOR", AddressingMode::AbsoluteX, 3, 4),
        0x5E => ("LSR", AddressingMode::AbsoluteX, 3, 7),
        0x5F => ("*SRE", AddressingMode::AbsoluteX, 3, 7),
        0x60 => ("RTS", AddressingMode::Implied, 1, 6),
        0x61 => ("ADC", AddressingMode::IndirectX, 2, 6),
        0x62 => ("KIL", AddressingMode::Implied, 1, 2),
        0x63 => ("*RRA", AddressingMode::IndirectX, 2, 8),
        0x64 => ("*NOP", AddressingMode::ZeroPage, 2, 3),
        0x65 => ("ADC", AddressingMode::ZeroPage, 2, 3),
        0x66 => ("ROR", AddressingMode::ZeroPage, 2, 5),
        0x67 => ("*RRA", AddressingMode::ZeroPage, 2, 5),
        0x68 => ("PLA", AddressingMode::Implied, 1, 4),
        0x69 => ("ADC", AddressingMode::Immediate, 2, 2),
        0x6A => ("ROR", AddressingMode::Accumulator, 1, 2),
        0x6B => ("*ARR", AddressingMode::Immediate, 2, 2),
        0x6C => ("JMP", AddressingMode::Indirect, 3, 5),
        0x6D => ("ADC", AddressingMode::Absolute, 3, 4),
        0x6E => ("ROR", AddressingMode::Absolute, 3, 6),
        0x6F => ("*RRA", AddressingMode::Absolute, 3, 6),
        0x70 => ("BVS", AddressingMode::Relative, 2, 2),
        0x71 => ("ADC", AddressingMode::IndirectY, 2, 5),
        0x72 => ("KIL", AddressingMode::Implied, 1, 2),
        0x73 => ("*RRA", AddressingMode::IndirectY, 2, 8),
        0x74 => ("*NOP", AddressingMode::ZeroPageX, 2, 4),
        0x75 => ("ADC", AddressingMode::ZeroPageX, 2, 4),
        0x76 => ("ROR", AddressingMode::ZeroPageX, 2, 6),
        0x77 => ("*RRA", AddressingMode::ZeroPageX, 2, 6),
        0x78 => ("SEI", AddressingMode::Implied, 1, 2),
        0x79 => ("ADC", AddressingMode::AbsoluteY, 3, 4),
        0x7A => ("*NOP", AddressingMode::Implied, 1, 2),
        0x7B => ("*RRA", AddressingMode::AbsoluteY, 3, 7),
        0x7C => ("*NOP", AddressingMode::AbsoluteX, 3, 4),
        0x7D => ("ADC", AddressingMode::AbsoluteX, 3, 4),
        0x7E => ("ROR", AddressingMode::AbsoluteX, 3, 7),
        0x7F => ("*RRA", AddressingMode::AbsoluteX, 3, 7),
        0x80 => ("*NOP", AddressingMode::Immediate, 2, 2),
        0x81 => ("STA", AddressingMode::IndirectX, 2, 6),
        0x82 => ("*NOP", AddressingMode::Immediate, 2, 2),
        0x83 => ("*SAX", AddressingMode::IndirectX, 2, 6),
        0x84 => ("STY", AddressingMode::ZeroPage, 2, 3),
        0x85 => ("STA", AddressingMode::ZeroPage, 2, 3),
        0x86 => ("STX", AddressingMode::ZeroPage, 2, 3),
        0x87 => ("*SAX", AddressingMode::ZeroPage, 2, 3),
        0x88 => ("DEY", AddressingMode::Implied, 1, 2),
        0x89 => ("*NOP", AddressingMode::Immediate, 2, 2),
        0x8A => ("TXA", AddressingMode::Implied, 1, 2),
        0x8B => ("*NOP", AddressingMode::Implied, 1, 2),
        0x8C => ("STY", AddressingMode::Absolute, 3, 4),
        0x8D => ("STA", AddressingMode::Absolute, 3, 4),
        0x8E => ("STX", AddressingMode::Absolute, 3, 4),
        0x8F => ("*SAX", AddressingMode::Absolute, 3, 4),
        0x90 => ("BCC", AddressingMode::Relative, 2, 2),
        0x91 => ("STA", AddressingMode::IndirectY, 2, 6),
        0x92 => ("KIL", AddressingMode::Implied, 1, 2),
        0x93 => ("*AXA", AddressingMode::IndirectY, 2, 6),
        0x94 => ("STY", AddressingMode::ZeroPageX, 2, 4),
        0x95 => ("STA", AddressingMode::ZeroPageX, 2, 4),
        0x96 => ("STX", AddressingMode::ZeroPageY, 2, 4),
        0x97 => ("*SAX", AddressingMode::ZeroPageY, 2, 4),
        0x98 => ("TYA", AddressingMode::Implied, 1, 2),
        0x99 => ("STA", AddressingMode::AbsoluteY, 3, 5),
        0x9A => ("TXS", AddressingMode::Implied, 1, 2),
        0x9B => ("*TAS", AddressingMode::AbsoluteY, 3, 5),
        0x9C => ("*SAY", AddressingMode::AbsoluteX, 3, 5),
        0x9D => ("STA", AddressingMode::AbsoluteX, 3, 5),
        0x9E => ("*XAS", AddressingMode::AbsoluteY, 3, 5),
        0x9F => ("*AXA", AddressingMode::AbsoluteY, 3, 5),
        0xA0 => ("LDY", AddressingMode::Immediate, 2, 2),
        0xA1 => ("LDA", AddressingMode::IndirectX, 2, 6),
        0xA2 => ("LDX", AddressingMode::Immediate, 2, 2),
        0xA3 => ("*LAX", AddressingMode::IndirectX, 2, 6),
        0xA4 => ("LDY", AddressingMode::ZeroPage, 2, 3),
        0xA5 => ("LDA", AddressingMode::ZeroPage, 2, 3),
        0xA6 => ("LDX", AddressingMode::ZeroPage, 2, 3),
        0xA7 => ("*LAX", AddressingMode::ZeroPage, 2, 3),
        0xA8 => ("TAY", AddressingMode::Implied, 1, 2),
        0xA9 => ("LDA", AddressingMode::Immediate, 2, 2),
        0xAA => ("TAX", AddressingMode::Implied, 1, 2),
        0xAB => ("*LAX", AddressingMode::Immediate, 2, 2),
        0xAC => ("LDY", AddressingMode::Absolute, 3, 4),
        0xAD => ("LDA", AddressingMode::Absolute, 3, 4),
        0xAE => ("LDX", AddressingMode::Absolute, 3, 4),
        0xAF => ("*LAX", AddressingMode::Absolute, 3, 4),
        0xB0 => ("BCS", AddressingMode::Relative, 2, 2),
        0xB1 => ("LDA", AddressingMode::IndirectY, 2, 5),
        0xB2 => ("KIL", AddressingMode::Implied, 1, 2),
        0xB3 => ("*LAX", AddressingMode::IndirectY, 2, 5),
        0xB4 => ("LDY", AddressingMode::ZeroPageX, 2, 4),
        0xB5 => ("LDA", AddressingMode::ZeroPageX, 2, 4),
        0xB6 => ("LDX", AddressingMode::ZeroPageY, 2, 4),
        0xB7 => ("*LAX", AddressingMode::ZeroPageY, 2, 4),
        0xB8 => ("CLV", AddressingMode::Implied, 1, 2),
        0xB9 => ("LDA", AddressingMode::AbsoluteY, 3, 4),
        0xBA => ("TSX", AddressingMode::Implied, 1, 2),
        0xBB => ("*LAS", AddressingMode::AbsoluteY, 3, 4),
        0xBC => ("LDY", AddressingMode::AbsoluteX, 3, 4),
        0xBD => ("LDA", AddressingMode::AbsoluteX, 3, 4),
        0xBE => ("LDX", AddressingMode::AbsoluteY, 3, 4),
        0xBF => ("*LAX", AddressingMode::AbsoluteY, 3, 4),
        0xC0 => ("CPY", AddressingMode::Immediate, 2, 2),
        0xC1 => ("CMP", AddressingMode::IndirectX, 2, 6),
        0xC2 => ("*NOP", AddressingMode::Immediate, 2, 2),
        0xC3 => ("*DCP", AddressingMode::IndirectX, 2, 8),
        0xC4 => ("CPY", AddressingMode::ZeroPage, 2, 3),
        0xC5 => ("CMP", AddressingMode::ZeroPage, 2, 3),
        0xC6 => ("DEC", AddressingMode::ZeroPage, 2, 5),
        0xC7 => ("*DCP", AddressingMode::ZeroPage, 2, 5),
        0xC8 => ("INY", AddressingMode::Implied, 1, 2),
        0xC9 => ("CMP", AddressingMode::Immediate, 2, 2),
        0xCA => ("DEX", AddressingMode::Implied, 1, 2),
        0xCB => ("*SAX", AddressingMode::Immediate, 2, 2),
        0xCC => ("CPY", AddressingMode::Absolute, 3, 4),
        0xCD => ("CMP", AddressingMode::Absolute, 3, 4),
        0xCE => ("DEC", AddressingMode::Absolute, 3, 6),
        0xCF => ("*DCP", AddressingMode::Absolute, 3, 6),
        0xD0 => ("BNE", AddressingMode::Relative, 2, 2),
        0xD1 => ("CMP", AddressingMode::IndirectY, 2, 5),
        0xD2 => ("KIL", AddressingMode::Implied, 1, 2),
        0xD3 => ("*DCP", AddressingMode::IndirectY, 2, 8),
        0xD4 => ("*NOP", AddressingMode::ZeroPageX, 2, 4),
        0xD5 => ("CMP", AddressingMode::ZeroPageX, 2, 4),
        0xD6 => ("DEC", AddressingMode::ZeroPageX, 2, 6),
        0xD7 => ("*DCP", AddressingMode::ZeroPageX, 2, 6),
        0xD8 => ("CLD", AddressingMode::Implied, 1, 2),
        0xD9 => ("CMP", AddressingMode::AbsoluteY, 3, 4),
        0xDA => ("*NOP", AddressingMode::Implied, 1, 2),
        0xDB => ("*DCP", AddressingMode::AbsoluteY, 3, 7),
        0xDC => ("*NOP", AddressingMode::AbsoluteX, 3, 4),
        0xDD => ("CMP", AddressingMode::AbsoluteX, 3, 4),
        0xDE => ("DEC", AddressingMode::AbsoluteX, 3, 7),
        0xDF => ("*DCP", AddressingMode::AbsoluteX, 3, 7),
        0xE0 => ("CPX", AddressingMode::Immediate, 2, 2),
        0xE1 => ("SBC", AddressingMode::IndirectX, 2, 6),
        0xE2 => ("*NOP", AddressingMode::Immediate, 2, 2),
        0xE3 => ("*ISC", AddressingMode::IndirectX, 2, 8),
        0xE4 => ("CPX", AddressingMode::ZeroPage, 2, 3),
        0xE5 => ("SBC", AddressingMode::ZeroPage, 2, 3),
        0xE6 => ("INC", AddressingMode::ZeroPage, 2, 5),
        0xE7 => ("*ISC", AddressingMode::ZeroPage, 2, 5),
        0xE8 => ("INX", AddressingMode::Implied, 1, 2),
        0xE9 => ("SBC", AddressingMode::Immediate, 2, 2),
        0xEA => ("NOP", AddressingMode::Implied, 1, 2),
        0xEB => ("*SBC", AddressingMode::Immediate, 2, 2),
        0xEC => ("CPX", AddressingMode::Absolute, 3, 4),
        0xED => ("SBC", AddressingMode::Absolute, 3, 4),
        0xEE => ("INC", AddressingMode::Absolute, 3, 6),
        0xEF => ("*ISC", AddressingMode::Absolute, 3, 6),
        0xF0 => ("BEQ", AddressingMode::Relative, 2, 2),
        0xF1 => ("SBC", AddressingMode::IndirectY, 2, 5),
        0xF2 => ("KIL", AddressingMode::Implied, 1, 2),
        0xF3 => ("*ISC", AddressingMode::IndirectY, 2, 8),
        0xF4 => ("*NOP", AddressingMode::ZeroPageX, 2, 4),
        0xF5 => ("SBC", AddressingMode::ZeroPageX, 2, 4),
        0xF6 => ("INC", AddressingMode::ZeroPageX, 2, 6),
        0xF7 => ("*ISC", AddressingMode::ZeroPageX, 2, 6),
        0xF8 => ("SED", AddressingMode::Implied, 1, 2),
        0xF9 => ("SBC", AddressingMode::AbsoluteY, 3, 4),
        0xFA => ("*NOP", AddressingMode::Implied, 1, 2),
        0xFB => ("*ISC", AddressingMode::AbsoluteY, 3, 7),
        0xFC => ("*NOP", AddressingMode::AbsoluteX, 3, 4),
        0xFD => ("SBC", AddressingMode::AbsoluteX, 3, 4),
        0xFE => ("INC", AddressingMode::AbsoluteX, 3, 7),
        _ => ("*ISC", AddressingMode::AbsoluteX, 3, 7),
    }
}

/// The decoded form of an opcode: every opcode has a table entry.
pub open spec fn decode_spec(opcode: u8) -> Option<OpcodeInfo> {
    let (name, mode, bytes, cycles) = opcode_table(opcode);
    Some(OpcodeInfo { opcode, name, mode, bytes, cycles })
}

pub fn decode(opcode: u8) -> (r: Option<OpcodeInfo>)
    ensures
        r == decode_spec(opcode),
{
    let (name, mode, bytes, cycles) = table_lookup(opcode);
    Some(OpcodeInfo { opcode, name, mode, bytes, cycles })
}

/// Every opcode has an entry in the table: decoding never fails, the name
/// that `get_name` gives is the decoded name, and it is never "???".
pub proof fn lemma_every_opcode_named(opcode: u8)
    ensures
        decode_spec(opcode) is Some,
        decode_spec(opcode)->0.name == opcode_table(opcode).0,
        opcode_table(opcode).0@ != "???"@,
{
    reveal_strlit("???");
    reveal_strlit("*ALR");
    reveal_strlit("*ANC");
    reveal_strlit("*ARR");
    reveal_strlit("*AXA");
    reveal_strlit("*DCP");
    reveal_strlit("*ISC");
    reveal_strlit("*LAS");
    reveal_strlit("*LAX");
    reveal_strlit("*NOP");
    reveal_strlit("*RLA");
    reveal_strlit("*RRA");
    reveal_strlit("*SAX");
    reveal_strlit("*SAY");
    reveal_strlit("*SBC");
    reveal_strlit("*SLO");
    reveal_strlit("*SRE");
    reveal_strlit("*TAS");
    reveal_strlit("*XAS");
    reveal_strlit("ADC");
    reveal_strlit("AND");
    reveal_strlit("ASL");
    reveal_strlit("BCC");
    reveal_strlit("BCS");
    reveal_strlit("BEQ");
    reveal_strlit("BIT");
    reveal_strlit("BMI");
    reveal_strlit("BNE");
    reveal_strlit("BPL");
    reveal_strlit("BRK");
    reveal_strlit("BVC");
    reveal_strlit("BVS");
    reveal_strlit("CLC");
    reveal_strlit("CLD");
    reveal_strlit("CLI");
    reveal_strlit("CLV");
    reveal_strlit("CMP");
    reveal_strlit("CPX");
    reveal_strlit("CPY");
    reveal_strlit("DEC");
    reveal_strlit("DEX");
    reveal_strlit("DEY");
    reveal_strlit("EOR");
    reveal_strlit("INC");
    reveal_strlit("INX");
    reveal_strlit("INY");
    reveal_strlit("JMP");
    reveal_strlit("JSR");
    reveal_strlit("KIL");
    reveal_strlit("LDA");
    reveal_strlit("LDX");
    reveal_strlit("LDY");
    reveal_strlit("LSR");
    reveal_strlit("NOP");
    reveal_strlit("ORA");
    reveal_strlit("PHA");
    reveal_strlit("PHP");
    reveal_strlit("PHY");
    reveal_strlit("PLA");
    reveal_strlit("PLP");
    reveal_strlit("ROL");
    reveal_strlit("ROR");
    reveal_strlit("RTI");
    reveal_strlit("RTS");
    reveal_strlit("SBC");
    reveal_strlit("SEC");
    reveal_strlit("SED");
    reveal_strlit("SEI");
    reveal_strlit("STA");
    reveal_strlit("STX");
    reveal_strlit("STY");
    reveal_strlit("TAX");
    reveal_strlit("TAY");
    reveal_strlit("TSX");
    reveal_strlit("TXA");
    reveal_strlit("TXS");
    reveal_strlit("TYA");
    assert(opcode_table(opcode).0@[0] != '?');
}

/// The mnemonic of an opcode ("???" only for an opcode without an entry).
pub fn get_name(opcode: u8) -> (r: &'static str)
    ensures
        r == opcode_table(opcode).0,
{
    let (name, _, _, _) = table_lookup(opcode);
    name
}

/// The undocumented opcodes: those whose table name begins with '*'.
pub open spec fn undocumented(opcode: u8) -> bool {
    matches!(opcode, 0x03 | 0x04 | 0x07 | 0x0B | 0x0C | 0x0F | 0x13 | 0x14 | 0x17 | 0x1A | 0x1B | 0x1C | 0x1F | 0x23 | 0x27 | 0x2B | 0x2F | 0x33 | 0x34 | 0x37 | 0x3A | 0x3B | 0x3C | 0x3F | 0x43 | 0x44 | 0x47 | 0x4B | 0x4F | 0x53 | 0x54 | 0x57 | 0x5B | 0x5C | 0x5F | 0x63 | 0x64 | 0x67 | 0x6B | 0x6F | 0x73 | 0x74 | 0x77 | 0x7A | 0x7B | 0x7C | 0x7F | 0x80 | 0x82 | 0x83 | 0x87 | 0x89 | 0x8B | 0x8F | 0x93 | 0x97 | 0x9B | 0x9C | 0x9E | 0x9F | 0xA3 | 0xA7 | 0xAB | 0xAF | 0xB3 | 0xB7 | 0xBB | 0xBF | 0xC2 | 0xC3 | 0xC7 | 0xCB | 0xCF | 0xD3 | 0xD4 | 0xD7 | 0xDA | 0xDB | 0xDC | 0xDF | 0xE2 | 0xE3 | 0xE7 | 0xEB | 0xEF | 0xF3 | 0xF4 | 0xF7 | 0xFA | 0xFB | 0xFC | 0xFF)
}

pub(crate) fn is_undocumented(opcode: u8) -> (r: bool)
    ensures
        r == undocumented(opcode),
{
    matches!(opcode, 0x03 | 0x04 | 0x07 | 0x0B | 0x0C | 0x0F | 0x13 | 0x14 | 0x17 | 0x1A | 0x1B | 0x1C | 0x1F | 0x23 | 0x27 | 0x2B | 0x2F | 0x33 | 0x34 | 0x37 | 0x3A | 0x3B | 0x3C | 0x3F | 0x43 | 0x44 | 0x47 | 0x4B | 0x4F | 0x53 | 0x54 | 0x57 | 0x5B | 0x5C | 0x5F | 0x63 | 0x64 | 0x67 | 0x6B | 0x6F | 0x73 | 0x74 | 0x77 | 0x7A | 0x7B | 0x7C | 0x7F | 0x80 | 0x82 | 0x83 | 0x87 | 0x89 | 0x8B | 0x8F | 0x93 | 0x97 | 0x9B | 0x9C | 0x9E | 0x9F | 0xA3 | 0xA7 | 0xAB | 0xAF | 0xB3 | 0xB7 | 0xBB | 0xBF | 0xC2 | 0xC3 | 0xC7 | 0xCB | 0xCF | 0xD3 | 0xD4 | 0xD7 | 0xDA | 0xDB | 0xDC | 0xDF | 0xE2 | 0xE3 | 0xE7 | 0xEB | 0xEF | 0xF3 | 0xF4 | 0xF7 | 0xFA | 0xFB | 0xFC | 0xFF)
}

// ───────────────────────── bus access ─────────────────────────

fn read_byte<B: Bus>(memory: &mut B, addr: u16) -> (r: u8)
    requires
        B::inv(old(memory)@),
    ensures
        (r, final(memory)@) == rd::<B>(old(memory)@, addr),
        B::inv(final(memory)@),
{
    proof {
        B::lemma_inv(memory@, addr, 0);
    }
    memory.read(addr)
}

fn write_byte<B: Bus>(memory: &mut B, addr: u16, value: u8)
    requires
        B::inv(old(memory)@),
    ensures
        final(memory)@ == wr::<B>(old(memory)@, addr, value),
        B::inv(final(memory)@),
{
    proof {
        B::lemma_inv(memory@, addr, value);
    }
    memory.write(addr, value)
}

fn read_word<B: Bus>(memory: &mut B, addr: u16) -> (r: u16)
    requires
        B::inv(old(memory)@),
    ensures
        (r, final(memory)@) == bus_read_u16::<B>(old(memory)@, addr),
        B::inv(final(memory)@),
{
    let lo = read_byte(memory, addr);
    let hi = read_byte(memory, addr.wrapping_add(1));
    word(lo, hi)
}

// ───────────────────────── operand fetch ─────────────────────────

/// Operand of an instruction whose operand bytes start at `pc`: value,
/// address, and whether indexing crossed a page.
fn fetch_operand<B: Bus>(cpu: &Cpu, memory: &mut B, mode: AddressingMode, pc: u16) -> (r: (u8, u16, bool))
    requires
        B::inv(old(memory)@),
    ensures
        (r.0, r.1, r.2, final(memory)@) == fetch_operand_spec::<B>(cpu@, old(memory)@, mode, pc),
        B::inv(final(memory)@),
{
    match mode {
        AddressingMode::Implied | AddressingMode::Accumulator => (cpu.a, 0, false),
        AddressingMode::Immediate => (read_byte(memory, pc), 0, false),
        AddressingMode::ZeroPage => {
            let addr = read_byte(memory, pc) as u16;
            (read_byte(memory, addr), addr, false)
        },
        AddressingMode::ZeroPageX => {
            let addr = read_byte(memory, pc).wrapping_add(cpu.x) as u16;
            (read_byte(memory, addr), addr, false)
        },
        AddressingMode::ZeroPageY => {
            let addr = read_byte(memory, pc).wrapping_add(cpu.y) as u16;
            (read_byte(memory, addr), addr, false)
        },
        AddressingMode::Absolute => {
            let addr = read_word(memory, pc);
            (read_byte(memory, addr), addr, false)
        },
        AddressingMode::AbsoluteX => {
            let base = read_word(memory, pc);
            let addr = base.wrapping_add(cpu.x as u16);
            let cross = (base & 0xFF00) != (addr & 0xFF00);
            (read_byte(memory, addr), addr, cross)
        },
        AddressingMode::AbsoluteY => {
            let base = read_word(memory, pc);
            let addr = base.wrapping_add(cpu.y as u16);
            let cross = (base & 0xFF00) != (addr & 0xFF00);
            (read_byte(memory, addr), addr, cross)
        },
        AddressingMode::Indirect => (0, read_word(memory, pc), false),
        AddressingMode::IndirectX => {
            let base = read_byte(memory, pc).wrapping_add(cpu.x);
            let lo = read_byte(memory, base as u16);
            let hi = read_byte(memory, base.wrapping_add(1) as u16);
            let addr = word(lo, hi);
            (read_byte(memory, addr), addr, false)
        },
        AddressingMode::IndirectY => {
            let base = read_byte(memory, pc);
            let lo = read_byte(memory, base as u16);
            let hi = read_byte(memory, base.wrapping_add(1) as u16);
            let ptr = word(lo, hi);
            let addr = ptr.wrapping_add(cpu.y as u16);
            let cross = (ptr & 0xFF00) != (addr & 0xFF00);
            (read_byte(memory, addr), addr, cross)
        },
        AddressingMode::Relative => {
            let offset = read_byte(memory, pc);
            (offset, cpu.pc.wrapping_add(offset as i8 as u16), false)
        },
        AddressingMode::ZeroPageIndirect => {
            let ptr = read_byte(memory, pc) as u16;
            let addr = read_word(memory, ptr);
            (read_byte(memory, addr), addr, false)
        },
    }
}

/// Target of JMP (abs), with the NMOS page-wrap bug when configured.
fn fetch_indirect_target<B: Bus>(cpu: &Cpu, memory: &mut B, pc: u16) -> (r: u16)
    requires
        B::inv(old(memory)@),
    ensures
        (r, final(memory)@) == fetch_indirect_target_spec::<B>(cpu@, old(memory)@, pc),
        B::inv(final(memory)@),
{
    let ptr = read_word(memory, pc);
    if cpu.has_jmp_indirect_bug() && (ptr & 0xFF) == 0xFF {
        let lo = read_byte(memory, ptr);
        let hi = read_byte(memory, ptr & 0xFF00);
        word(lo, hi)
    } else {
        read_word(memory, ptr)
    }
}

/// Effective address of a store or read-modify-write instruction.
fn fetch_address<B: Bus>(cpu: &Cpu, memory: &mut B, mode: AddressingMode, pc: u16) -> (r: u16)
    requires
        B::inv(old(memory)@),
    ensures
        (r, final(memory)@) == fetch_address_spec::<B>(cpu@, old(memory)@, mode, pc),
        B::inv(final(memory)@),
{
    match mode {
        AddressingMode::ZeroPage => read_byte(memory, pc) as u16,
        AddressingMode::ZeroPageX => read_byte(memory, pc).wrapping_add(cpu.x) as u16,
        AddressingMode::ZeroPageY => read_byte(memory, pc).wrapping_add(cpu.y) as u16,
        AddressingMode::Absolute => read_word(memory, pc),
        AddressingMode::AbsoluteX => read_word(memory, pc).wrapping_add(cpu.x as u16),
        AddressingMode::AbsoluteY => read_word(memory, pc).wrapping_add(cpu.y as u16),
        AddressingMode::IndirectX => {
            let base = read_byte(memory, pc).wrapping_add(cpu.x);
            let lo = read_byte(memory, base as u16);
            let hi = read_byte(memory, base.wrapping_add(1) as u16);
            word(lo, hi)
        },
        AddressingMode::IndirectY => {
            let base = read_byte(memory, pc);
            let lo = read_byte(memory, base as u16);
            let hi = read_byte(memory, base.wrapping_add(1) as u16);
            word(lo, hi).wrapping_add(cpu.y as u16)
        },
        AddressingMode::ZeroPageIndirect => {
            let ptr = read_byte(memory, pc) as u16;
            read_word(memory, ptr)
        },
        _ => 0,
    }
}

// ───────────────────────── register operations ─────────────────────────

fn exec_lda(cpu: &mut Cpu, val: u8)
    ensures
        final(cpu)@ == lda(old(cpu)@, val),
{
    cpu.a = val;
    cpu.sr.update_nz(val);
}

fn exec_ldx(cpu: &mut Cpu, val: u8)
    ensures
        final(cpu)@ == ldx(old(cpu)@, val),
{
    cpu.x = val;
    cpu.sr.update_nz(val);
}

fn exec_ldy(cpu: &mut Cpu, val: u8)
    ensures
        final(cpu)@ == ldy(old(cpu)@, val),
{
    cpu.y = val;
    cpu.sr.update_nz(val);
}

fn exec_adc(cpu: &mut Cpu, val: u8)
    ensures
        final(cpu)@ == adc(old(cpu)@, val),
{
    let carry: u16 = if cpu.sr.c() { 1 } else { 0 };
    let a = cpu.a as u16;
    let v = val as u16;
    let bin = a + v + carry;
    let overflow = ((cpu.a ^ val) & 0x80) == 0 && ((cpu.a ^ (bin as u8)) & 0x80) != 0;
    let (result, c) = if cpu.sr.d() && cpu.config.supports_bcd() {
        assert(a & 0x0F <= 15 && v & 0x0F <= 15 && a >> 4 <= 15 && v >> 4 <= 15) by (bit_vector)
            requires
                a <= 255 && v <= 255,
        ;
        let lo = (a & 0x0F) + (v & 0x0F) + carry;
        let hi = (a >> 4) + (v >> 4);
        let lo2 = if lo >= 10 { lo - 10 } else { lo };
        let hi2 = if lo >= 10 { hi + 1 } else { hi };
        let c = hi2 >= 10;
        let hi3 = if c { hi2 - 10 } else { hi2 };
        ((hi3 << 4) | lo2, c)
    } else {
        (bin, bin > 0xFF)
    };
    proof {
        if cpu.sr@ & 0x08 != 0 && cpu.config.quirks.bcd_available {
            assert((result, c) == adc_decimal(a, v, carry));
        }
    }
    cpu.sr.set_c(c);
    cpu.sr.set_v(overflow);
    cpu.a = result as u8;
    cpu.sr.update_nz(cpu.a);
}

fn exec_sbc(cpu: &mut Cpu, val: u8)
    ensures
        final(cpu)@ == sbc(old(cpu)@, val),
{
    let c_in: u16 = if cpu.sr.c() { 1 } else { 0 };
    let a = cpu.a as u16;
    let bin = a.wrapping_add((!val) as u16).wrapping_add(c_in);
    let overflow = ((cpu.a ^ val) & 0x80) != 0 && ((cpu.a ^ (bin as u8)) & 0x80) != 0;
    let carry = bin > 0xFF;
    let (result, c) = if cpu.sr.d() && cpu.config.supports_bcd() {
        let not_carry = (1 - c_in) as u8;
        let a8 = cpu.a;
        let v8 = val;
        let mut r = a8.wrapping_sub(v8).wrapping_sub(not_carry);
        if (a8 & 0x0F) < (v8 & 0x0F).wrapping_add(not_carry) {
            r = r.wrapping_sub(6);
        }
        if a8 < v8.wrapping_add(not_carry) || r > 0x99 {
            r = r.wrapping_sub(0x60);
        }
        let c_ok = a8 >= v8.wrapping_add(not_carry);
        proof {
            assert((r, c_ok) == sbc_decimal(a8, v8, c_in));
        }
        (r as u16, c_ok)
    } else {
        (bin, carry)
    };
    cpu.sr.set_c(c);
    cpu.sr.set_v(overflow);
    cpu.a = result as u8;
    cpu.sr.update_nz(cpu.a);
}

fn exec_compare(cpu: &mut Cpu, reg: u8, val: u8)
    ensures
        final(cpu)@ == compare(old(cpu)@, reg, val),
{
    let r = reg.wrapping_sub(val);
    cpu.sr.set_c(reg >= val);
    cpu.sr.set_z(reg == val);
    cpu.sr.update_nz(r);
}

fn exec_bit(cpu: &mut Cpu, val: u8)
    ensures
        final(cpu)@ == bit(old(cpu)@, val),
{
    cpu.sr.set_z(cpu.a & val == 0);
    cpu.sr.set_n(val & 0x80 != 0);
    cpu.sr.set_v(val & 0x40 != 0);
}

fn exec_branch(cpu: &mut Cpu, offset: u8, taken: bool) -> (r: u8)
    ensures
        (final(cpu)@, r) == branch(old(cpu)@, offset, taken),
{
    if !taken {
        return 2;
    }
    let old_pc = cpu.pc;
    cpu.pc = cpu.pc.wrapping_add(offset as i8 as u16);
    let same_page = (old_pc & 0xFF00) == (cpu.pc & 0xFF00);
    if same_page {
        3
    } else {
        4
    }
}

fn carry_bit(cpu: &Cpu) -> (r: u8)
    ensures
        r == carry_in(cpu@),
{
    if cpu.sr.c() {
        1
    } else {
        0
    }
}

fn exec_alu_a(cpu: &mut Cpu, opcode: u8, val: u8)
    requires
        opcode == 0x12 || opcode == 0x32 || opcode == 0x52 || opcode == 0x72 || opcode == 0xB2 || opcode == 0xD2 || opcode == 0xF2,
    ensures
        final(cpu)@ == (if opcode == 0x12 {
            ora(old(cpu)@, val)
        } else if opcode == 0x32 {
            and_a(old(cpu)@, val)
        } else if opcode == 0x52 {
            eor(old(cpu)@, val)
        } else if opcode == 0x72 {
            adc(old(cpu)@, val)
        } else if opcode == 0xB2 {
            lda(old(cpu)@, val)
        } else if opcode == 0xD2 {
            compare(old(cpu)@, old(cpu)@.a, val)
        } else {
            sbc(old(cpu)@, val)
        }),
{
    if opcode == 0x12 {
        let a = cpu.a | val;
        exec_lda(cpu, a);
    } else if opcode == 0x32 {
        let a = cpu.a & val;
        exec_lda(cpu, a);
    } else if opcode == 0x52 {
        let a = cpu.a ^ val;
        exec_lda(cpu, a);
    } else if opcode == 0x72 {
        exec_adc(cpu, val);
    } else if opcode == 0xB2 {
        exec_lda(cpu, val);
    } else if opcode == 0xD2 {
        let a = cpu.a;
        exec_compare(cpu, a, val);
    } else {
        exec_sbc(cpu, val);
    }
}

// ───────────────────────── memory operations ─────────────────────────

fn rmw_dummy_access<B: Bus>(cpu: &Cpu, memory: &mut B, addr: u16, original: u8)
    requires
        B::inv(old(memory)@),
    ensures
        final(memory)@ == rmw_dummy::<B>(cpu@, old(memory)@, addr, original),
        B::inv(final(memory)@),
{
    if cpu.config.rmw_behavior() == RmwBehavior::Cmos {
        let _ = read_byte(memory, addr);
    } else {
        write_byte(memory, addr, original);
    }
}

fn exec_shift_mem<B: Bus>(cpu: &mut Cpu, memory: &mut B, addr: u16, left: bool, rotate: bool) -> (r: u8)
    requires
        B::inv(old(memory)@),
    ensures
        (final(cpu)@, final(memory)@, r) == shift_mem::<B>(old(cpu)@, old(memory)@, addr, left, rotate),
        B::inv(final(memory)@),
{
    let val = read_byte(memory, addr);
    let old_c = carry_bit(cpu);
    let carry_out = if left { val & 0x80 != 0 } else { val & 1 != 0 };
    cpu.sr.set_c(carry_out);
    rmw_dummy_access(cpu, memory, addr, val);
    let result = if left {
        (val << 1) | (if rotate { old_c } else { 0 })
    } else {
        (val >> 1) | (if rotate { old_c << 7 } else { 0 })
    };
    write_byte(memory, addr, result);
    result
}

fn exec_test_bits<B: Bus>(cpu: &mut Cpu, memory: &mut B, addr: u16, set: bool)
    requires
        B::inv(old(memory)@),
    ensures
        (final(cpu)@, final(memory)@) == test_bits::<B>(old(cpu)@, old(memory)@, addr, set),
        B::inv(final(memory)@),
{
    let v = read_byte(memory, addr);
    cpu.sr.set_z((cpu.a & v) == 0);
    let r = if set { v | cpu.a } else { v & !cpu.a };
    write_byte(memory, addr, r);
    cpu.sr.set_n(r & 0x80 != 0);
}

fn exec_jsr<B: Bus>(cpu: &mut Cpu, memory: &mut B, addr: u16)
    requires
        B::inv(old(memory)@),
    ensures
        (final(cpu)@, final(memory)@) == jsr::<B>(old(cpu)@, old(memory)@, addr),
        B::inv(final(memory)@),
{
    let ret = cpu.pc.wrapping_sub(1);
    cpu.push_stack(high_byte(ret), memory);
    cpu.push_stack(low_byte(ret), memory);
    cpu.pc = addr;
}

fn exec_rts<B: Bus>(cpu: &mut Cpu, memory: &mut B)
    requires
        B::inv(old(memory)@),
    ensures
        (final(cpu)@, final(memory)@) == rts::<B>(old(cpu)@, old(memory)@),
        B::inv(final(memory)@),
{
    let lo = cpu.pull_stack(memory);
    let hi = cpu.pull_stack(memory);
    cpu.pc = word(lo, hi).wrapping_add(1);
}

fn exec_brk<B: Bus>(cpu: &mut Cpu, memory: &mut B)
    requires
        B::inv(old(memory)@),
    ensures
        (final(cpu)@, final(memory)@) == brk::<B>(old(cpu)@, old(memory)@),
        B::inv(final(memory)@),
{
    cpu.pc = cpu.pc.wrapping_add(1);
    let pc = cpu.pc;
    cpu.push_stack(high_byte(pc), memory);
    cpu.push_stack(low_byte(pc), memory);
    let v = cpu.sr.push_value() | 0x10;
    cpu.push_stack(v, memory);
    cpu.sr.set_i(true);
    cpu.pc = read_word(memory, 0xFFFE);
}

fn exec_rti<B: Bus>(cpu: &mut Cpu, memory: &mut B)
    requires
        B::inv(old(memory)@),
    ensures
        (final(cpu)@, final(memory)@) == rti::<B>(old(cpu)@, old(memory)@),
        B::inv(final(memory)@),
{
    let sr_val = cpu.pull_stack(memory);
    cpu.sr = StatusRegister::from_pulled(sr_val);
    let lo = cpu.pull_stack(memory);
    let hi = cpu.pull_stack(memory);
    cpu.pc = word(lo, hi);
}

// ───────────────────────── dispatch ─────────────────────────

proof fn lemma_table_bounds(opcode: u8)
    ensures
        opcode_table(opcode).2 <= 3,
        opcode_table(opcode).3 <= 8,
{
}

fn cycles_with_cross(cycles: u8, cross: bool) -> (r: u8)
    requires
        cycles <= 8,
    ensures
        r == with_cross(cycles, cross),
{
    cycles + if cross { 1 } else { 0 }
}

/// The 65C02 extensions.
fn exec_cmos<B: Bus>(cpu: &mut Cpu, memory: &mut B, opcode: u8, info: OpcodeInfo, pc: u16) -> (r: u8)
    requires
        B::inv(old(memory)@),
        cmos_override(opcode),
        info.mode == opcode_table(opcode).1,
    ensures
        (final(cpu)@, final(memory)@, r) == cmos_spec::<B>(old(cpu)@, old(memory)@, opcode, info, pc),
        B::inv(final(memory)@),
{
    match opcode {
        0x80 => {
            let (o, _, _) = fetch_operand(cpu, memory, AddressingMode::Relative, pc);
            exec_branch(cpu, o, true)
        },
        0x89 => {
            let (v, _, _) = fetch_operand(cpu, memory, AddressingMode::Immediate, pc);
            exec_bit(cpu, v);
            2
        },
        0xDA => {
            let x = cpu.x;
            cpu.push_stack(x, memory);
            3
        },
        0x5A => {
            let y = cpu.y;
            cpu.push_stack(y, memory);
            3
        },
        0xFA => {
            let v = cpu.pull_stack(memory);
            exec_ldx(cpu, v);
            4
        },
        0x7A => {
            let v = cpu.pull_stack(memory);
            exec_ldy(cpu, v);
            4
        },
        0x7C => {
            let base = read_word(memory, pc);
            let ptr = base.wrapping_add(cpu.x as u16);
            let a = read_word(memory, ptr);
            cpu.pc = a;
            6
        },
        0x12 | 0x32 | 0x52 | 0x72 | 0xB2 | 0xD2 | 0xF2 => {
            let (v, _, _) = fetch_operand(cpu, memory, AddressingMode::ZeroPageIndirect, pc);
            exec_alu_a(cpu, opcode, v);
            5
        },
        0x92 => {
            let a = fetch_address(cpu, memory, AddressingMode::ZeroPageIndirect, pc);
            write_byte(memory, a, cpu.a);
            5
        },
        0x04 | 0x0C => {
            let a = fetch_address(cpu, memory, info.mode, pc);
            exec_test_bits(cpu, memory, a, true);
            if opcode == 0x04 {
                5
            } else {
                6
            }
        },
        _ => {
            let mode = if opcode == 0x14 { AddressingMode::ZeroPage } else { AddressingMode::Absolute };
            let a = fetch_address(cpu, memory, mode, pc);
            exec_test_bits(cpu, memory, a, false);
            if opcode == 0x14 {
                5
            } else {
                6
            }
        },
    }
}

/// The instruction set shared by every family (and the NMOS undocumented opcodes).
#[verifier::rlimit(90)]
fn exec_main<B: Bus>(cpu: &mut Cpu, memory: &mut B, opcode: u8, info: OpcodeInfo, pc: u16) -> (r: u8)
    requires
        B::inv(old(memory)@),
        info.mode == opcode_table(opcode).1,
        info.cycles == opcode_table(opcode).3,
    ensures
        (final(cpu)@, final(memory)@, r) == main_spec::<B>(old(cpu)@, old(memory)@, opcode, info, pc),
        B::inv(final(memory)@),
{
    proof {
        lemma_table_bounds(opcode);
    }
    match opcode {
        0x00 => {
            exec_brk(cpu, memory);
            7
        },
        0xA9 | 0xA5 | 0xB5 | 0xAD | 0xBD | 0xB9 | 0xA1 | 0xB1 => {
            let (v, _, c) = fetch_operand(cpu, memory, info.mode, pc);
            exec_lda(cpu, v);
            cycles_with_cross(info.cycles, c)
        },
        0xA3 | 0xA7 | 0xAF | 0xB3 | 0xB7 | 0xBF => {
            let (v, _, c) = fetch_operand(cpu, memory, info.mode, pc);
            exec_lda(cpu, v);
            exec_ldx(cpu, v);
            cycles_with_cross(info.cycles, c)
        },
        0xA2 | 0xA6 | 0xB6 | 0xAE | 0xBE => {
            let (v, _, c) = fetch_operand(cpu, memory, info.mode, pc);
            exec_ldx(cpu, v);
            cycles_with_cross(info.cycles, c)
        },
        0xA0 | 0xA4 | 0xB4 | 0xAC | 0xBC => {
            let (v, _, c) = fetch_operand(cpu, memory, info.mode, pc);
            exec_ldy(cpu, v);
            cycles_with_cross(info.cycles, c)
        },
        0x81 | 0x85 | 0x95 | 0x8D | 0x9D | 0x99 | 0x91 => {
            let a = fetch_address(cpu, memory, info.mode, pc);
            write_byte(memory, a, cpu.a);
            info.cycles
        },
        0x86 | 0x96 | 0x8E => {
            let a = fetch_address(cpu, memory, info.mode, pc);
            write_byte(memory, a, cpu.x);
            info.cycles
        },
        0x84 | 0x94 | 0x8C => {
            let a = fetch_address(cpu, memory, info.mode, pc);
            write_byte(memory, a, cpu.y);
            info.cycles
        },
        0x83 | 0x87 | 0x8F | 0x97 => {
            let a = fetch_address(cpu, memory, info.mode, pc);
            write_byte(memory, a, cpu.a & cpu.x);
            info.cycles
        },
        0xAA => {
            let v = cpu.a;
            exec_ldx(cpu, v);
            2
        },
        0xA8 => {
            let v = cpu.a;
            exec_ldy(cpu, v);
            2
        },
        0x8A => {
            let v = cpu.x;
            exec_lda(cpu, v);
            2
        },
        0x98 => {
            let v = cpu.y;
            exec_lda(cpu, v);
            2
        },
        0xBA => {
            let v = cpu.sp;
            exec_ldx(cpu, v);
            2
        },
        0x9A => {
            cpu.sp = cpu.x;
            2
        },
        0x48 => {
            let v = cpu.a;
            cpu.push_stack(v, memory);
            3
        },
        0x68 => {
            let v = cpu.pull_stack(memory);
            exec_lda(cpu, v);
            4
        },
        0x08 => {
            let v = cpu.sr.push_value() | 0x10;
            cpu.push_stack(v, memory);
            3
        },
        0x28 => {
            let v = cpu.pull_stack(memory);
            cpu.sr = StatusRegister::from_pulled(v);
            4
        },
        0x69 | 0x65 | 0x75 | 0x6D | 0x7D | 0x79 | 0x61 | 0x71 => {
            let (v, _, c) = fetch_operand(cpu, memory, info.mode, pc);
            exec_adc(cpu, v);
            cycles_with_cross(info.cycles, c)
        },
        0xE9 | 0xE5 | 0xF5 | 0xED | 0xFD | 0xF9 | 0xE1 | 0xF1 | 0xEB => {
            let (v, _, c) = fetch_operand(cpu, memory, info.mode, pc);
            exec_sbc(cpu, v);
            cycles_with_cross(info.cycles, c)
        },
        0x29 | 0x25 | 0x35 | 0x2D | 0x3D | 0x39 | 0x21 | 0x31 => {
            let (v, _, c) = fetch_operand(cpu, memory, info.mode, pc);
            let a = cpu.a & v;
            exec_lda(cpu, a);
            cycles_with_cross(info.cycles, c)
        },
        0x09 | 0x05 | 0x15 | 0x0D | 0x1D | 0x19 | 0x01 | 0x11 => {
            let (v, _, c) = fetch_operand(cpu, memory, info.mode, pc);
            let a = cpu.a | v;
            exec_lda(cpu, a);
            cycles_with_cross(info.cycles, c)
        },
        0x49 | 0x45 | 0x55 | 0x4D | 0x5D | 0x59 | 0x41 | 0x51 => {
            let (v, _, c) = fetch_operand(cpu, memory, info.mode, pc);
            let a = cpu.a ^ v;
            exec_lda(cpu, a);
            cycles_with_cross(info.cycles, c)
        },
        0xE6 | 0xF6 | 0xEE | 0xFE => {
            let a = fetch_address(cpu, memory, info.mode, pc);
            let v = read_byte(memory, a).wrapping_add(1);
            write_byte(memory, a, v);
            cpu.sr.update_nz(v);
            info.cycles
        },
        0xC6 | 0xD6 | 0xCE | 0xDE => {
            let a = fetch_address(cpu, memory, info.mode, pc);
            let v = read_byte(memory, a).wrapping_sub(1);
            write_byte(memory, a, v);
            cpu.sr.update_nz(v);
            info.cycles
        },
        0xE8 => {
            let v = cpu.x.wrapping_add(1);
            exec_ldx(cpu, v);
            2
        },
        0xC8 => {
            let v = cpu.y.wrapping_add(1);
            exec_ldy(cpu, v);
            2
        },
        0xCA => {
            let v = cpu.x.wrapping_sub(1);
            exec_ldx(cpu, v);
            2
        },
        0x88 => {
            let v = cpu.y.wrapping_sub(1);
            exec_ldy(cpu, v);
            2
        },
        0x0A => {
            let a = cpu.a;
            cpu.sr.set_c(a & 0x80 != 0);
            exec_lda(cpu, a << 1);
            2
        },
        0x4A => {
            let a = cpu.a;
            cpu.sr.set_c(a & 1 != 0);
            exec_lda(cpu, a >> 1);
            2
        },
        0x2A => {
            let a = cpu.a;
            let old_c = carry_bit(cpu);
            cpu.sr.set_c(a & 0x80 != 0);
            exec_lda(cpu, (a << 1) | old_c);
            2
        },
        0x6A => {
            let a = cpu.a;
            let old_c = carry_bit(cpu) << 7;
            cpu.sr.set_c(a & 1 != 0);
            exec_lda(cpu, (a >> 1) | old_c);
            2
        },
        0x06 | 0x16 | 0x0E | 0x1E | 0x46 | 0x56 | 0x4E | 0x5E | 0x26 | 0x36 | 0x2E | 0x3E | 0x66
        | 0x76 | 0x6E | 0x7E => {
            let a = fetch_address(cpu, memory, info.mode, pc);
            let r = exec_shift_mem(cpu, memory, a, opcode & 0x40 == 0, opcode & 0x20 != 0);
            cpu.sr.update_nz(r);
            info.cycles
        },
        0xC9 | 0xC5 | 0xD5 | 0xCD | 0xDD | 0xD9 | 0xC1 | 0xD1 => {
            let (v, _, c) = fetch_operand(cpu, memory, info.mode, pc);
            let reg = cpu.a;
            exec_compare(cpu, reg, v);
            cycles_with_cross(info.cycles, c)
        },
        0xE0 | 0xE4 | 0xEC => {
            let (v, _, _) = fetch_operand(cpu, memory, info.mode, pc);
            let reg = cpu.x;
            exec_compare(cpu, reg, v);
            info.cycles
        },
        0xC0 | 0xC4 | 0xCC => {
            let (v, _, _) = fetch_operand(cpu, memory, info.mode, pc);
            let reg = cpu.y;
            exec_compare(cpu, reg, v);
            info.cycles
        },
        0x24 | 0x2C => {
            let (v, _, _) = fetch_operand(cpu, memory, info.mode, pc);
            exec_bit(cpu, v);
            info.cycles
        },
        0x4C => {
            let a = read_word(memory, pc);
            cpu.pc = a;
            3
        },
        0x6C => {
            let a = fetch_indirect_target(cpu, memory, pc);
            cpu.pc = a;
            5
        },
        0x20 => {
            let a = read_word(memory, pc);
            exec_jsr(cpu, memory, a);
            6
        },
        0x60 => {
            exec_rts(cpu, memory);
            6
        },
        0x90 | 0xB0 | 0xF0 | 0x30 | 0xD0 | 0x10 | 0x50 | 0x70 => {
            let (o, _, _) = fetch_operand(cpu, memory, AddressingMode::Relative, pc);
            let taken = if opcode == 0x90 {
                !cpu.sr.c()
            } else if opcode == 0xB0 {
                cpu.sr.c()
            } else if opcode == 0xF0 {
                cpu.sr.z()
            } else if opcode == 0x30 {
                cpu.sr.n()
            } else if opcode == 0xD0 {
                !cpu.sr.z()
            } else if opcode == 0x10 {
                !cpu.sr.n()
            } else if opcode == 0x50 {
                !cpu.sr.v()
            } else {
                cpu.sr.v()
            };
            exec_branch(cpu, o, taken)
        },
        0x18 => {
            cpu.sr.set_c(false);
            2
        },
        0xD8 => {
            cpu.sr.set_d(false);
            2
        },
        0x58 => {
            cpu.sr.set_i(false);
            2
        },
        0xB8 => {
            cpu.sr.set_v(false);
            2
        },
        0x38 => {
            cpu.sr.set_c(true);
            2
        },
        0xF8 => {
            cpu.sr.set_d(true);
            2
        },
        0x78 => {
            cpu.sr.set_i(true);
            2
        },
        0xEA => 2,
        0x40 => {
            exec_rti(cpu, memory);
            6
        },
        0x04 | 0x0C => {
            let mode = if opcode == 0x04 { AddressingMode::ZeroPage } else { AddressingMode::Absolute };
            if !cpu.config.quirks.stp_available {
                let _ = fetch_operand(cpu, memory, mode, pc);
                return if opcode == 0x04 {
                    3
                } else {
                    4
                };
            }
            let a = fetch_address(cpu, memory, mode, pc);
            exec_test_bits(cpu, memory, a, true);
            if opcode == 0x04 {
                5
            } else {
                6
            }
        },
        0x03 | 0x07 | 0x0F | 0x13 | 0x17 | 0x1B | 0x1F | 0x23 | 0x27 | 0x2F | 0x33 | 0x37 | 0x3B
        | 0x3F | 0x43 | 0x47 | 0x4F | 0x53 | 0x57 | 0x5B | 0x5F | 0x63 | 0x67 | 0x6F | 0x73 | 0x77
        | 0x7B | 0x7F => {
            let a = fetch_address(cpu, memory, info.mode, pc);
            let r = exec_shift_mem(cpu, memory, a, opcode & 0x40 == 0, opcode & 0x20 != 0);
            if opcode & 0x60 == 0x00 {
                let v = cpu.a | r;
                exec_lda(cpu, v);
            } else if opcode & 0x60 == 0x20 {
                let v = cpu.a & r;
                exec_lda(cpu, v);
            } else if opcode & 0x60 == 0x40 {
                let v = cpu.a ^ r;
                exec_lda(cpu, v);
            } else {
                exec_adc(cpu, r);
            }
            info.cycles
        },
        0xC3 | 0xC7 | 0xCF | 0xD3 | 0xD7 | 0xDF => {
            let a = fetch_address(cpu, memory, info.mode, pc);
            let v = read_byte(memory, a).wrapping_sub(1);
            write_byte(memory, a, v);
            let reg = cpu.a;
            exec_compare(cpu, reg, v);
            info.cycles
        },
        0xE3 | 0xE7 | 0xEF | 0xF3 | 0xF7 | 0xFB | 0xFF => {
            let a = fetch_address(cpu, memory, info.mode, pc);
            let v = read_byte(memory, a).wrapping_add(1);
            write_byte(memory, a, v);
            exec_sbc(cpu, v);
            info.cycles
        },
        0x0B | 0x2B | 0x4B | 0x6B | 0x8B | 0xAB | 0xCB => {
            let (v, _, _) = fetch_operand(cpu, memory, AddressingMode::Immediate, pc);
            exec_immediate_undocumented(cpu, opcode, v);
            2
        },
        0xBB => {
            let a = fetch_address(cpu, memory, info.mode, pc);
            let v = read_byte(memory, a);
            let r = cpu.sp & v;
            cpu.a = r;
            cpu.x = r;
            cpu.sp = r;
            cpu.sr.update_nz(r);
            info.cycles
        },
        0x9B => {
            let a = fetch_address(cpu, memory, info.mode, pc);
            let sp = cpu.a & cpu.x;
            cpu.sp = sp;
            write_byte(memory, a, sp & high_byte(a).wrapping_add(1));
            proof {
                assert(high_byte(a) == ((a >> 8u16) as u8)) by (bit_vector);
            }
            info.cycles
        },
        0x9C | 0x9E | 0x9F | 0x93 => {
            let a = fetch_address(cpu, memory, info.mode, pc);
            let v = if opcode == 0x9C {
                cpu.y
            } else if opcode == 0x9E {
                cpu.x
            } else {
                cpu.a & cpu.x
            };
            proof {
                assert(high_byte(a) == ((a >> 8u16) as u8)) by (bit_vector);
            }
            write_byte(memory, a, v & high_byte(a).wrapping_add(1));
            info.cycles
        },
        0x80 | 0x82 | 0x89 | 0xC2 | 0xE2 => {
            let _ = fetch_operand(cpu, memory, AddressingMode::Immediate, pc);
            2
        },
        0x44 | 0x64 => {
            let _ = fetch_operand(cpu, memory, AddressingMode::ZeroPage, pc);
            3
        },
        0x14 | 0x34 | 0x54 | 0x74 | 0xD4 | 0xF4 => {
            let _ = fetch_operand(cpu, memory, AddressingMode::ZeroPageX, pc);
            4
        },
        0x1C | 0x3C | 0x5C | 0x7C | 0xDC | 0xFC => {
            let (_, _, x) = fetch_operand(cpu, memory, AddressingMode::AbsoluteX, pc);
            cycles_with_cross(4, x)
        },
        _ => info.cycles,
    }
}

fn exec_immediate_undocumented(cpu: &mut Cpu, opcode: u8, v: u8)
    requires
        opcode == 0x0B || opcode == 0x2B || opcode == 0x4B || opcode == 0x6B || opcode == 0x8B
            || opcode == 0xAB || opcode == 0xCB,
    ensures
        final(cpu)@ == (if opcode == 0x0B || opcode == 0x2B {
            anc(old(cpu)@, v)
        } else if opcode == 0x4B {
            alr(old(cpu)@, v)
        } else if opcode == 0x6B {
            arr(old(cpu)@, v)
        } else if opcode == 0x8B {
            lda(old(cpu)@, old(cpu)@.x & v)
        } else if opcode == 0xAB {
            ldx(lda(old(cpu)@, (old(cpu)@.a | 0xEE) & v), (old(cpu)@.a | 0xEE) & v)
        } else {
            sax_imm(old(cpu)@, v)
        }),
{
    if opcode == 0x0B || opcode == 0x2B {
        cpu.a = cpu.a & v;
        cpu.sr.set_c(cpu.a & 0x80 != 0);
        cpu.sr.update_nz(cpu.a);
    } else if opcode == 0x4B {
        let a = cpu.a & v;
        cpu.sr.set_c(a & 1 != 0);
        exec_lda(cpu, a >> 1);
    } else if opcode == 0x6B {
        let a = cpu.a & v;
        let old_c = carry_bit(cpu);
        let result = (a >> 1) | (old_c << 7);
        cpu.sr.set_c(a & 1 != 0);
        cpu.sr.set_v(((a ^ result) & 0x40) != 0);
        exec_lda(cpu, result);
    } else if opcode == 0x8B {
        let a = cpu.x & v;
        exec_lda(cpu, a);
    } else if opcode == 0xAB {
        let a = (cpu.a | 0xEE) & v;
        exec_lda(cpu, a);
        exec_ldx(cpu, a);
    } else {
        let tmp = cpu.a & cpu.x;
        let result = tmp.wrapping_sub(v);
        cpu.sr.set_c(tmp >= v);
        cpu.sr.set_z(tmp == v);
        cpu.sr.update_nz(result);
        cpu.x = result;
    }
}

/// Executes one instruction at PC and returns the cycles it took.
pub fn execute<B: Bus>(cpu: &mut Cpu, memory: &mut B) -> (r: u8)
    requires
        B::inv(old(memory)@),
    ensures
        (final(cpu)@, final(memory)@, r) == execute_spec::<B>(old(cpu)@, old(memory)@),
        B::inv(final(memory)@),
{
    let opcode = read_byte(memory, cpu.pc);
    let info = match decode(opcode) {
        Some(i) => i,
        None => {
            cpu.pc = cpu.pc.wrapping_add(1);
            return 2;
        },
    };
    let op_pc = cpu.pc.wrapping_add(1);
    cpu.pc = cpu.pc.wrapping_add(info.bytes as u16);
    let cmos = cpu.config.family == CpuFamily::W65C02 || cpu.config.family == CpuFamily::R65C02;
    if cmos && matches!(opcode, 0x80 | 0x89 | 0xDA | 0x5A | 0xFA | 0x7A | 0x7C | 0x12 | 0x32 | 0x52 | 0x72 | 0x92 | 0xB2 | 0xD2 | 0xF2 | 0x04 | 0x0C | 0x14 | 0x1C) {
        return exec_cmos(cpu, memory, opcode, info, op_pc);
    }
    if cmos && opcode == 0xCB {
        cpu.waiting = true;
        return 2;
    }
    if cmos && opcode == 0xDB {
        cpu.stopped = true;
        return 2;
    }
    if matches!(opcode, 0x02 | 0x12 | 0x22 | 0x32 | 0x42 | 0x52 | 0x62 | 0x72 | 0x92 | 0xB2 | 0xD2 | 0xF2) {
        cpu.halted = true;
        return 2;
    }
    if !cpu.config.has_undocumented_ops() && is_undocumented(opcode) {
        let _ = fetch_operand(cpu, memory, info.mode, op_pc);
        return 2;
    }
    exec_main(cpu, memory, opcode, info, op_pc)
}

} // verus!
