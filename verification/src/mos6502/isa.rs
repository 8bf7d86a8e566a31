//! The 6502 instruction set as spec functions: what each instruction does
//! to the registers, flags and bus. Reads and writes go through the bus
//! model (`Bus::peek`, `Bus::after_read`, `Bus::after_write`) in the order
//! the processor makes them, since a read can have an effect on a device.

use vstd::prelude::*;
use crate::bus::{Bus, bus_read_u16, word_spec, low_byte_spec, high_byte_spec};
use crate::mos6502::config::RmwBehavior;
use crate::mos6502::cpu::{
    CpuView, FLAG_B, FLAG_C, FLAG_D, FLAG_I, FLAG_N, FLAG_V, FLAG_Z, flag, with_flag, with_nz,
    sr_from_pulled, sr_push_value, push_spec, pull_spec, pull_word_spec, page_crossed,
    indirect_target_spec,
};
use crate::mos6502::instruction::{AddressingMode, OpcodeInfo, decode_spec, undocumented};

verus! {

/// A read of `addr`: the byte, and the bus after it.
pub open spec fn rd<B: Bus>(b: B::V, addr: u16) -> (u8, B::V) {
    (B::peek(b, addr), B::after_read(b, addr))
}

/// A write of `value` at `addr`: the bus after it.
pub open spec fn wr<B: Bus>(b: B::V, addr: u16, value: u8) -> B::V {
    B::after_write(b, addr, value)
}

pub open spec fn carry_in(c: CpuView) -> u8 {
    if flag(c.sr, FLAG_C) { 1 } else { 0 }
}

// ───────────────────────── operand fetch ─────────────────────────

/// Operand of an instruction whose operand bytes start at `pc`: the value,
/// its address, whether indexing crossed a page, and the bus afterwards.
pub open spec fn fetch_operand_spec<B: Bus>(c: CpuView, b: B::V, mode: AddressingMode, pc: u16) -> (u8, u16, bool, B::V) {
    match mode {
        AddressingMode::Implied | AddressingMode::Accumulator => (c.a, 0, false, b),
        AddressingMode::Immediate => {
            let (v, b1) = rd::<B>(b, pc);
            (v, 0, false, b1)
        },
        AddressingMode::ZeroPage => {
            let (z, b1) = rd::<B>(b, pc);
            let (v, b2) = rd::<B>(b1, z as u16);
            (v, z as u16, false, b2)
        },
        AddressingMode::ZeroPageX => {
            let (z, b1) = rd::<B>(b, pc);
            let addr = z.wrapping_add(c.x) as u16;
            let (v, b2) = rd::<B>(b1, addr);
            (v, addr, false, b2)
        },
        AddressingMode::ZeroPageY => {
            let (z, b1) = rd::<B>(b, pc);
            let addr = z.wrapping_add(c.y) as u16;
            let (v, b2) = rd::<B>(b1, addr);
            (v, addr, false, b2)
        },
        AddressingMode::Absolute => {
            let (addr, b1) = bus_read_u16::<B>(b, pc);
            let (v, b2) = rd::<B>(b1, addr);
            (v, addr, false, b2)
        },
        AddressingMode::AbsoluteX => {
            let (base, b1) = bus_read_u16::<B>(b, pc);
            let addr = base.wrapping_add(c.x as u16);
            let (v, b2) = rd::<B>(b1, addr);
            (v, addr, page_crossed(base, addr), b2)
        },
        AddressingMode::AbsoluteY => {
            let (base, b1) = bus_read_u16::<B>(b, pc);
            let addr = base.wrapping_add(c.y as u16);
            let (v, b2) = rd::<B>(b1, addr);
            (v, addr, page_crossed(base, addr), b2)
        },
        AddressingMode::Indirect => {
            let (addr, b1) = bus_read_u16::<B>(b, pc);
            (0, addr, false, b1)
        },
        AddressingMode::IndirectX => {
            let (z, b1) = rd::<B>(b, pc);
            let base = z.wrapping_add(c.x);
            let (lo, b2) = rd::<B>(b1, base as u16);
            let (hi, b3) = rd::<B>(b2, base.wrapping_add(1) as u16);
            let addr = word_spec(lo, hi);
            let (v, b4) = rd::<B>(b3, addr);
            (v, addr, false, b4)
        },
        AddressingMode::IndirectY => {
            let (base, b1) = rd::<B>(b, pc);
            let (lo, b2) = rd::<B>(b1, base as u16);
            let (hi, b3) = rd::<B>(b2, base.wrapping_add(1) as u16);
            let ptr = word_spec(lo, hi);
            let addr = ptr.wrapping_add(c.y as u16);
            let (v, b4) = rd::<B>(b3, addr);
            (v, addr, page_crossed(ptr, addr), b4)
        },
        AddressingMode::Relative => {
            let (off, b1) = rd::<B>(b, pc);
            (off, c.pc.wrapping_add(off as i8 as u16), false, b1)
        },
        AddressingMode::ZeroPageIndirect => {
            let (z, b1) = rd::<B>(b, pc);
            let (addr, b2) = bus_read_u16::<B>(b1, z as u16);
            let (v, b3) = rd::<B>(b2, addr);
            (v, addr, false, b3)
        },
    }
}

/// Effective address of a store or read-modify-write instruction, and the bus afterwards.
pub open spec fn fetch_address_spec<B: Bus>(c: CpuView, b: B::V, mode: AddressingMode, pc: u16) -> (u16, B::V) {
    match mode {
        AddressingMode::ZeroPage => {
            let (z, b1) = rd::<B>(b, pc);
            (z as u16, b1)
        },
        AddressingMode::ZeroPageX => {
            let (z, b1) = rd::<B>(b, pc);
            (z.wrapping_add(c.x) as u16, b1)
        },
        AddressingMode::ZeroPageY => {
            let (z, b1) = rd::<B>(b, pc);
            (z.wrapping_add(c.y) as u16, b1)
        },
        AddressingMode::Absolute => bus_read_u16::<B>(b, pc),
        AddressingMode::AbsoluteX => {
            let (w, b1) = bus_read_u16::<B>(b, pc);
            (w.wrapping_add(c.x as u16), b1)
        },
        AddressingMode::AbsoluteY => {
            let (w, b1) = bus_read_u16::<B>(b, pc);
            (w.wrapping_add(c.y as u16), b1)
        },
        AddressingMode::IndirectX => {
            let (z, b1) = rd::<B>(b, pc);
            let base = z.wrapping_add(c.x);
            let (lo, b2) = rd::<B>(b1, base as u16);
            let (hi, b3) = rd::<B>(b2, base.wrapping_add(1) as u16);
            (word_spec(lo, hi), b3)
        },
        AddressingMode::IndirectY => {
            let (base, b1) = rd::<B>(b, pc);
            let (lo, b2) = rd::<B>(b1, base as u16);
            let (hi, b3) = rd::<B>(b2, base.wrapping_add(1) as u16);
            (word_spec(lo, hi).wrapping_add(c.y as u16), b3)
        },
        AddressingMode::ZeroPageIndirect => {
            let (z, b1) = rd::<B>(b, pc);
            bus_read_u16::<B>(b1, z as u16)
        },
        _ => (0, b),
    }
}

/// Target of JMP (abs): the pointer at `pc`, then the word it points to
/// (with the NMOS page-wrap bug when configured).
pub open spec fn fetch_indirect_target_spec<B: Bus>(c: CpuView, b: B::V, pc: u16) -> (u16, B::V) {
    let (ptr, b1) = bus_read_u16::<B>(b, pc);
    indirect_target_spec::<B>(c.config.quirks.jmp_indirect_bug, b1, ptr)
}

// ───────────────────────── register operations ─────────────────────────

pub open spec fn nz(c: CpuView, v: u8) -> CpuView {
    CpuView { sr: with_nz(c.sr, v), ..c }
}

pub open spec fn set_flag(c: CpuView, mask: u8, on: bool) -> CpuView {
    CpuView { sr: with_flag(c.sr, mask, on), ..c }
}

pub open spec fn lda(c: CpuView, v: u8) -> CpuView {
    nz(CpuView { a: v, ..c }, v)
}

pub open spec fn ldx(c: CpuView, v: u8) -> CpuView {
    nz(CpuView { x: v, ..c }, v)
}

pub open spec fn ldy(c: CpuView, v: u8) -> CpuView {
    nz(CpuView { y: v, ..c }, v)
}

pub open spec fn and_a(c: CpuView, v: u8) -> CpuView {
    lda(c, c.a & v)
}

pub open spec fn ora(c: CpuView, v: u8) -> CpuView {
    lda(c, c.a | v)
}

pub open spec fn eor(c: CpuView, v: u8) -> CpuView {
    lda(c, c.a ^ v)
}

/// The digit-wise decimal sum used by ADC in decimal mode: the result
/// (before truncation to a byte) and the carry.
pub open spec fn adc_decimal(a: u16, v: u16, carry: u16) -> (u16, bool) {
    let lo = ((a & 0x0F) + (v & 0x0F) + carry) as u16;
    let hi = ((a >> 4u16) + (v >> 4u16)) as u16;
    let lo2 = if lo >= 10 { (lo - 10) as u16 } else { lo };
    let hi2 = if lo >= 10 { (hi + 1) as u16 } else { hi };
    let c = hi2 >= 10;
    let hi3 = if c { (hi2 - 10) as u16 } else { hi2 };
    ((hi3 << 4u16) | lo2, c)
}

/// ADC: A + operand + C. Binary: the low byte of the sum, C from its ninth bit.
/// Decimal mode (D set and BCD available): digit-wise decimal sum.
/// V from the binary sum in both modes; N and Z from the result.
pub open spec fn adc(c: CpuView, v: u8) -> CpuView {
    let carry = carry_in(c) as u16;
    let a = c.a as u16;
    let vv = v as u16;
    let bin = (a + vv + carry) as u16;
    let overflow = (c.a ^ v) & 0x80 == 0 && (c.a ^ (bin as u8)) & 0x80 != 0;
    let (result, cout) = if flag(c.sr, FLAG_D) && c.config.quirks.bcd_available {
        adc_decimal(a, vv, carry)
    } else {
        (bin, bin > 0xFF)
    };
    lda(set_flag(set_flag(c, FLAG_C, cout), FLAG_V, overflow), result as u8)
}

/// The decimal-mode correction used by SBC: result byte and carry (no borrow).
pub open spec fn sbc_decimal(a: u8, v: u8, carry: u16) -> (u8, bool) {
    let not_carry = (1 - carry) as u8;
    let r0 = a.wrapping_sub(v).wrapping_sub(not_carry);
    let r1 = if (a & 0x0F) < (v & 0x0F).wrapping_add(not_carry) { r0.wrapping_sub(6) } else { r0 };
    let r2 = if a < v.wrapping_add(not_carry) || r1 > 0x99 { r1.wrapping_sub(0x60) } else { r1 };
    (r2, a >= v.wrapping_add(not_carry))
}

/// SBC: A - operand - (1 - C), computed as A + !operand + C. Binary: the low
/// byte, C from the ninth bit. Decimal mode: digit-wise correction.
/// V from the binary result in both modes; N and Z from the result.
pub open spec fn sbc(c: CpuView, v: u8) -> CpuView {
    let carry = carry_in(c) as u16;
    let bin = (c.a as u16).wrapping_add((!v) as u16).wrapping_add(carry);
    let overflow = (c.a ^ v) & 0x80 != 0 && (c.a ^ (bin as u8)) & 0x80 != 0;
    let (result, cout) = if flag(c.sr, FLAG_D) && c.config.quirks.bcd_available {
        let (r, co) = sbc_decimal(c.a, v, carry);
        (r as u16, co)
    } else {
        (bin, bin > 0xFF)
    };
    lda(set_flag(set_flag(c, FLAG_C, cout), FLAG_V, overflow), result as u8)
}

/// CMP/CPX/CPY: C = reg >= operand, Z = reg == operand, then N and Z from reg - operand.
pub open spec fn compare(c: CpuView, reg: u8, v: u8) -> CpuView {
    nz(set_flag(set_flag(c, FLAG_C, reg >= v), FLAG_Z, reg == v), reg.wrapping_sub(v))
}

pub open spec fn bit(c: CpuView, v: u8) -> CpuView {
    set_flag(set_flag(set_flag(c, FLAG_Z, c.a & v == 0), FLAG_N, v & 0x80 != 0), FLAG_V, v & 0x40 != 0)
}

pub open spec fn asl_a(c: CpuView) -> CpuView {
    lda(set_flag(c, FLAG_C, c.a & 0x80 != 0), c.a << 1u8)
}

pub open spec fn lsr_a(c: CpuView) -> CpuView {
    lda(set_flag(c, FLAG_C, c.a & 1 != 0), c.a >> 1u8)
}

pub open spec fn rol_a(c: CpuView) -> CpuView {
    lda(set_flag(c, FLAG_C, c.a & 0x80 != 0), (c.a << 1u8) | carry_in(c))
}

pub open spec fn ror_a(c: CpuView) -> CpuView {
    lda(set_flag(c, FLAG_C, c.a & 1 != 0), (c.a >> 1u8) | (carry_in(c) << 7u8))
}

pub open spec fn alr(c: CpuView, v: u8) -> CpuView {
    let a = c.a & v;
    lda(set_flag(c, FLAG_C, a & 1 != 0), a >> 1u8)
}

pub open spec fn arr(c: CpuView, v: u8) -> CpuView {
    let a = c.a & v;
    let result = (a >> 1u8) | (carry_in(c) << 7u8);
    lda(set_flag(set_flag(c, FLAG_C, a & 1 != 0), FLAG_V, (a ^ result) & 0x40 != 0), result)
}

pub open spec fn anc(c: CpuView, v: u8) -> CpuView {
    let a = c.a & v;
    nz(set_flag(CpuView { a, ..c }, FLAG_C, a & 0x80 != 0), a)
}

/// Undocumented SBX (called SAX #imm here): X = (A & X) - operand, flags as for a compare.
pub open spec fn sax_imm(c: CpuView, v: u8) -> CpuView {
    let t = c.a & c.x;
    let r = t.wrapping_sub(v);
    CpuView { x: r, ..nz(set_flag(set_flag(c, FLAG_C, t >= v), FLAG_Z, t == v), r) }
}

/// A branch by the signed `offset` when `taken`: 2 cycles when not taken,
/// 3 when taken within the page, 4 across a page.
pub open spec fn branch(c: CpuView, offset: u8, taken: bool) -> (CpuView, u8) {
    if !taken {
        (c, 2)
    } else {
        let pc = c.pc.wrapping_add(offset as i8 as u16);
        (CpuView { pc, ..c }, if page_crossed(c.pc, pc) { 4 } else { 3 })
    }
}

// ───────────────────────── memory operations ─────────────────────────

/// The extra bus cycle of a read-modify-write instruction: a second read
/// (CMOS) or a write-back of the unmodified value (NMOS).
pub open spec fn rmw_dummy<B: Bus>(c: CpuView, b: B::V, addr: u16, original: u8) -> B::V {
    if c.config.quirks.rmw == RmwBehavior::Cmos {
        B::after_read(b, addr)
    } else {
        wr::<B>(b, addr, original)
    }
}

pub open spec fn inc_mem<B: Bus>(c: CpuView, b: B::V, addr: u16) -> (CpuView, B::V) {
    let (v0, b1) = rd::<B>(b, addr);
    let v = v0.wrapping_add(1);
    (nz(c, v), wr::<B>(b1, addr, v))
}

pub open spec fn dec_mem<B: Bus>(c: CpuView, b: B::V, addr: u16) -> (CpuView, B::V) {
    let (v0, b1) = rd::<B>(b, addr);
    let v = v0.wrapping_sub(1);
    (nz(c, v), wr::<B>(b1, addr, v))
}

/// Shift/rotate of a memory byte: the new byte is `f(old)`, carry from `carry_bit` of the old byte.
pub open spec fn shift_mem<B: Bus>(c: CpuView, b: B::V, addr: u16, left: bool, rotate: bool) -> (CpuView, B::V, u8) {
    let (val, b1) = rd::<B>(b, addr);
    let carry_out = if left { val & 0x80 != 0 } else { val & 1 != 0 };
    let c1 = set_flag(c, FLAG_C, carry_out);
    let b2 = rmw_dummy::<B>(c, b1, addr, val);
    let result = if left {
        (val << 1u8) | (if rotate { carry_in(c) } else { 0 })
    } else {
        (val >> 1u8) | (if rotate { carry_in(c) << 7u8 } else { 0 })
    };
    (c1, wr::<B>(b2, addr, result), result)
}

pub open spec fn push_a<B: Bus>(c: CpuView, b: B::V, v: u8) -> (CpuView, B::V) {
    push_spec::<B>(c, b, v)
}

pub open spec fn php<B: Bus>(c: CpuView, b: B::V) -> (CpuView, B::V) {
    push_spec::<B>(c, b, sr_push_value(c.sr) | 0x10)
}

pub open spec fn plp<B: Bus>(c: CpuView, b: B::V) -> (CpuView, B::V) {
    let (v, c1, b1) = pull_spec::<B>(c, b);
    (CpuView { sr: sr_from_pulled(v), ..c1 }, b1)
}

/// JSR: push PC-1 (high byte first) and jump.
pub open spec fn jsr<B: Bus>(c: CpuView, b: B::V, addr: u16) -> (CpuView, B::V) {
    let ret = c.pc.wrapping_sub(1);
    let (c1, b1) = push_spec::<B>(c, b, high_byte_spec(ret));
    let (c2, b2) = push_spec::<B>(c1, b1, low_byte_spec(ret));
    (CpuView { pc: addr, ..c2 }, b2)
}

/// RTS: pull the return address (low byte first) and continue after it.
pub open spec fn rts<B: Bus>(c: CpuView, b: B::V) -> (CpuView, B::V) {
    let (w, c1, b1) = pull_word_spec::<B>(c, b);
    (CpuView { pc: w.wrapping_add(1), ..c1 }, b1)
}

/// BRK: push PC+1 and the status with B set, set I, jump through 0xFFFE.
pub open spec fn brk<B: Bus>(c: CpuView, b: B::V) -> (CpuView, B::V) {
    let pc = c.pc.wrapping_add(1);
    let (c1, b1) = push_spec::<B>(CpuView { pc, ..c }, b, high_byte_spec(pc));
    let (c2, b2) = push_spec::<B>(c1, b1, low_byte_spec(pc));
    let (c3, b3) = push_spec::<B>(c2, b2, sr_push_value(c2.sr) | 0x10);
    let (target, b4) = bus_read_u16::<B>(b3, 0xFFFE);
    (CpuView { pc: target, ..set_flag(c3, FLAG_I, true) }, b4)
}

/// RTI: pull the status (B cleared), then the program counter.
pub open spec fn rti<B: Bus>(c: CpuView, b: B::V) -> (CpuView, B::V) {
    let (v, c1, b1) = pull_spec::<B>(c, b);
    let c2 = CpuView { sr: sr_from_pulled(v), ..c1 };
    let (w, c3, b2) = pull_word_spec::<B>(c2, b1);
    (CpuView { pc: w, ..c3 }, b2)
}

/// TSB/TRB: Z from A & mem, then mem = mem | A (set) or mem & !A (reset), N from the new value.
pub open spec fn test_bits<B: Bus>(c: CpuView, b: B::V, addr: u16, set: bool) -> (CpuView, B::V) {
    let (v, b1) = rd::<B>(b, addr);
    let c1 = set_flag(c, FLAG_Z, c.a & v == 0);
    let r = if set { v | c.a } else { v & !c.a };
    (set_flag(c1, FLAG_N, r & 0x80 != 0), wr::<B>(b1, addr, r))
}

/// The high byte of an address plus one, wrapping (used by the unstable store opcodes).
pub open spec fn high_plus_one(addr: u16) -> u8 {
    ((addr >> 8u16) as u8).wrapping_add(1)
}

// ───────────────────────── dispatch ─────────────────────────

pub open spec fn with_cross(cycles: u8, cross: bool) -> u8 {
    (cycles + if cross { 1u8 } else { 0u8 }) as u8
}

/// A read-operand instruction: fetch the operand with the instruction's mode,
/// apply `op`, take the base cycles plus one on a page crossing.
pub open spec fn read_op<B: Bus>(c: CpuView, b: B::V, info: OpcodeInfo, pc: u16, result: spec_fn(CpuView, u8) -> CpuView, count_cross: bool) -> (CpuView, B::V, u8) {
    let (v, _a, cross, b1) = fetch_operand_spec::<B>(c, b, info.mode, pc);
    (result(c, v), b1, if count_cross { with_cross(info.cycles, cross) } else { info.cycles })
}

/// A store instruction: compute the address with the instruction's mode and write `value`.
pub open spec fn store_op<B: Bus>(c: CpuView, b: B::V, info: OpcodeInfo, pc: u16, value: u8) -> (CpuView, B::V, u8) {
    let (addr, b1) = fetch_address_spec::<B>(c, b, info.mode, pc);
    (c, wr::<B>(b1, addr, value), info.cycles)
}

/// The 65C02 opcodes that replace NMOS undocumented or jam opcodes.
pub open spec fn cmos_override(opcode: u8) -> bool {
    matches!(opcode, 0x80 | 0x89 | 0xDA | 0x5A | 0xFA | 0x7A | 0x7C | 0x12 | 0x32 | 0x52 | 0x72
        | 0x92 | 0xB2 | 0xD2 | 0xF2 | 0x04 | 0x0C | 0x14 | 0x1C)
}

/// The twelve KIL/JAM opcodes.
pub open spec fn is_kil(opcode: u8) -> bool {
    matches!(opcode, 0x02 | 0x12 | 0x22 | 0x32 | 0x42 | 0x52 | 0x62 | 0x72 | 0x92 | 0xB2 | 0xD2 | 0xF2)
}

/// The 65C02 extensions (for the CMOS families, checked before anything else).
pub open spec fn cmos_spec<B: Bus>(c: CpuView, b: B::V, opcode: u8, info: OpcodeInfo, pc: u16) -> (CpuView, B::V, u8) {
    match opcode {
        0x80 => {
            let (o, _a, _x, b1) = fetch_operand_spec::<B>(c, b, AddressingMode::Relative, pc);
            let (c1, cy) = branch(c, o, true);
            (c1, b1, cy)
        },
        0x89 => {
            let (v, _a, _x, b1) = fetch_operand_spec::<B>(c, b, AddressingMode::Immediate, pc);
            (bit(c, v), b1, 2)
        },
        0xDA => {
            let (c1, b1) = push_spec::<B>(c, b, c.x);
            (c1, b1, 3)
        },
        0x5A => {
            let (c1, b1) = push_spec::<B>(c, b, c.y);
            (c1, b1, 3)
        },
        0xFA => {
            let (v, c1, b1) = pull_spec::<B>(c, b);
            (ldx(c1, v), b1, 4)
        },
        0x7A => {
            let (v, c1, b1) = pull_spec::<B>(c, b);
            (ldy(c1, v), b1, 4)
        },
        0x7C => {
            let (base, b1) = bus_read_u16::<B>(b, pc);
            let (target, b2) = bus_read_u16::<B>(b1, base.wrapping_add(c.x as u16));
            (CpuView { pc: target, ..c }, b2, 6)
        },
        0x12 | 0x32 | 0x52 | 0x72 | 0xB2 | 0xD2 | 0xF2 => {
            let (v, _a, _x, b1) = fetch_operand_spec::<B>(c, b, AddressingMode::ZeroPageIndirect, pc);
            let c1 = if opcode == 0x12 {
                ora(c, v)
            } else if opcode == 0x32 {
                and_a(c, v)
            } else if opcode == 0x52 {
                eor(c, v)
            } else if opcode == 0x72 {
                adc(c, v)
            } else if opcode == 0xB2 {
                lda(c, v)
            } else if opcode == 0xD2 {
                compare(c, c.a, v)
            } else {
                sbc(c, v)
            };
            (c1, b1, 5)
        },
        0x92 => {
            let (addr, b1) = fetch_address_spec::<B>(c, b, AddressingMode::ZeroPageIndirect, pc);
            (c, wr::<B>(b1, addr, c.a), 5)
        },
        0x04 | 0x0C => {
            let (addr, b1) = fetch_address_spec::<B>(c, b, info.mode, pc);
            let (c1, b2) = test_bits::<B>(c, b1, addr, true);
            (c1, b2, if opcode == 0x04 { 5 } else { 6 })
        },
        _ => {
            let mode = if opcode == 0x14 { AddressingMode::ZeroPage } else { AddressingMode::Absolute };
            let (addr, b1) = fetch_address_spec::<B>(c, b, mode, pc);
            let (c1, b2) = test_bits::<B>(c, b1, addr, false);
            (c1, b2, if opcode == 0x14 { 5 } else { 6 })
        },
    }
}

/// The instructions shared by every family (and the NMOS undocumented ones).
pub open spec fn main_spec<B: Bus>(c: CpuView, b: B::V, opcode: u8, info: OpcodeInfo, pc: u16) -> (CpuView, B::V, u8) {
    match opcode {
        0x00 => {
            let (c1, b1) = brk::<B>(c, b);
            (c1, b1, 7)
        },
        0xA9 | 0xA5 | 0xB5 | 0xAD | 0xBD | 0xB9 | 0xA1 | 0xB1 => read_op::<B>(c, b, info, pc, |c: CpuView, v: u8| lda(c, v), true),
        0xA3 | 0xA7 | 0xAF | 0xB3 | 0xB7 | 0xBF => read_op::<B>(c, b, info, pc, |c: CpuView, v: u8| ldx(lda(c, v), v), true),
        0xA2 | 0xA6 | 0xB6 | 0xAE | 0xBE => read_op::<B>(c, b, info, pc, |c: CpuView, v: u8| ldx(c, v), true),
        0xA0 | 0xA4 | 0xB4 | 0xAC | 0xBC => read_op::<B>(c, b, info, pc, |c: CpuView, v: u8| ldy(c, v), true),
        0x81 | 0x85 | 0x95 | 0x8D | 0x9D | 0x99 | 0x91 => store_op::<B>(c, b, info, pc, c.a),
        0x86 | 0x96 | 0x8E => store_op::<B>(c, b, info, pc, c.x),
        0x84 | 0x94 | 0x8C => store_op::<B>(c, b, info, pc, c.y),
        0x83 | 0x87 | 0x8F | 0x97 => store_op::<B>(c, b, info, pc, c.a & c.x),
        0xAA => (ldx(c, c.a), b, 2),
        0xA8 => (ldy(c, c.a), b, 2),
        0x8A => (lda(c, c.x), b, 2),
        0x98 => (lda(c, c.y), b, 2),
        0xBA => (ldx(c, c.sp), b, 2),
        0x9A => (CpuView { sp: c.x, ..c }, b, 2),
        0x48 => {
            let (c1, b1) = push_spec::<B>(c, b, c.a);
            (c1, b1, 3)
        },
        0x68 => {
            let (v, c1, b1) = pull_spec::<B>(c, b);
            (lda(c1, v), b1, 4)
        },
        0x08 => {
            let (c1, b1) = php::<B>(c, b);
            (c1, b1, 3)
        },
        0x28 => {
            let (c1, b1) = plp::<B>(c, b);
            (c1, b1, 4)
        },
        0x69 | 0x65 | 0x75 | 0x6D | 0x7D | 0x79 | 0x61 | 0x71 => read_op::<B>(c, b, info, pc, |c: CpuView, v: u8| adc(c, v), true),
        0xE9 | 0xE5 | 0xF5 | 0xED | 0xFD | 0xF9 | 0xE1 | 0xF1 | 0xEB => read_op::<B>(c, b, info, pc, |c: CpuView, v: u8| sbc(c, v), true),
        0x29 | 0x25 | 0x35 | 0x2D | 0x3D | 0x39 | 0x21 | 0x31 => read_op::<B>(c, b, info, pc, |c: CpuView, v: u8| and_a(c, v), true),
        0x09 | 0x05 | 0x15 | 0x0D | 0x1D | 0x19 | 0x01 | 0x11 => read_op::<B>(c, b, info, pc, |c: CpuView, v: u8| ora(c, v), true),
        0x49 | 0x45 | 0x55 | 0x4D | 0x5D | 0x59 | 0x41 | 0x51 => read_op::<B>(c, b, info, pc, |c: CpuView, v: u8| eor(c, v), true),
        0xE6 | 0xF6 | 0xEE | 0xFE => {
            let (addr, b1) = fetch_address_spec::<B>(c, b, info.mode, pc);
            let (c1, b2) = inc_mem::<B>(c, b1, addr);
            (c1, b2, info.cycles)
        },
        0xC6 | 0xD6 | 0xCE | 0xDE => {
            let (addr, b1) = fetch_address_spec::<B>(c, b, info.mode, pc);
            let (c1, b2) = dec_mem::<B>(c, b1, addr);
            (c1, b2, info.cycles)
        },
        0xE8 => (ldx(c, c.x.wrapping_add(1)), b, 2),
        0xC8 => (ldy(c, c.y.wrapping_add(1)), b, 2),
        0xCA => (ldx(c, c.x.wrapping_sub(1)), b, 2),
        0x88 => (ldy(c, c.y.wrapping_sub(1)), b, 2),
        0x0A => (asl_a(c), b, 2),
        0x4A => (lsr_a(c), b, 2),
        0x2A => (rol_a(c), b, 2),
        0x6A => (ror_a(c), b, 2),
        0x06 | 0x16 | 0x0E | 0x1E | 0x46 | 0x56 | 0x4E | 0x5E | 0x26 | 0x36 | 0x2E | 0x3E | 0x66
        | 0x76 | 0x6E | 0x7E => {
            let (addr, b1) = fetch_address_spec::<B>(c, b, info.mode, pc);
            let left = opcode & 0x40 == 0;
            let rotate = opcode & 0x20 != 0;
            let (c1, b2, r) = shift_mem::<B>(c, b1, addr, left, rotate);
            (nz(c1, r), b2, info.cycles)
        },
        0xC9 | 0xC5 | 0xD5 | 0xCD | 0xDD | 0xD9 | 0xC1 | 0xD1 => read_op::<B>(c, b, info, pc, |c: CpuView, v: u8| compare(c, c.a, v), true),
        0xE0 | 0xE4 | 0xEC => read_op::<B>(c, b, info, pc, |c: CpuView, v: u8| compare(c, c.x, v), false),
        0xC0 | 0xC4 | 0xCC => read_op::<B>(c, b, info, pc, |c: CpuView, v: u8| compare(c, c.y, v), false),
        0x24 | 0x2C => read_op::<B>(c, b, info, pc, |c: CpuView, v: u8| bit(c, v), false),
        0x4C => {
            let (addr, b1) = bus_read_u16::<B>(b, pc);
            (CpuView { pc: addr, ..c }, b1, 3)
        },
        0x6C => {
            let (addr, b1) = fetch_indirect_target_spec::<B>(c, b, pc);
            (CpuView { pc: addr, ..c }, b1, 5)
        },
        0x20 => {
            let (addr, b1) = bus_read_u16::<B>(b, pc);
            let (c1, b2) = jsr::<B>(c, b1, addr);
            (c1, b2, 6)
        },
        0x60 => {
            let (c1, b1) = rts::<B>(c, b);
            (c1, b1, 6)
        },
        0x90 | 0xB0 | 0xF0 | 0x30 | 0xD0 | 0x10 | 0x50 | 0x70 => {
            let (o, _a, _x, b1) = fetch_operand_spec::<B>(c, b, AddressingMode::Relative, pc);
            let taken = if opcode == 0x90 {
                !flag(c.sr, FLAG_C)
            } else if opcode == 0xB0 {
                flag(c.sr, FLAG_C)
            } else if opcode == 0xF0 {
                flag(c.sr, FLAG_Z)
            } else if opcode == 0x30 {
                flag(c.sr, FLAG_N)
            } else if opcode == 0xD0 {
                !flag(c.sr, FLAG_Z)
            } else if opcode == 0x10 {
                !flag(c.sr, FLAG_N)
            } else if opcode == 0x50 {
                !flag(c.sr, FLAG_V)
            } else {
                flag(c.sr, FLAG_V)
            };
            let (c1, cy) = branch(c, o, taken);
            (c1, b1, cy)
        },
        0x18 => (set_flag(c, FLAG_C, false), b, 2),
        0xD8 => (set_flag(c, FLAG_D, false), b, 2),
        0x58 => (set_flag(c, FLAG_I, false), b, 2),
        0xB8 => (set_flag(c, FLAG_V, false), b, 2),
        0x38 => (set_flag(c, FLAG_C, true), b, 2),
        0xF8 => (set_flag(c, FLAG_D, true), b, 2),
        0x78 => (set_flag(c, FLAG_I, true), b, 2),
        0xEA => (c, b, 2),
        0x40 => {
            let (c1, b1) = rti::<B>(c, b);
            (c1, b1, 6)
        },
        0x04 | 0x0C => {
            let mode = if opcode == 0x04 { AddressingMode::ZeroPage } else { AddressingMode::Absolute };
            if !c.config.quirks.stp_available {
                let (_v, _a, _x, b1) = fetch_operand_spec::<B>(c, b, mode, pc);
                (c, b1, if opcode == 0x04 { 3 } else { 4 })
            } else {
                let (addr, b1) = fetch_address_spec::<B>(c, b, mode, pc);
                let (c1, b2) = test_bits::<B>(c, b1, addr, true);
                (c1, b2, if opcode == 0x04 { 5 } else { 6 })
            }
        },
        0x03 | 0x07 | 0x0F | 0x13 | 0x17 | 0x1B | 0x1F | 0x23 | 0x27 | 0x2F | 0x33 | 0x37 | 0x3B
        | 0x3F | 0x43 | 0x47 | 0x4F | 0x53 | 0x57 | 0x5B | 0x5F | 0x63 | 0x67 | 0x6F | 0x73 | 0x77
        | 0x7B | 0x7F => {
            let (addr, b1) = fetch_address_spec::<B>(c, b, info.mode, pc);
            let left = opcode & 0x40 == 0;
            let rotate = opcode & 0x20 != 0;
            let (c1, b2, r) = shift_mem::<B>(c, b1, addr, left, rotate);
            let c2 = if opcode & 0x60 == 0x00 {
                ora(c1, r)
            } else if opcode & 0x60 == 0x20 {
                and_a(c1, r)
            } else if opcode & 0x60 == 0x40 {
                eor(c1, r)
            } else {
                adc(c1, r)
            };
            (c2, b2, info.cycles)
        },
        0xC3 | 0xC7 | 0xCF | 0xD3 | 0xD7 | 0xDF => {
            let (addr, b1) = fetch_address_spec::<B>(c, b, info.mode, pc);
            let (v0, b2) = rd::<B>(b1, addr);
            let v = v0.wrapping_sub(1);
            (compare(c, c.a, v), wr::<B>(b2, addr, v), info.cycles)
        },
        0xE3 | 0xE7 | 0xEF | 0xF3 | 0xF7 | 0xFB | 0xFF => {
            let (addr, b1) = fetch_address_spec::<B>(c, b, info.mode, pc);
            let (v0, b2) = rd::<B>(b1, addr);
            let v = v0.wrapping_add(1);
            (sbc(c, v), wr::<B>(b2, addr, v), info.cycles)
        },
        0x0B | 0x2B | 0x4B | 0x6B | 0x8B | 0xAB | 0xCB => {
            let (v, _a, _x, b1) = fetch_operand_spec::<B>(c, b, AddressingMode::Immediate, pc);
            let c1 = if opcode == 0x0B || opcode == 0x2B {
                anc(c, v)
            } else if opcode == 0x4B {
                alr(c, v)
            } else if opcode == 0x6B {
                arr(c, v)
            } else if opcode == 0x8B {
                lda(c, c.x & v)
            } else if opcode == 0xAB {
                ldx(lda(c, (c.a | 0xEE) & v), (c.a | 0xEE) & v)
            } else {
                sax_imm(c, v)
            };
            (c1, b1, 2)
        },
        0xBB => {
            let (addr, b1) = fetch_address_spec::<B>(c, b, info.mode, pc);
            let (v, b2) = rd::<B>(b1, addr);
            let a = c.sp & v;
            (nz(CpuView { a, x: a, sp: a, ..c }, a), b2, info.cycles)
        },
        0x9B => {
            let (addr, b1) = fetch_address_spec::<B>(c, b, info.mode, pc);
            let sp = c.a & c.x;
            (CpuView { sp, ..c }, wr::<B>(b1, addr, sp & high_plus_one(addr)), info.cycles)
        },
        0x9C | 0x9E | 0x9F | 0x93 => {
            let (addr, b1) = fetch_address_spec::<B>(c, b, info.mode, pc);
            let v = if opcode == 0x9C {
                c.y
            } else if opcode == 0x9E {
                c.x
            } else {
                c.a & c.x
            };
            (c, wr::<B>(b1, addr, v & high_plus_one(addr)), info.cycles)
        },
        0x80 | 0x82 | 0x89 | 0xC2 | 0xE2 => {
            let (_v, _a, _x, b1) = fetch_operand_spec::<B>(c, b, AddressingMode::Immediate, pc);
            (c, b1, 2)
        },
        0x44 | 0x64 => {
            let (_v, _a, _x, b1) = fetch_operand_spec::<B>(c, b, AddressingMode::ZeroPage, pc);
            (c, b1, 3)
        },
        0x14 | 0x34 | 0x54 | 0x74 | 0xD4 | 0xF4 => {
            let (_v, _a, _x, b1) = fetch_operand_spec::<B>(c, b, AddressingMode::ZeroPageX, pc);
            (c, b1, 4)
        },
        0x1C | 0x3C | 0x5C | 0x7C | 0xDC | 0xFC => {
            let (_v, _a, cross, b1) = fetch_operand_spec::<B>(c, b, AddressingMode::AbsoluteX, pc);
            (c, b1, with_cross(4, cross))
        },
        _ => (c, b, info.cycles),
    }
}

/// One instruction: read the opcode at PC, advance PC by the instruction
/// length, then (in this order) the 65C02 extensions on CMOS families, WAI and
/// STP on CMOS families, the KIL opcodes (halt), undocumented opcodes as
/// 2-cycle no-ops when the configuration disables them, and the common
/// instruction set. Gives the CPU, the bus and the cycle count.
/// The operand address is PC+1 modulo 0x10000.
pub open spec fn execute_spec<B: Bus>(c: CpuView, b: B::V) -> (CpuView, B::V, u8) {
    let (opcode, b1) = rd::<B>(b, c.pc);
    match decode_spec(opcode) {
        None => (CpuView { pc: c.pc.wrapping_add(1), ..c }, b1, 2),
        Some(info) => {
            let pc = c.pc.wrapping_add(1);
            let c1 = CpuView { pc: c.pc.wrapping_add(info.bytes as u16), ..c };
            let cmos = c.config.family.is_cmos();
            if cmos && cmos_override(opcode) {
                cmos_spec::<B>(c1, b1, opcode, info, pc)
            } else if cmos && opcode == 0xCB {
                (CpuView { waiting: true, ..c1 }, b1, 2)
            } else if cmos && opcode == 0xDB {
                (CpuView { stopped: true, ..c1 }, b1, 2)
            } else if is_kil(opcode) {
                (CpuView { halted: true, ..c1 }, b1, 2)
            } else if !c.config.quirks.undocumented_ops && undocumented(opcode) {
                let (_v, _a, _x, b2) = fetch_operand_spec::<B>(c1, b1, info.mode, pc);
                (c1, b2, 2)
            } else {
                main_spec::<B>(c1, b1, opcode, info, pc)
            }
        },
    }
}

// ───────────────────────── laws ─────────────────────────

/// Whether a byte is a valid packed BCD number (two decimal digits).
pub open spec fn is_bcd(x: u8) -> bool {
    x & 0x0F <= 9 && x >> 4u8 <= 9
}

/// The number a packed BCD byte stands for.
pub open spec fn bcd_value(x: u8) -> int {
    (x >> 4u8) as int * 10 + (x & 0x0F) as int
}

/// The packed BCD byte of a number below 100.
pub open spec fn to_bcd(n: int) -> int {
    (n / 10) * 16 + n % 10
}

/// One rotation of A through the carry, left then right (ROL then ROR) at
/// the bit level: A and C come back, and N and Z are set from A.
proof fn lemma_rotate_back(sr: u8, a: u8, cin: u8, r1: u8, s1: u8, cin2: u8, r2: u8, s2: u8)
    requires
        cin == (if sr & 1 != 0 { 1u8 } else { 0u8 }),
        r1 == (a << 1u8) | cin,
        s1 == with_nz(with_flag(sr, 0x01, a & 0x80 != 0), r1),
        cin2 == (if s1 & 1 != 0 { 1u8 } else { 0u8 }),
        r2 == (r1 >> 1u8) | (cin2 << 7u8),
        s2 == with_nz(with_flag(s1, 0x01, r1 & 1 != 0), r2),
    ensures
        r2 == a,
        (s2 & 1 != 0) == (sr & 1 != 0),
        (s2 & 2 != 0) == (a == 0),
        (s2 & 0x80 != 0) == (a & 0x80 != 0),
{
    assert(r2 == a && (s2 & 1 != 0) == (sr & 1 != 0) && (s2 & 2 != 0) == (a == 0) && (s2 & 0x80 != 0) == (a & 0x80
        != 0)) by (bit_vector)
        requires
            cin == (if sr & 1 != 0 { 1u8 } else { 0u8 }),
            r1 == (a << 1u8) | cin,
            s1 == with_nz(with_flag(sr, 0x01, a & 0x80 != 0), r1),
            cin2 == (if s1 & 1 != 0 { 1u8 } else { 0u8 }),
            r2 == (r1 >> 1u8) | (cin2 << 7u8),
            s2 == with_nz(with_flag(s1, 0x01, r1 & 1 != 0), r2),
    ;
}

/// One rotation of A through the carry, right then left (ROR then ROL) at
/// the bit level: A and C come back, and N and Z are set from A.
proof fn lemma_rotate_forth(sr: u8, a: u8, cin: u8, r1: u8, s1: u8, cin2: u8, r2: u8, s2: u8)
    requires
        cin == (if sr & 1 != 0 { 1u8 } else { 0u8 }),
        r1 == (a >> 1u8) | (cin << 7u8),
        s1 == with_nz(with_flag(sr, 0x01, a & 1 != 0), r1),
        cin2 == (if s1 & 1 != 0 { 1u8 } else { 0u8 }),
        r2 == (r1 << 1u8) | cin2,
        s2 == with_nz(with_flag(s1, 0x01, r1 & 0x80 != 0), r2),
    ensures
        r2 == a,
        (s2 & 1 != 0) == (sr & 1 != 0),
        (s2 & 2 != 0) == (a == 0),
        (s2 & 0x80 != 0) == (a & 0x80 != 0),
{
    assert(r2 == a && (s2 & 1 != 0) == (sr & 1 != 0) && (s2 & 2 != 0) == (a == 0) && (s2 & 0x80 != 0) == (a & 0x80
        != 0)) by (bit_vector)
        requires
            cin == (if sr & 1 != 0 { 1u8 } else { 0u8 }),
            r1 == (a >> 1u8) | (cin << 7u8),
            s1 == with_nz(with_flag(sr, 0x01, a & 1 != 0), r1),
            cin2 == (if s1 & 1 != 0 { 1u8 } else { 0u8 }),
            r2 == (r1 << 1u8) | cin2,
            s2 == with_nz(with_flag(s1, 0x01, r1 & 0x80 != 0), r2),
    ;
}

/// ROR undoes ROL, and ROL undoes ROR: both rotate the nine bits made of
/// the carry and A, one way and the other, so A and the carry come back
/// (with N and Z set from A).
pub proof fn lemma_rol_ror(c: CpuView)
    ensures
        ror_a(rol_a(c)).a == c.a,
        flag(ror_a(rol_a(c)).sr, FLAG_C) == flag(c.sr, FLAG_C),
        flag(ror_a(rol_a(c)).sr, FLAG_Z) == (c.a == 0),
        flag(ror_a(rol_a(c)).sr, FLAG_N) == (c.a & 0x80 != 0),
        rol_a(ror_a(c)).a == c.a,
        flag(rol_a(ror_a(c)).sr, FLAG_C) == flag(c.sr, FLAG_C),
        flag(rol_a(ror_a(c)).sr, FLAG_Z) == (c.a == 0),
        flag(rol_a(ror_a(c)).sr, FLAG_N) == (c.a & 0x80 != 0),
{
    let c1 = rol_a(c);
    lemma_rotate_back(c.sr, c.a, carry_in(c), c1.a, c1.sr, carry_in(c1), ror_a(c1).a, ror_a(c1).sr);
    let c2 = ror_a(c);
    lemma_rotate_forth(c.sr, c.a, carry_in(c), c2.a, c2.sr, carry_in(c2), rol_a(c2).a, rol_a(c2).sr);
}

/// Binary ADC: A becomes the low byte of A + operand + C, and C is set
/// exactly when that sum exceeds 255.
pub proof fn lemma_adc_binary(c: CpuView, v: u8)
    requires
        !(flag(c.sr, FLAG_D) && c.config.quirks.bcd_available),
    ensures
        adc(c, v).a as int == (c.a as int + v as int + carry_in(c) as int) % 256,
        flag(adc(c, v).sr, FLAG_C) == (c.a as int + v as int + carry_in(c) as int > 255),
        flag(adc(c, v).sr, FLAG_Z) == (adc(c, v).a == 0),
{
    let carry = carry_in(c) as u16;
    let a = c.a as u16;
    let vv = v as u16;
    let bin = (a + vv + carry) as u16;
    assert((bin as u8) as int == bin as int % 256) by (bit_vector);
    lemma_flags_after_lda(c, v);
}

/// Flags C and V set before a load survive the N/Z update of the load.
proof fn lemma_flags_after_lda(c: CpuView, v: u8)
    ensures
        forall|cout: bool, ov: bool, r: u8|
            #![trigger lda(set_flag(set_flag(c, FLAG_C, cout), FLAG_V, ov), r)]
            flag(lda(set_flag(set_flag(c, FLAG_C, cout), FLAG_V, ov), r).sr, FLAG_C) == cout
            && flag(lda(set_flag(set_flag(c, FLAG_C, cout), FLAG_V, ov), r).sr, FLAG_V) == ov
            && flag(lda(set_flag(set_flag(c, FLAG_C, cout), FLAG_V, ov), r).sr, FLAG_Z) == (r == 0)
            && flag(lda(set_flag(set_flag(c, FLAG_C, cout), FLAG_V, ov), r).sr, FLAG_N) == (r & 0x80 != 0),
{
    assert forall|cout: bool, ov: bool, r: u8|
        #![trigger lda(set_flag(set_flag(c, FLAG_C, cout), FLAG_V, ov), r)]
        flag(lda(set_flag(set_flag(c, FLAG_C, cout), FLAG_V, ov), r).sr, FLAG_C) == cout
        && flag(lda(set_flag(set_flag(c, FLAG_C, cout), FLAG_V, ov), r).sr, FLAG_V) == ov
        && flag(lda(set_flag(set_flag(c, FLAG_C, cout), FLAG_V, ov), r).sr, FLAG_Z) == (r == 0)
        && flag(lda(set_flag(set_flag(c, FLAG_C, cout), FLAG_V, ov), r).sr, FLAG_N) == (r & 0x80 != 0) by {
        let s0 = c.sr;
        let s1 = with_flag(s0, FLAG_C, cout);
        let s2 = with_flag(s1, FLAG_V, ov);
        let s3 = with_flag(s2, FLAG_N, r & 0x80 != 0);
        let s4 = with_flag(s3, FLAG_Z, r == 0);
        crate::mos6502::cpu::lemma_with_flag(s0, FLAG_C, cout, FLAG_V);
        crate::mos6502::cpu::lemma_with_flag(s1, FLAG_V, ov, FLAG_C);
        crate::mos6502::cpu::lemma_with_flag(s2, FLAG_N, r & 0x80 != 0, FLAG_C);
        crate::mos6502::cpu::lemma_with_flag(s2, FLAG_N, r & 0x80 != 0, FLAG_V);
        crate::mos6502::cpu::lemma_with_flag(s3, FLAG_Z, r == 0, FLAG_C);
        crate::mos6502::cpu::lemma_with_flag(s3, FLAG_Z, r == 0, FLAG_V);
        crate::mos6502::cpu::lemma_with_flag(s3, FLAG_Z, r == 0, FLAG_N);
    }
}

/// Decimal ADC on two valid BCD operands: A becomes the BCD form of
/// (A + operand + C) mod 100, and C is set exactly when that sum reaches 100.
pub proof fn lemma_adc_decimal(c: CpuView, v: u8)
    requires
        flag(c.sr, FLAG_D) && c.config.quirks.bcd_available,
        is_bcd(c.a),
        is_bcd(v),
    ensures
        adc(c, v).a as int == to_bcd((bcd_value(c.a) + bcd_value(v) + carry_in(c)) % 100),
        flag(adc(c, v).sr, FLAG_C) == (bcd_value(c.a) + bcd_value(v) + carry_in(c) >= 100),
{
    let a = c.a;
    let carry = carry_in(c);
    let (r, co) = adc_decimal(a as u16, v as u16, carry as u16);
    assert(({
        let lo = (((a as u16) & 0x0F) + ((v as u16) & 0x0F) + (carry as u16)) as u16;
        let hi = (((a as u16) >> 4u16) + ((v as u16) >> 4u16)) as u16;
        let lo2 = if lo >= 10 { (lo - 10) as u16 } else { lo };
        let hi2 = if lo >= 10 { (hi + 1) as u16 } else { hi };
        let cc = hi2 >= 10;
        let hi3 = if cc { (hi2 - 10) as u16 } else { hi2 };
        let sum = ((a >> 4u8) as u16) * 10 + (a & 0x0F) as u16 + ((v >> 4u8) as u16) * 10 + (v & 0x0F) as u16 + carry as u16;
        &&& cc == (sum >= 100)
        &&& (((hi3 << 4u16) | lo2) as u8) as u16 == ((sum % 100) / 10) * 16 + (sum % 100) % 10
    })) by (bit_vector)
        requires
            a & 0x0F <= 9,
            a >> 4u8 <= 9,
            v & 0x0F <= 9,
            v >> 4u8 <= 9,
            carry <= 1,
    ;
    lemma_flags_after_lda(c, v);
}

/// Binary SBC: A becomes A - operand - (1 - C) modulo 256, and C is set
/// exactly when no borrow occurs (A >= operand + 1 - C).
pub proof fn lemma_sbc_binary(c: CpuView, v: u8)
    requires
        !(flag(c.sr, FLAG_D) && c.config.quirks.bcd_available),
    ensures
        sbc(c, v).a as int == (c.a as int - v as int - (1 - carry_in(c) as int)) % 256,
        flag(sbc(c, v).sr, FLAG_C) == (c.a as int >= v as int + (1 - carry_in(c) as int)),
{
    let carry = carry_in(c) as u16;
    let a = c.a;
    assert(({
        let bin = (a as u16).wrapping_add((!v) as u16).wrapping_add(carry);
        &&& (bin as u8) as int == (a as int - v as int - (1 - carry as int)) % 256
        &&& (bin > 0xFF) == (a as int >= v as int + (1 - carry as int))
    })) by (bit_vector)
        requires
            carry <= 1,
    ;
    lemma_flags_after_lda(c, v);
}

/// A byte read as a two's-complement signed number.
pub open spec fn signed(x: u8) -> int {
    if x >= 128 { x as int - 256 } else { x as int }
}

/// ADC sets V exactly when the signed sum A + operand + C leaves the range
/// -128..=127 (in decimal mode too, where V comes from the binary sum).
pub proof fn lemma_adc_overflow(c: CpuView, v: u8)
    ensures
        flag(adc(c, v).sr, FLAG_V) == (signed(c.a) + signed(v) + carry_in(c) < -128
            || signed(c.a) + signed(v) + carry_in(c) > 127),
{
    let a = c.a;
    let carry = carry_in(c) as u16;
    assert(({
        let bin = (a as u16 + v as u16 + carry) as u16;
        ((a ^ v) & 0x80 == 0 && (a ^ (bin as u8)) & 0x80 != 0) == ((a < 128 && v < 128 && (a as int) + (v as int)
            + (carry as int) >= 128) || (a >= 128 && v >= 128 && (a as int) + (v as int) + (carry as int) < 384))
    })) by (bit_vector)
        requires
            carry <= 1,
    ;
    lemma_flags_after_lda(c, v);
}

/// SBC sets V exactly when the signed difference A - operand - (1 - C)
/// leaves the range -128..=127 (in decimal mode too).
pub proof fn lemma_sbc_overflow(c: CpuView, v: u8)
    ensures
        flag(sbc(c, v).sr, FLAG_V) == (signed(c.a) - signed(v) - (1 - carry_in(c)) < -128
            || signed(c.a) - signed(v) - (1 - carry_in(c)) > 127),
{
    let a = c.a;
    let carry = carry_in(c) as u16;
    assert(({
        let bin = (a as u16).wrapping_add((!v) as u16).wrapping_add(carry);
        ((a ^ v) & 0x80 != 0 && (a ^ (bin as u8)) & 0x80 != 0) == ((a < 128 && v >= 128 && (a as int) - (v as int)
            - (1 - (carry as int)) >= -128) || (a >= 128 && v < 128 && (a as int) - (v as int) - (1 - (carry as int))
            < 128))
    })) by (bit_vector)
        requires
            carry <= 1,
    ;
    lemma_flags_after_lda(c, v);
}

/// CMP, CPX and CPY compare as unsigned numbers: C is set exactly when the
/// register is at least the operand, Z exactly when the two are equal, and N
/// is bit 7 of their difference modulo 256. The registers and the V, D and
/// I flags are left as they were.
pub proof fn lemma_compare_flags(c: CpuView, reg: u8, v: u8)
    ensures
        flag(compare(c, reg, v).sr, FLAG_C) == (reg as int >= v as int),
        flag(compare(c, reg, v).sr, FLAG_Z) == (reg == v),
        flag(compare(c, reg, v).sr, FLAG_N) == ((reg as int - v as int) % 256 >= 128),
        flag(compare(c, reg, v).sr, FLAG_V) == flag(c.sr, FLAG_V),
        flag(compare(c, reg, v).sr, FLAG_D) == flag(c.sr, FLAG_D),
        flag(compare(c, reg, v).sr, FLAG_I) == flag(c.sr, FLAG_I),
        compare(c, reg, v).a == c.a,
        compare(c, reg, v).x == c.x,
        compare(c, reg, v).y == c.y,
        compare(c, reg, v).sp == c.sp,
        compare(c, reg, v).pc == c.pc,
{
    let d = reg.wrapping_sub(v);
    let s0 = c.sr;
    let s1 = with_flag(s0, FLAG_C, reg >= v);
    let s2 = with_flag(s1, FLAG_Z, reg == v);
    let s3 = with_flag(s2, FLAG_N, d & 0x80 != 0);
    let s4 = with_flag(s3, FLAG_Z, d == 0);
    assert(d as int == (reg as int - v as int) % 256);
    assert((d & 0x80 != 0) == (d >= 128)) by (bit_vector);
    crate::mos6502::cpu::lemma_with_flag(s0, FLAG_C, reg >= v, FLAG_Z);
    crate::mos6502::cpu::lemma_with_flag(s1, FLAG_Z, reg == v, FLAG_C);
    crate::mos6502::cpu::lemma_with_flag(s2, FLAG_N, d & 0x80 != 0, FLAG_C);
    crate::mos6502::cpu::lemma_with_flag(s3, FLAG_Z, d == 0, FLAG_C);
    crate::mos6502::cpu::lemma_with_flag(s3, FLAG_Z, d == 0, FLAG_N);
    let others = seq![FLAG_V, FLAG_D, FLAG_I];
    assert forall|i: int| 0 <= i < 3 implies flag(s4, #[trigger] others[i]) == flag(s0, others[i]) by {
        let m = others[i];
        crate::mos6502::cpu::lemma_with_flag(s0, FLAG_C, reg >= v, m);
        crate::mos6502::cpu::lemma_with_flag(s1, FLAG_Z, reg == v, m);
        crate::mos6502::cpu::lemma_with_flag(s2, FLAG_N, d & 0x80 != 0, m);
        crate::mos6502::cpu::lemma_with_flag(s3, FLAG_Z, d == 0, m);
    }
    assert(others[0] == FLAG_V && others[1] == FLAG_D && others[2] == FLAG_I);
}

/// Decimal SBC on two valid BCD operands: A becomes the BCD form of
/// (A - operand - (1 - C)) mod 100, and C is set exactly when no borrow occurs.
pub proof fn lemma_sbc_decimal(c: CpuView, v: u8)
    requires
        flag(c.sr, FLAG_D) && c.config.quirks.bcd_available,
        is_bcd(c.a),
        is_bcd(v),
    ensures
        sbc(c, v).a as int == to_bcd((bcd_value(c.a) - bcd_value(v) - (1 - carry_in(c))) % 100),
        flag(sbc(c, v).sr, FLAG_C) == (bcd_value(c.a) - bcd_value(v) - (1 - carry_in(c)) >= 0),
{
    let a = c.a;
    let carry = carry_in(c) as u16;
    assert(({
        let (r, co) = sbc_decimal(a, v, carry);
        let diff = ((a >> 4u8) as int) * 10 + (a & 0x0F) as int - (((v >> 4u8) as int) * 10 + (v & 0x0F) as int) - (1 - carry as int);
        &&& co == (diff >= 0)
        &&& r as int == ((diff % 100) / 10) * 16 + (diff % 100) % 10
    })) by (bit_vector)
        requires
            a & 0x0F <= 9,
            a >> 4u8 <= 9,
            v & 0x0F <= 9,
            v >> 4u8 <= 9,
            carry <= 1,
    ;
    lemma_flags_after_lda(c, v);
}

/// The counters and the configuration of `d` are those of `c`.
pub open spec fn same_counters(d: CpuView, c: CpuView) -> bool {
    d.instructions == c.instructions && d.cycles == c.cycles && d.config == c.config
}

proof fn lemma_cmos_keeps_counters<B: Bus>(c: CpuView, b: B::V, opcode: u8, info: OpcodeInfo, pc: u16)
    ensures
        same_counters(cmos_spec::<B>(c, b, opcode, info, pc).0, c),
{
}

#[verifier::rlimit(100)]
proof fn lemma_main_keeps_counters<B: Bus>(c: CpuView, b: B::V, opcode: u8, info: OpcodeInfo, pc: u16)
    ensures
        same_counters(main_spec::<B>(c, b, opcode, info, pc).0, c),
{
}

/// An instruction leaves the counters and the configuration of the CPU as
/// they were: it changes registers, flags, run state and the bus only.
pub proof fn lemma_execute_keeps_counters<B: Bus>(c: CpuView, b: B::V)
    ensures
        same_counters(execute_spec::<B>(c, b).0, c),
{
    let (opcode, b1) = rd::<B>(b, c.pc);
    let info = decode_spec(opcode)->0;
    let c1 = CpuView { pc: c.pc.wrapping_add(info.bytes as u16), ..c };
    lemma_cmos_keeps_counters::<B>(c1, b1, opcode, info, c.pc.wrapping_add(1));
    lemma_main_keeps_counters::<B>(c1, b1, opcode, info, c.pc.wrapping_add(1));
}

} // verus!
