//! The 6502 processor core: registers, status flags, stack operations and
//! effective-address helpers.

use vstd::prelude::*;
use crate::bus::{Bus, bus_read_u16, word_spec, low_byte_spec, high_byte_spec, next_addr, word, low_byte, high_byte};
use crate::mos6502::config::{CpuFamily, MachineConfig, RmwBehavior, nmos_quirks, preset};
use crate::text::{bit_char, push_char};

verus! {

/// Mask of the negative flag (bit 7).
pub const FLAG_N: u8 = 0x80;
/// Mask of the overflow flag (bit 6).
pub const FLAG_V: u8 = 0x40;
/// Mask of the unused bit (bit 5), which reads as 1.
pub const FLAG_U: u8 = 0x20;
/// Mask of the break flag (bit 4).
pub const FLAG_B: u8 = 0x10;
/// Mask of the decimal-mode flag (bit 3).
pub const FLAG_D: u8 = 0x08;
/// Mask of the interrupt-disable flag (bit 2).
pub const FLAG_I: u8 = 0x04;
/// Mask of the zero flag (bit 1).
pub const FLAG_Z: u8 = 0x02;
/// Mask of the carry flag (bit 0).
pub const FLAG_C: u8 = 0x01;

/// Whether the bits of `mask` are set in `bits` (for a one-bit mask: the flag).
pub open spec fn flag(bits: u8, mask: u8) -> bool {
    bits & mask != 0
}

/// `bits` with the bits of `mask` set (`on`) or cleared (`!on`).
pub open spec fn with_flag(bits: u8, mask: u8, on: bool) -> u8 {
    if on {
        bits | mask
    } else {
        bits & !mask
    }
}

/// `bits` with N and Z set from `value`: N is bit 7 of the value, Z is whether it is zero.
pub open spec fn with_nz(bits: u8, value: u8) -> u8 {
    with_flag(with_flag(bits, FLAG_N, value & 0x80 != 0), FLAG_Z, value == 0)
}

/// The value a status register built from a raw byte holds: bit 5 forced to 1.
pub open spec fn sr_from_raw(value: u8) -> u8 {
    (value & 0xDF) | 0x20
}

/// The value a status register pulled from the stack holds: B cleared, bit 5 set.
pub open spec fn sr_from_pulled(value: u8) -> u8 {
    (value & 0xEF) | 0x20
}

/// The byte pushed for the status register: its bits with bit 5 set.
pub open spec fn sr_push_value(bits: u8) -> u8 {
    bits | 0x20
}

/// Setting one flag gives that flag the new value and leaves every other bit as it was.
pub proof fn lemma_with_flag(bits: u8, mask: u8, on: bool, other: u8)
    requires
        mask == FLAG_N || mask == FLAG_V || mask == FLAG_U || mask == FLAG_B || mask == FLAG_D
            || mask == FLAG_I || mask == FLAG_Z || mask == FLAG_C,
        other == FLAG_N || other == FLAG_V || other == FLAG_U || other == FLAG_B || other
            == FLAG_D || other == FLAG_I || other == FLAG_Z || other == FLAG_C,
    ensures
        flag(with_flag(bits, mask, on), mask) == on,
        other != mask ==> flag(with_flag(bits, mask, on), other) == flag(bits, other),
{
    assert(flag(with_flag(bits, mask, on), mask) == on && (other != mask ==> flag(with_flag(bits, mask, on), other)
        == flag(bits, other))) by (bit_vector)
        requires
            mask == 0x80u8 || mask == 0x40u8 || mask == 0x20u8 || mask == 0x10u8 || mask == 0x08u8
                || mask == 0x04u8 || mask == 0x02u8 || mask == 0x01u8,
            other == 0x80u8 || other == 0x40u8 || other == 0x20u8 || other == 0x10u8 || other
                == 0x08u8 || other == 0x04u8 || other == 0x02u8 || other == 0x01u8,
    ;
}

/// Setting a flag twice to the same value is setting it once.
pub proof fn lemma_with_flag_twice(bits: u8, mask: u8, on: bool)
    ensures
        with_flag(with_flag(bits, mask, on), mask, on) == with_flag(bits, mask, on),
{
    assert(((bits | mask) | mask) == (bits | mask) && ((bits & !mask) & !mask) == (bits & !mask)) by (bit_vector);
}

/// A byte pushed for the status register always has bit 5 set, and pulling it
/// back gives the same flags except B, which is cleared.
pub proof fn lemma_push_pull_status(bits: u8)
    ensures
        flag(sr_push_value(bits), FLAG_U),
        sr_from_pulled(sr_push_value(bits)) == with_flag(bits | 0x20, FLAG_B, false),
        !flag(sr_from_pulled(bits), FLAG_B),
        flag(sr_from_pulled(bits), FLAG_U),
        flag(sr_from_raw(bits), FLAG_U),
{
    assert(flag(sr_push_value(bits), FLAG_U) && sr_from_pulled(sr_push_value(bits)) == with_flag(
        bits | 0x20,
        FLAG_B,
        false,
    ) && !flag(sr_from_pulled(bits), FLAG_B) && flag(sr_from_pulled(bits), FLAG_U) && flag(sr_from_raw(bits), FLAG_U))
        by (bit_vector);
}

/// Status register (P). Bit layout NV-BDIZC; bit 5 is unused.
#[derive(Debug, Clone, Copy, PartialEq, Eq, Structural)]
pub struct StatusRegister(u8);

impl View for StatusRegister {
    type V = u8;

    closed spec fn view(&self) -> u8 {
        self.0
    }
}

impl StatusRegister {
    /// Power-on value: I=1, D=0, others 0, bit 5 set (0x24).
    pub fn new() -> (r: Self)
        ensures
            r@ == 0x24,
    {
        StatusRegister(0x24)
    }

    /// All flags clear, bit 5 set (0x20).
    pub fn empty() -> (r: Self)
        ensures
            r@ == 0x20,
    {
        StatusRegister(0x20)
    }

    pub fn value(&self) -> (r: u8)
        ensures
            r == self@,
    {
        self.0
    }

    /// Sets the raw value; bit 5 always stays 1.
    pub fn set(&mut self, value: u8)
        ensures
            final(self)@ == sr_from_raw(value),
    {
        self.0 = (value & 0xDF) | 0x20;
    }

    pub fn n(&self) -> (r: bool)
        ensures
            r == flag(self@, FLAG_N),
    {
        (self.0 & 0x80) != 0
    }

    pub fn v(&self) -> (r: bool)
        ensures
            r == flag(self@, FLAG_V),
    {
        (self.0 & 0x40) != 0
    }

    pub fn unused(&self) -> (r: bool)
        ensures
            r == flag(self@, FLAG_U),
    {
        (self.0 & 0x20) != 0
    }

    pub fn b(&self) -> (r: bool)
        ensures
            r == flag(self@, FLAG_B),
    {
        (self.0 & 0x10) != 0
    }

    pub fn d(&self) -> (r: bool)
        ensures
            r == flag(self@, FLAG_D),
    {
        (self.0 & 0x08) != 0
    }

    pub fn i(&self) -> (r: bool)
        ensures
            r == flag(self@, FLAG_I),
    {
        (self.0 & 0x04) != 0
    }

    pub fn z(&self) -> (r: bool)
        ensures
            r == flag(self@, FLAG_Z),
    {
        (self.0 & 0x02) != 0
    }

    pub fn c(&self) -> (r: bool)
        ensures
            r == flag(self@, FLAG_C),
    {
        (self.0 & 0x01) != 0
    }

    fn set_mask(&mut self, mask: u8, value: bool)
        ensures
            final(self)@ == with_flag(old(self)@, mask, value),
    {
        if value {
            self.0 = self.0 | mask;
        } else {
            self.0 = self.0 & !mask;
        }
    }

    pub fn set_n(&mut self, value: bool)
        ensures
            final(self)@ == with_flag(old(self)@, FLAG_N, value),
    {
        self.set_mask(0x80, value)
    }

    pub fn set_v(&mut self, value: bool)
        ensures
            final(self)@ == with_flag(old(self)@, FLAG_V, value),
    {
        self.set_mask(0x40, value)
    }

    pub fn set_b(&mut self, value: bool)
        ensures
            final(self)@ == with_flag(old(self)@, FLAG_B, value),
    {
        self.set_mask(0x10, value)
    }

    pub fn set_d(&mut self, value: bool)
        ensures
            final(self)@ == with_flag(old(self)@, FLAG_D, value),
    {
        self.set_mask(0x08, value)
    }

    pub fn set_i(&mut self, value: bool)
        ensures
            final(self)@ == with_flag(old(self)@, FLAG_I, value),
    {
        self.set_mask(0x04, value)
    }

    pub fn set_z(&mut self, value: bool)
        ensures
            final(self)@ == with_flag(old(self)@, FLAG_Z, value),
    {
        self.set_mask(0x02, value)
    }

    pub fn set_c(&mut self, value: bool)
        ensures
            final(self)@ == with_flag(old(self)@, FLAG_C, value),
    {
        self.set_mask(0x01, value)
    }

    /// Sets N from bit 7 of `value` and Z from whether it is zero.
    pub fn update_nz(&mut self, value: u8)
        ensures
            final(self)@ == with_nz(old(self)@, value),
    {
        self.set_n(value & 0x80 != 0);
        self.set_z(value == 0);
    }

    /// Flags after ADC/SBC: N and Z from the result, C and V as given.
    pub fn update_arithmetic(&mut self, result: u8, carry: bool, overflow: bool)
        ensures
            final(self)@ == with_flag(
                with_flag(with_nz(old(self)@, result), FLAG_C, carry),
                FLAG_V,
                overflow,
            ),
    {
        self.set_n(result & 0x80 != 0);
        self.set_z(result == 0);
        self.set_c(carry);
        self.set_v(overflow);
    }

    /// Flags after AND/ORA/EOR: N and Z from the result.
    pub fn update_logical(&mut self, result: u8)
        ensures
            final(self)@ == with_nz(old(self)@, result),
    {
        self.set_n(result & 0x80 != 0);
        self.set_z(result == 0);
    }

    /// Flags after a shift or rotate: N and Z from the result, C from the bit shifted out.
    pub fn update_shift(&mut self, result: u8, carry_out: bool)
        ensures
            final(self)@ == with_flag(with_nz(old(self)@, result), FLAG_C, carry_out),
    {
        self.set_n(result & 0x80 != 0);
        self.set_z(result == 0);
        self.set_c(carry_out);
    }

    /// Flags after CMP/CPX/CPY: N and Z from `reg - mem`, C from `reg >= mem`.
    pub fn update_comparison(&mut self, result: u8, carry: bool)
        ensures
            final(self)@ == with_flag(with_nz(old(self)@, result), FLAG_C, carry),
    {
        self.set_n(result & 0x80 != 0);
        self.set_z(result == 0);
        self.set_c(carry);
    }

    /// The byte pushed for this register: its bits with bit 5 set.
    pub fn push_value(&self) -> (r: u8)
        ensures
            r == sr_push_value(self@),
    {
        self.0 | 0x20
    }

    /// The register a byte pulled from the stack gives: B cleared, bit 5 set.
    pub fn from_pulled(value: u8) -> (r: Self)
        ensures
            r@ == sr_from_pulled(value),
    {
        StatusRegister((value & 0xEF) | 0x20)
    }

    /// Back to the power-on value 0x24.
    pub fn reset(&mut self)
        ensures
            final(self)@ == 0x24,
    {
        self.0 = 0x24;
    }

    /// "NV-BDIZC: N=n V=v B=b D=d I=i Z=z C=c" with each flag as 0 or 1.
    pub fn to_string(&self) -> (r: String)
        ensures
            r@ == sr_display(self@),
    {
        let mut s = "NV-BDIZC: N=".to_owned();
        push_char(&mut s, if self.n() { '1' } else { '0' });
        push_flag(&mut s, " V=", self.v());
        push_flag(&mut s, " B=", self.b());
        push_flag(&mut s, " D=", self.d());
        push_flag(&mut s, " I=", self.i());
        push_flag(&mut s, " Z=", self.z());
        push_flag(&mut s, " C=", self.c());
        s
    }
}

/// The text form of a status register: each flag named and shown as 0 or 1.
pub open spec fn sr_display(bits: u8) -> Seq<char> {
    "NV-BDIZC: N="@.push(bit_char(flag(bits, FLAG_N))) + " V="@.push(bit_char(flag(bits, FLAG_V)))
        + " B="@.push(bit_char(flag(bits, FLAG_B))) + " D="@.push(bit_char(flag(bits, FLAG_D)))
        + " I="@.push(bit_char(flag(bits, FLAG_I))) + " Z="@.push(bit_char(flag(bits, FLAG_Z)))
        + " C="@.push(bit_char(flag(bits, FLAG_C)))
}

fn push_flag(s: &mut String, label: &str, on: bool)
    ensures
        final(s)@ == old(s)@ + label@.push(bit_char(on)),
{
    s.append(label);
    push_char(s, if on { '1' } else { '0' });
    assert(s@ =~= old(s)@ + label@.push(bit_char(on)));
}

/// The registers and counters of a CPU, as plain values.
pub struct CpuView {
    pub a: u8,
    pub x: u8,
    pub y: u8,
    pub pc: u16,
    pub sp: u8,
    pub sr: u8,
    pub cycles: u64,
    pub instructions: u64,
    pub halted: bool,
    pub waiting: bool,
    pub stopped: bool,
    pub config: MachineConfig,
}

/// CPU state for save/load.
#[derive(Debug, Clone, Copy, PartialEq, Eq, Structural)]
pub struct CpuState {
    pub a: u8,
    pub x: u8,
    pub y: u8,
    pub pc: u16,
    pub sp: u8,
    pub sr: u8,
    pub cycles: u64,
    pub instructions: u64,
    pub halted: bool,
    pub waiting: bool,
    pub stopped: bool,
}

/// The 6502 processor: registers, flags, counters, run state and configuration.
#[derive(Debug, Clone)]
pub struct Cpu {
    pub a: u8,
    pub x: u8,
    pub y: u8,
    pub pc: u16,
    pub sp: u8,
    pub sr: StatusRegister,
    pub cycles: u64,
    pub instructions: u64,
    /// Halted by a KIL/JAM opcode.
    pub halted: bool,
    /// Waiting for an interrupt (WAI).
    pub waiting: bool,
    /// Stopped (STP).
    pub stopped: bool,
    pub config: MachineConfig,
}

impl View for Cpu {
    type V = CpuView;

    open spec fn view(&self) -> CpuView {
        CpuView {
            a: self.a,
            x: self.x,
            y: self.y,
            pc: self.pc,
            sp: self.sp,
            sr: self.sr@,
            cycles: self.cycles,
            instructions: self.instructions,
            halted: self.halted,
            waiting: self.waiting,
            stopped: self.stopped,
            config: self.config,
        }
    }
}

/// The power-on register state of a CPU with the given configuration.
pub open spec fn power_on(config: MachineConfig) -> CpuView {
    CpuView {
        a: 0,
        x: 0,
        y: 0,
        pc: config.start_address,
        sp: 0xFF,
        sr: 0x24,
        cycles: 0,
        instructions: 0,
        halted: false,
        waiting: false,
        stopped: false,
        config,
    }
}

/// The address of stack slot `sp`: page one, 0x0100 + sp.
pub open spec fn stack_addr(sp: u8) -> u16 {
    (0x100 + sp) as u16
}

fn stack_address(sp: u8) -> (r: u16)
    ensures
        r == stack_addr(sp),
{
    assert(0x0100u16 | (sp as u16) == (0x100 + sp) as u16) by (bit_vector);
    0x0100 | (sp as u16)
}

/// Pushing a byte: it is written at the slot `sp` points to, then `sp` moves down.
pub open spec fn push_spec<B: Bus>(c: CpuView, b: B::V, value: u8) -> (CpuView, B::V) {
    (CpuView { sp: c.sp.wrapping_sub(1), ..c }, B::after_write(b, stack_addr(c.sp), value))
}

/// Pulling a byte: `sp` moves up, then the byte at that slot is read.
pub open spec fn pull_spec<B: Bus>(c: CpuView, b: B::V) -> (u8, CpuView, B::V) {
    let sp = c.sp.wrapping_add(1);
    (B::peek(b, stack_addr(sp)), CpuView { sp, ..c }, B::after_read(b, stack_addr(sp)))
}

/// Pushing a word: high byte first, then low byte.
pub open spec fn push_word_spec<B: Bus>(c: CpuView, b: B::V, w: u16) -> (CpuView, B::V) {
    let (c1, b1) = push_spec::<B>(c, b, high_byte_spec(w));
    push_spec::<B>(c1, b1, low_byte_spec(w))
}

/// Pulling a word: low byte first, then high byte.
pub open spec fn pull_word_spec<B: Bus>(c: CpuView, b: B::V) -> (u16, CpuView, B::V) {
    let (lo, c1, b1) = pull_spec::<B>(c, b);
    let (hi, c2, b2) = pull_spec::<B>(c1, b1);
    (word_spec(lo, hi), c2, b2)
}

/// Whether `a` and `b` lie in different 256-byte pages.
pub open spec fn page_crossed(a: u16, b: u16) -> bool {
    a & 0xFF00 != b & 0xFF00
}

impl Cpu {
    /// A CPU in its power-on state with the given configuration.
    pub fn new(config: MachineConfig) -> (r: Self)
        ensures
            r@ == power_on(config),
    {
        Cpu {
            a: 0,
            x: 0,
            y: 0,
            pc: config.start_address,
            sp: 0xFF,
            sr: StatusRegister::new(),
            cycles: 0,
            instructions: 0,
            halted: false,
            waiting: false,
            stopped: false,
            config,
        }
    }

    pub fn with_defaults() -> (r: Self)
        ensures
            r@ == power_on(r.config),
            preset(r.config, CpuFamily::Nmos6502, nmos_quirks(), 65536, 0x8000, false),
    {
        Self::new(MachineConfig::default())
    }

    /// Back to the power-on state; the configuration stays.
    pub fn reset(&mut self)
        ensures
            final(self)@ == power_on(old(self).config),
    {
        self.a = 0;
        self.x = 0;
        self.y = 0;
        self.pc = self.config.start_address;
        self.sp = 0xFF;
        self.sr.reset();
        self.cycles = 0;
        self.instructions = 0;
        self.halted = false;
        self.waiting = false;
        self.stopped = false;
    }

    pub fn get_state(&self) -> (r: CpuState)
        ensures
            r == (CpuState {
                a: self.a,
                x: self.x,
                y: self.y,
                pc: self.pc,
                sp: self.sp,
                sr: self.sr@,
                cycles: self.cycles,
                instructions: self.instructions,
                halted: self.halted,
                waiting: self.waiting,
                stopped: self.stopped,
            }),
    {
        CpuState {
            a: self.a,
            x: self.x,
            y: self.y,
            pc: self.pc,
            sp: self.sp,
            sr: self.sr.value(),
            cycles: self.cycles,
            instructions: self.instructions,
            halted: self.halted,
            waiting: self.waiting,
            stopped: self.stopped,
        }
    }

    /// Takes every register and counter from a saved state (the status
    /// register through `StatusRegister::set`, so bit 5 reads as 1).
    pub fn set_state(&mut self, state: &CpuState)
        ensures
            final(self)@ == (CpuView {
                a: state.a,
                x: state.x,
                y: state.y,
                pc: state.pc,
                sp: state.sp,
                sr: sr_from_raw(state.sr),
                cycles: state.cycles,
                instructions: state.instructions,
                halted: state.halted,
                waiting: state.waiting,
                stopped: state.stopped,
                config: old(self).config,
            }),
    {
        self.a = state.a;
        self.x = state.x;
        self.y = state.y;
        self.pc = state.pc;
        self.sp = state.sp;
        self.sr.set(state.sr);
        self.cycles = state.cycles;
        self.instructions = state.instructions;
        self.halted = state.halted;
        self.waiting = state.waiting;
        self.stopped = state.stopped;
    }

    /// Pushes a byte onto the stack (page one, growing downward).
    pub fn push_stack<B: Bus>(&mut self, value: u8, memory: &mut B)
        requires
            B::inv(old(memory)@),
        ensures
            (final(self)@, final(memory)@) == push_spec::<B>(old(self)@, old(memory)@, value),
            B::inv(final(memory)@),
    {
        proof {
            B::lemma_inv(memory@, stack_addr(self.sp), value);
        }
        let addr = stack_address(self.sp);
        memory.write(addr, value);
        self.sp = self.sp.wrapping_sub(1);
    }

    /// Pulls a byte from the stack.
    pub fn pull_stack<B: Bus>(&mut self, memory: &mut B) -> (r: u8)
        requires
            B::inv(old(memory)@),
        ensures
            (r, final(self)@, final(memory)@) == pull_spec::<B>(old(self)@, old(memory)@),
            B::inv(final(memory)@),
    {
        proof {
            B::lemma_inv(memory@, stack_addr(self.sp.wrapping_add(1)), 0);
        }
        self.sp = self.sp.wrapping_add(1);
        let addr = stack_address(self.sp);
        memory.read(addr)
    }

    /// Pushes the program counter (high byte, then low byte).
    pub fn push_pc<B: Bus>(&mut self, memory: &mut B)
        requires
            B::inv(old(memory)@),
        ensures
            (final(self)@, final(memory)@) == push_word_spec::<B>(old(self)@, old(memory)@, old(self).pc),
            B::inv(final(memory)@),
    {
        let pc = self.pc;
        self.push_stack(high_byte(pc), memory);
        self.push_stack(low_byte(pc), memory);
    }

    /// Pushes PC+1 (as for NMI and IRQ).
    pub fn push_pc_plus_1<B: Bus>(&mut self, memory: &mut B)
        requires
            B::inv(old(memory)@),
        ensures
            (final(self)@, final(memory)@) == push_word_spec::<B>(
                old(self)@,
                old(memory)@,
                old(self).pc.wrapping_add(1),
            ),
            B::inv(final(memory)@),
    {
        let pc = self.pc.wrapping_add(1);
        self.push_stack(high_byte(pc), memory);
        self.push_stack(low_byte(pc), memory);
    }

    /// Pushes PC+2 (as for BRK).
    pub fn push_pc_plus_2<B: Bus>(&mut self, memory: &mut B)
        requires
            B::inv(old(memory)@),
        ensures
            (final(self)@, final(memory)@) == push_word_spec::<B>(
                old(self)@,
                old(memory)@,
                old(self).pc.wrapping_add(2),
            ),
            B::inv(final(memory)@),
    {
        let pc = self.pc.wrapping_add(2);
        self.push_stack(high_byte(pc), memory);
        self.push_stack(low_byte(pc), memory);
    }

    /// Pulls the program counter (low byte, then high byte).
    pub fn pull_pc<B: Bus>(&mut self, memory: &mut B)
        requires
            B::inv(old(memory)@),
        ensures
            ({
                let (w, c, b) = pull_word_spec::<B>(old(self)@, old(memory)@);
                &&& final(self)@ == (CpuView { pc: w, ..c })
                &&& final(memory)@ == b
            }),
            B::inv(final(memory)@),
    {
        let lo = self.pull_stack(memory);
        let hi = self.pull_stack(memory);
        self.pc = word(lo, hi);
    }

    /// Pushes the status register with B set (BRK/PHP) or clear (IRQ/NMI);
    /// the B flag of the register itself is left at that value.
    pub fn push_sr<B: Bus>(&mut self, memory: &mut B, brk_mode: bool)
        requires
            B::inv(old(memory)@),
        ensures
            ({
                let sr = with_flag(old(self).sr@, FLAG_B, brk_mode);
                (final(self)@, final(memory)@) == push_spec::<B>(
                    CpuView { sr, ..old(self)@ },
                    old(memory)@,
                    sr_push_value(sr),
                )
            }),
            B::inv(final(memory)@),
    {
        if brk_mode {
            self.sr.set_b(true);
        } else {
            self.sr.set_b(false);
        }
        let sr_value = self.sr.push_value();
        self.push_stack(sr_value, memory);
    }

    /// Pulls the status register (B cleared, bit 5 set).
    pub fn pull_sr<B: Bus>(&mut self, memory: &mut B)
        requires
            B::inv(old(memory)@),
        ensures
            ({
                let (v, c, b) = pull_spec::<B>(old(self)@, old(memory)@);
                &&& final(self)@ == (CpuView { sr: sr_from_pulled(v), ..c })
                &&& final(memory)@ == b
            }),
            B::inv(final(memory)@),
    {
        let sr_value = self.pull_stack(memory);
        self.sr = StatusRegister::from_pulled(sr_value);
    }

    pub fn zero_page_addr(&self, base: u8) -> (r: u16)
        ensures
            r == base as u16,
    {
        base as u16
    }

    pub fn zero_page_x_addr(&self, base: u8) -> (r: u16)
        ensures
            r == base.wrapping_add(self.x) as u16,
    {
        base.wrapping_add(self.x) as u16
    }

    pub fn zero_page_y_addr(&self, base: u8) -> (r: u16)
        ensures
            r == base.wrapping_add(self.y) as u16,
    {
        base.wrapping_add(self.y) as u16
    }

    pub fn absolute_addr(&self, lo: u8, hi: u8) -> (r: u16)
        ensures
            r == word_spec(lo, hi),
    {
        word(lo, hi)
    }

    /// base + X (wrapping), and whether that crosses a page.
    pub fn absolute_x_addr(&self, base: u16) -> (r: (u16, bool))
        ensures
            r.0 == base.wrapping_add(self.x as u16),
            r.1 == page_crossed(base, r.0),
    {
        let addr = base.wrapping_add(self.x as u16);
        let page_crossed = (base & 0xFF00) != (addr & 0xFF00);
        (addr, page_crossed)
    }

    /// base + Y (wrapping), and whether that crosses a page.
    pub fn absolute_y_addr(&self, base: u16) -> (r: (u16, bool))
        ensures
            r.0 == base.wrapping_add(self.y as u16),
            r.1 == page_crossed(base, r.0),
    {
        let addr = base.wrapping_add(self.y as u16);
        let page_crossed = (base & 0xFF00) != (addr & 0xFF00);
        (addr, page_crossed)
    }

    /// Target of JMP (ptr). With the NMOS bug and a pointer at the end of a
    /// page, the high byte comes from the start of that same page.
    pub fn indirect_addr<B: Bus>(&self, ptr: u16, memory: &mut B) -> (r: u16)
        requires
            B::inv(old(memory)@),
        ensures
            (r, final(memory)@) == indirect_target_spec::<B>(self.config.quirks.jmp_indirect_bug, old(memory)@, ptr),
    {
        if self.config.has_jmp_indirect_bug() && (ptr & 0xFF) == 0xFF {
            proof {
                B::lemma_inv(memory@, ptr, 0);
            }
            let lo = memory.read(ptr);
            let hi = memory.read(ptr & 0xFF00);
            word(lo, hi)
        } else {
            memory.read_u16(ptr)
        }
    }

    /// Target of (zp,X): the word at zero-page slot base + X.
    pub fn indirect_x_addr<B: Bus>(&self, base: u8, memory: &mut B) -> (r: u16)
        requires
            B::inv(old(memory)@),
        ensures
            ({
                let ptr = base.wrapping_add(self.x) as u16;
                (r, final(memory)@) == bus_read_u16::<B>(old(memory)@, ptr)
            }),
    {
        let ptr = base.wrapping_add(self.x) as u16;
        memory.read_u16(ptr)
    }

    /// Target of (zp),Y: the word at zero-page slot base, plus Y; and whether that crosses a page.
    pub fn indirect_y_addr<B: Bus>(&self, base: u8, memory: &mut B) -> (r: (u16, bool))
        requires
            B::inv(old(memory)@),
        ensures
            ({
                let (target, b) = bus_read_u16::<B>(old(memory)@, base as u16);
                &&& r.0 == target.wrapping_add(self.y as u16)
                &&& r.1 == page_crossed(target, r.0)
                &&& final(memory)@ == b
            }),
    {
        let ptr = base as u16;
        let target = memory.read_u16(ptr);
        let addr = target.wrapping_add(self.y as u16);
        let page_crossed = (target & 0xFF00) != (addr & 0xFF00);
        (addr, page_crossed)
    }

    /// PC plus a signed offset (wrapping).
    pub fn relative_addr(&self, offset: i8) -> (r: u16)
        ensures
            r == self.pc.wrapping_add(offset as u16),
    {
        self.pc.wrapping_add(offset as u16)
    }

    /// Whether base + offset lies in another page than base.
    pub fn would_cross_page(base: u16, offset: u8) -> (r: bool)
        ensures
            r == page_crossed(base, base.wrapping_add(offset as u16)),
    {
        let addr = base.wrapping_add(offset as u16);
        (base & 0xFF00) != (addr & 0xFF00)
    }

    pub fn variant(&self) -> (r: CpuFamily)
        ensures
            r == self.config.family,
    {
        self.config.family
    }

    pub fn rmw_behavior(&self) -> (r: RmwBehavior)
        ensures
            r == self.config.quirks.rmw,
    {
        self.config.quirks.rmw
    }

    pub fn has_jmp_indirect_bug(&self) -> (r: bool)
        ensures
            r == self.config.quirks.jmp_indirect_bug,
    {
        self.config.has_jmp_indirect_bug()
    }
}

/// JMP (ptr) target and the bus after its reads.
pub open spec fn indirect_target_spec<B: Bus>(bug: bool, b: B::V, ptr: u16) -> (u16, B::V) {
    if bug && ptr & 0xFF == 0xFF {
        let lo = B::peek(b, ptr);
        let b1 = B::after_read(b, ptr);
        (word_spec(lo, B::peek(b1, ptr & 0xFF00)), B::after_read(b1, ptr & 0xFF00))
    } else {
        bus_read_u16::<B>(b, ptr)
    }
}

/// Two CPUs compare equal when their registers and status register are equal.
pub open spec fn cpu_regs_equal(x: Cpu, y: Cpu) -> bool {
    x.a == y.a && x.x == y.x && x.y == y.y && x.pc == y.pc && x.sp == y.sp && x.sr@ == y.sr@
}

impl PartialEq for Cpu {
    fn eq(&self, other: &Self) -> (r: bool) {
        self.a == other.a && self.x == other.x && self.y == other.y && self.pc == other.pc
            && self.sp == other.sp && self.sr.value() == other.sr.value()
    }
}

impl vstd::std_specs::cmp::PartialEqSpecImpl for Cpu {
    open spec fn obeys_eq_spec() -> bool {
        true
    }

    open spec fn eq_spec(&self, other: &Cpu) -> bool {
        cpu_regs_equal(*self, *other)
    }
}

} // verus!
