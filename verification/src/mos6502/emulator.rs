//! The 6502 emulator: a CPU, its memory and its configuration, with
//! execution, interrupts, register and memory access, and a disassembler.

use vstd::prelude::*;
use crate::bus::{Bus, bus_read_u16, high_byte_spec, low_byte_spec};
use crate::mos6502::config::{CpuFamily, CpuQuirks, MachineConfig, copy_config, preset, nmos_quirks, cmos_quirks, ricoh_quirks};
use crate::mos6502::cpu::{
    Cpu, CpuState, CpuView, FLAG_N, FLAG_V, FLAG_B, FLAG_D, FLAG_I, FLAG_Z, FLAG_C, flag, with_flag,
    sr_push_value, sr_from_raw, push_spec, pull_spec, stack_addr,
    push_word_spec, power_on, lemma_with_flag_twice,
};
use crate::mos6502::isa::{execute_spec, lemma_execute_keeps_counters, jsr, rts};
use crate::mos6502::instruction::{AddressingMode, execute, decode, is_undocumented, undocumented, opcode_table};
use crate::mos6502::memory::{Memory, MemoryView, BankView, PiaView, fresh_memory, config_banks_nonempty};
use crate::text::{push_char, push_hex2, push_hex4, hex2, hex4};

verus! {

/// A saved emulator: the CPU registers, the image of memory bank 0 and the configuration.
#[derive(Debug, Clone)]
pub struct EmulatorState {
    pub cpu: CpuState,
    pub memory: Vec<u8>,
    pub config: MachineConfig,
}

/// A 6502 with its memory and configuration, and the count of cycles run.
pub struct Emulator {
    pub cpu: Cpu,
    pub memory: Memory,
    pub config: MachineConfig,
    pub total_cycles: u64,
}

/// Whether the CPU does nothing until reset or interrupted: halted by KIL,
/// waiting (WAI) or stopped (STP).
pub open spec fn stalled(c: CpuView) -> bool {
    c.halted || c.waiting || c.stopped
}

/// One tick: nothing when the CPU is stalled (0 cycles); else one
/// instruction, counted. Gives the CPU, the bus and the cycles taken.
#[verifier::opaque]
pub open spec fn tick_spec<B: Bus>(c: CpuView, b: B::V) -> (CpuView, B::V, u8) {
    if stalled(c) {
        (c, b, 0)
    } else {
        let (c1, b1, cycles) = execute_spec::<B>(c, b);
        (CpuView { instructions: (c.instructions + 1) as u64, ..c1 }, b1, cycles)
    }
}

/// Entering an interrupt handler: `return_pc` pushed (high byte first), then
/// the status register with B clear (IRQ, NMI) or set (BRK), then I set.
/// The program counter is left for the caller to load from a vector.
pub open spec fn enter_interrupt<B: Bus>(c: CpuView, b: B::V, return_pc: u16, brk: bool) -> (CpuView, B::V) {
    let (c1, b1) = push_word_spec::<B>(c, b, return_pc);
    let sr = with_flag(c1.sr, FLAG_B, brk);
    let (c2, b2) = push_spec::<B>(CpuView { sr, ..c1 }, b1, sr_push_value(sr));
    (CpuView { sr: with_flag(c2.sr, FLAG_I, true), ..c2 }, b2)
}

/// An interrupt taken: the handler entered, PC loaded from `vector`, seven
/// cycles and one instruction counted.
pub open spec fn interrupt_spec<B: Bus>(c: CpuView, b: B::V, return_pc: u16, brk: bool, vector: u16) -> (CpuView, B::V) {
    let (c1, b1) = enter_interrupt::<B>(c, b, return_pc, brk);
    let (target, b2) = bus_read_u16::<B>(b1, vector);
    (CpuView { pc: target, instructions: (c.instructions + 1) as u64, ..c1 }, b2)
}

impl Emulator {
    /// The memory can be read and written.
    pub open spec fn wf(&self) -> bool {
        self.memory@.wf()
    }

    /// Room in the counters for one more instruction.
    pub open spec fn counters_room(&self, instructions: nat, cycles: nat) -> bool {
        self.cpu.instructions + instructions <= u64::MAX && self.total_cycles + cycles <= u64::MAX
    }

    /// An emulator with a fresh CPU and zeroed memory for `config`.
    pub fn from_config(config: MachineConfig) -> (r: Self)
        ensures
            r.cpu@ == power_on(config),
            r.memory@ == fresh_memory(config),
            r.config == config,
            r.total_cycles == 0,
            config_banks_nonempty(config) ==> r.wf(),
    {
        let memory = Memory::new(&config);
        Emulator { cpu: Cpu::new(copy_config(&config)), memory, config, total_cycles: 0 }
    }

    /// An emulator for the default configuration (NMOS 6502, 64 KiB at 0x8000).
    pub fn new() -> (r: Self)
        ensures
            r.cpu@ == power_on(r.config),
            r.memory@ == fresh_memory(r.config),
            preset(r.config, CpuFamily::Nmos6502, nmos_quirks(), 65536, 0x8000, false),
            r.total_cycles == 0,
            r.wf(),
    {
        Self::from_config(MachineConfig::default())
    }

    /// An emulator for the NMOS 6502 preset.
    pub fn new_nmos() -> (r: Self)
        ensures
            r.cpu@ == power_on(r.config),
            r.memory@ == fresh_memory(r.config),
            preset(r.config, CpuFamily::Nmos6502, nmos_quirks(), 65536, 0x8000, false),
            r.total_cycles == 0,
            r.wf(),
    {
        Self::from_config(MachineConfig::nmos())
    }

    /// An emulator for the CMOS W65C02 preset.
    pub fn new_cmos() -> (r: Self)
        ensures
            r.cpu@ == power_on(r.config),
            r.memory@ == fresh_memory(r.config),
            preset(r.config, CpuFamily::W65C02, cmos_quirks(), 65536, 0x8000, false),
            r.total_cycles == 0,
            r.wf(),
    {
        Self::from_config(MachineConfig::cmos())
    }

    /// Executes one instruction on another bus; nothing (0 cycles) while the
    /// CPU is stalled.
    pub fn tick_bus<B: Bus>(&mut self, bus: &mut B) -> (r: u8)
        requires
            B::inv(old(bus)@),
            old(self).counters_room(1, 255),
        ensures
            (final(self).cpu@, final(bus)@, r) == tick_spec::<B>(old(self).cpu@, old(bus)@),
            final(self).total_cycles == old(self).total_cycles + r,
            final(self).cpu.instructions <= old(self).cpu.instructions + 1,
            final(self).memory == old(self).memory,
            final(self).config == old(self).config,
            B::inv(final(bus)@),
    {
        proof {
            reveal(tick_spec);
        }
        if self.cpu.halted || self.cpu.waiting || self.cpu.stopped {
            return 0;
        }
        proof {
            lemma_execute_keeps_counters::<B>(self.cpu@, bus@);
        }
        let cycles = execute(&mut self.cpu, bus);
        self.cpu.instructions += 1;
        self.total_cycles += cycles as u64;
        cycles
    }

    /// Takes an IRQ through another bus unless the I flag masks it: PC+1 and
    /// the status (B clear) pushed, I set, PC from the configured IRQ vector.
    pub fn trigger_irq_bus<B: Bus>(&mut self, bus: &mut B) -> (r: bool)
        requires
            B::inv(old(bus)@),
            old(self).counters_room(1, 7),
        ensures
            r == !flag(old(self).cpu@.sr, FLAG_I),
            !r ==> final(self).cpu@ == old(self).cpu@ && final(bus)@ == old(bus)@
                && final(self).total_cycles == old(self).total_cycles,
            r ==> (final(self).cpu@, final(bus)@) == interrupt_spec::<B>(
                old(self).cpu@,
                old(bus)@,
                old(self).cpu.pc.wrapping_add(1),
                false,
                old(self).config.irq_vector,
            ) && final(self).total_cycles == old(self).total_cycles + 7,
            final(self).memory == old(self).memory,
            final(self).config == old(self).config,
            B::inv(final(bus)@),
    {
        if self.cpu.sr.i() {
            return false;
        }
        self.cpu.push_pc_plus_1(bus);
        proof {
            lemma_with_flag_twice(self.cpu.sr@, FLAG_B, false);
        }
        self.cpu.sr.set_b(false);
        self.cpu.push_sr(bus, false);
        self.cpu.sr.set_i(true);
        proof {
            B::lemma_inv(bus@, self.config.irq_vector, 0);
            B::lemma_inv(B::after_read(bus@, self.config.irq_vector), crate::bus::next_addr(self.config.irq_vector), 0);
        }
        self.cpu.pc = bus.read_u16(self.config.irq_vector);
        self.total_cycles += 7;
        self.cpu.instructions += 1;
        true
    }

    /// Copies `data` into memory from `offset` on (addresses wrapping).
    pub fn load_rom(&mut self, data: &[u8], offset: u16)
        requires
            old(self).wf(),
        ensures
            final(self).memory@ == old(self).memory@.load(data@, offset, data@.len()),
            final(self).cpu == old(self).cpu,
            final(self).config == old(self).config,
            final(self).total_cycles == old(self).total_cycles,
            final(self).wf(),
    {
        self.memory.load_rom(data, offset);
    }

    /// Copies `data` into memory from the configured start address on.
    pub fn load_rom_default(&mut self, data: &[u8])
        requires
            old(self).wf(),
        ensures
            final(self).memory@ == old(self).memory@.load(data@, old(self).config.start_address, data@.len()),
            final(self).cpu == old(self).cpu,
            final(self).config == old(self).config,
            final(self).total_cycles == old(self).total_cycles,
            final(self).wf(),
    {
        let offset = self.config.start_address;
        self.load_rom(data, offset);
    }

    /// Executes one instruction; nothing (0 cycles) while the CPU is stalled.
    pub fn tick(&mut self) -> (r: u8)
        requires
            old(self).wf(),
            old(self).counters_room(1, 255),
        ensures
            (final(self).cpu@, final(self).memory@, r) == tick_spec::<Memory>(old(self).cpu@, old(self).memory@),
            final(self).cpu.instructions <= old(self).cpu.instructions + 1,
            final(self).total_cycles == old(self).total_cycles + r,
            final(self).config == old(self).config,
            final(self).wf(),
    {
        proof {
            reveal(tick_spec);
        }
        if self.cpu.halted || self.cpu.waiting || self.cpu.stopped {
            return 0;
        }
        proof {
            lemma_execute_keeps_counters::<Memory>(self.cpu@, self.memory@);
        }
        let cycles = execute(&mut self.cpu, &mut self.memory);
        self.cpu.instructions += 1;
        self.total_cycles += cycles as u64;
        cycles
    }

    /// One step: the same as `tick`.
    pub fn step(&mut self) -> (r: u8)
        requires
            old(self).wf(),
            old(self).counters_room(1, 255),
        ensures
            (final(self).cpu@, final(self).memory@, r) == tick_spec::<Memory>(old(self).cpu@, old(self).memory@),
            final(self).cpu.instructions <= old(self).cpu.instructions + 1,
            final(self).total_cycles == old(self).total_cycles + r,
            final(self).config == old(self).config,
            final(self).wf(),
    {
        let cycles = self.tick();
        cycles
    }

    /// Runs whole instructions until at least `cycles` cycles have been
    /// executed, or until an instruction takes no cycles (the CPU is
    /// stalled). Returns the cycles executed (the last instruction may
    /// overshoot `cycles`).
    pub fn run(&mut self, cycles: u64) -> (r: u64)
        requires
            old(self).wf(),
            old(self).counters_room(cycles as nat, (cycles + 254) as nat),
        ensures
            ({
                let (c, m, total) = run_cycles_spec(old(self).cpu@, old(self).memory@, cycles as nat);
                &&& final(self).cpu@ == c
                &&& final(self).memory@ == m
                &&& r == total
            }),
            final(self).total_cycles == old(self).total_cycles + r,
            final(self).config == old(self).config,
            final(self).wf(),
    {
        let ghost c0 = self.cpu@;
        let ghost m0 = self.memory@;
        let ghost i0 = self.cpu.instructions;
        let ghost t0 = self.total_cycles;
        let mut executed: u64 = 0;
        while executed < cycles
            invariant_except_break
                ({
                    let rest = if executed < cycles { (cycles - executed) as nat } else { 0 };
                    let (c, m, total) = run_cycles_spec(self.cpu@, self.memory@, rest);
                    let (c_all, m_all, total_all) = run_cycles_spec(c0, m0, cycles as nat);
                    c_all == c && m_all == m && total_all == executed + total
                }),
                self.cpu.instructions <= i0 + executed,
            invariant
                self.wf(),
                self.config == old(self).config,
                executed < cycles + 255,
                self.total_cycles == t0 + executed,
                i0 + cycles <= u64::MAX,
                t0 + cycles + 254 <= u64::MAX,
            ensures
                ({
                    let (c, m, total) = run_cycles_spec(c0, m0, cycles as nat);
                    self.cpu@ == c && self.memory@ == m && executed == total
                }),
            decreases cycles + 255 - executed,
        {
            let c = self.step() as u64;
            if c == 0 {
                break;
            }
            executed += c;
        }
        executed
    }

    /// Up to `count` ticks, stopping at the first that takes no cycles (the
    /// CPU is stalled). Returns the number of ticks that took cycles.
    pub fn run_instructions(&mut self, count: u32) -> (r: u32)
        requires
            old(self).wf(),
            old(self).counters_room(count as nat, (255 * count) as nat),
        ensures
            ({
                let (c, m, ticks, total) = run_spec(old(self).cpu@, old(self).memory@, count as nat);
                &&& final(self).cpu@ == c
                &&& final(self).memory@ == m
                &&& r == ticks
                &&& final(self).total_cycles == old(self).total_cycles + total
            }),
            final(self).config == old(self).config,
            final(self).wf(),
    {
        let ghost c0 = self.cpu@;
        let ghost m0 = self.memory@;
        let ghost i0 = self.cpu.instructions;
        let ghost t0 = self.total_cycles;
        let mut executed: u32 = 0;
        let mut i: u32 = 0;
        while i < count
            invariant_except_break
                i <= count,
                executed <= i,
                ({
                    let (c, m, ticks, total) = run_spec(self.cpu@, self.memory@, (count - i) as nat);
                    run_spec(c0, m0, count as nat) == (c, m, (executed + ticks) as nat, ((self.total_cycles - t0) + total) as nat)
                }),
            invariant
                self.wf(),
                self.config == old(self).config,
                self.cpu.instructions <= i0 + i,
                t0 <= self.total_cycles <= t0 + 255 * i,
                i0 + count <= u64::MAX,
                t0 + 255 * count <= u64::MAX,
            ensures
                ({
                    let (c, m, ticks, total) = run_spec(c0, m0, count as nat);
                    self.cpu@ == c && self.memory@ == m && executed == ticks && self.total_cycles == t0 + total
                }),
            decreases count - i,
        {
            let c = self.tick();
            i = i + 1;
            if c == 0 {
                break;
            }
            executed += 1;
        }
        executed
    }

    /// The Accumulator.
    pub fn get_register_a(&self) -> (v: u8)
        ensures
            v == self.cpu.a,
    {
        self.cpu.a
    }

    /// Sets the Accumulator.
    pub fn set_register_a(&mut self, value: u8)
        ensures
            final(self).cpu@ == (CpuView { a: value, ..old(self).cpu@ }),
            final(self).memory == old(self).memory,
            final(self).config == old(self).config,
            final(self).total_cycles == old(self).total_cycles,
    {
        self.cpu.a = value;
    }

    /// The X register.
    pub fn get_register_x(&self) -> (v: u8)
        ensures
            v == self.cpu.x,
    {
        self.cpu.x
    }

    /// Sets the X register.
    pub fn set_register_x(&mut self, value: u8)
        ensures
            final(self).cpu@ == (CpuView { x: value, ..old(self).cpu@ }),
            final(self).memory == old(self).memory,
            final(self).config == old(self).config,
            final(self).total_cycles == old(self).total_cycles,
    {
        self.cpu.x = value;
    }

    /// The Y register.
    pub fn get_register_y(&self) -> (v: u8)
        ensures
            v == self.cpu.y,
    {
        self.cpu.y
    }

    /// Sets the Y register.
    pub fn set_register_y(&mut self, value: u8)
        ensures
            final(self).cpu@ == (CpuView { y: value, ..old(self).cpu@ }),
            final(self).memory == old(self).memory,
            final(self).config == old(self).config,
            final(self).total_cycles == old(self).total_cycles,
    {
        self.cpu.y = value;
    }

    /// The program counter.
    pub fn get_register_pc(&self) -> (v: u16)
        ensures
            v == self.cpu.pc,
    {
        self.cpu.pc
    }

    /// Sets the program counter.
    pub fn set_register_pc(&mut self, value: u16)
        ensures
            final(self).cpu@ == (CpuView { pc: value, ..old(self).cpu@ }),
            final(self).memory == old(self).memory,
            final(self).config == old(self).config,
            final(self).total_cycles == old(self).total_cycles,
    {
        self.cpu.pc = value;
    }

    /// The stack pointer.
    pub fn get_register_sp(&self) -> (v: u8)
        ensures
            v == self.cpu.sp,
    {
        self.cpu.sp
    }

    /// Sets the stack pointer.
    pub fn set_register_sp(&mut self, value: u8)
        ensures
            final(self).cpu@ == (CpuView { sp: value, ..old(self).cpu@ }),
            final(self).memory == old(self).memory,
            final(self).config == old(self).config,
            final(self).total_cycles == old(self).total_cycles,
    {
        self.cpu.sp = value;
    }

    /// The status register byte.
    pub fn get_status_register(&self) -> (v: u8)
        ensures
            v == self.cpu@.sr,
    {
        self.cpu.sr.value()
    }

    /// Sets the status register (bit 5 stays 1).
    pub fn set_status_register(&mut self, value: u8)
        ensures
            final(self).cpu@ == (CpuView { sr: sr_from_raw(value), ..old(self).cpu@ }),
            final(self).memory == old(self).memory,
            final(self).config == old(self).config,
            final(self).total_cycles == old(self).total_cycles,
    {
        self.cpu.sr.set(value);
    }

    /// The negative flag.
    pub fn get_status_n(&self) -> (v: bool)
        ensures
            v == flag(self.cpu@.sr, FLAG_N),
    {
        self.cpu.sr.n()
    }

    /// The overflow flag.
    pub fn get_status_v(&self) -> (v: bool)
        ensures
            v == flag(self.cpu@.sr, FLAG_V),
    {
        self.cpu.sr.v()
    }

    /// The break flag.
    pub fn get_status_b(&self) -> (v: bool)
        ensures
            v == flag(self.cpu@.sr, FLAG_B),
    {
        self.cpu.sr.b()
    }

    /// The decimal flag.
    pub fn get_status_d(&self) -> (v: bool)
        ensures
            v == flag(self.cpu@.sr, FLAG_D),
    {
        self.cpu.sr.d()
    }

    /// The interrupt-disable flag.
    pub fn get_status_i(&self) -> (v: bool)
        ensures
            v == flag(self.cpu@.sr, FLAG_I),
    {
        self.cpu.sr.i()
    }

    /// The zero flag.
    pub fn get_status_z(&self) -> (v: bool)
        ensures
            v == flag(self.cpu@.sr, FLAG_Z),
    {
        self.cpu.sr.z()
    }

    /// The carry flag.
    pub fn get_status_c(&self) -> (v: bool)
        ensures
            v == flag(self.cpu@.sr, FLAG_C),
    {
        self.cpu.sr.c()
    }

    /// The cycles run since creation or the last reset.
    pub fn get_cycle_count(&self) -> (v: u64)
        ensures
            v == self.total_cycles,
    {
        self.total_cycles
    }

    /// The instructions run since creation or the last reset.
    pub fn get_instruction_count(&self) -> (v: u64)
        ensures
            v == self.cpu.instructions,
    {
        self.cpu.instructions
    }

    /// The byte at `addr` (read without side effects).
    pub fn get_memory(&self, addr: u16) -> (v: u8)
        requires
            self.wf(),
        ensures
            v == self.memory@.peek(addr),
    {
        self.memory.read(addr)
    }

    /// Writes a byte.
    pub fn set_memory(&mut self, addr: u16, value: u8)
        requires
            old(self).wf(),
        ensures
            final(self).memory@ == old(self).memory@.write(addr, value),
            final(self).cpu == old(self).cpu,
            final(self).config == old(self).config,
            final(self).total_cycles == old(self).total_cycles,
            final(self).wf(),
    {
        self.memory.write(addr, value);
    }

    /// The configured memory size.
    pub fn get_memory_len(&self) -> (v: usize)
        ensures
            v == self.memory@.size,
    {
        self.memory.len()
    }

    /// The little-endian word at `addr`.
    pub fn get_memory_u16(&self, addr: u16) -> (v: u16)
        requires
            self.wf(),
        ensures
            v == self.memory@.peek_u16(addr),
    {
        self.memory.read_u16(addr)
    }

    /// Writes a little-endian word.
    pub fn set_memory_u16(&mut self, addr: u16, value: u16)
        requires
            old(self).wf(),
        ensures
            final(self).memory@ == old(self).memory@.write_u16(addr, value),
            final(self).cpu == old(self).cpu,
            final(self).config == old(self).config,
            final(self).total_cycles == old(self).total_cycles,
            final(self).wf(),
    {
        self.memory.write_u16(addr, value);
    }

    /// An Apple 1 key press (ignored without the Apple 1 PIA).
    pub fn apple1_press_key(&mut self, ascii: u8)
        requires
            old(self).wf(),
        ensures
            final(self).memory@ == (match old(self).memory@.pia {
                Some(p) => MemoryView {
                    pia: Some(PiaView { keyboard_data: ascii | 0x80, keyboard_ready: true, ..p }),
                    ..old(self).memory@
                },
                None => old(self).memory@,
            }),
            final(self).cpu == old(self).cpu,
            final(self).config == old(self).config,
            final(self).total_cycles == old(self).total_cycles,
            final(self).wf(),
    {
        self.memory.apple1_press_key(ascii);
    }

    /// The Apple 1 display output so far, one character per byte (taken, so
    /// the next call starts empty).
    pub fn apple1_take_output(&mut self) -> (r: String)
        requires
            old(self).wf(),
        ensures
            (match old(self).memory@.pia {
                Some(p) => r@ == bytes_as_chars(p.display_output) && final(self).memory@ == (MemoryView {
                    pia: Some(PiaView { display_output: Seq::empty(), ..p }),
                    ..old(self).memory@
                }),
                None => r@ == Seq::<char>::empty() && final(self).memory@ == old(self).memory@,
            }),
            final(self).cpu == old(self).cpu,
            final(self).config == old(self).config,
            final(self).total_cycles == old(self).total_cycles,
            final(self).wf(),
    {
        let bytes = self.memory.apple1_take_output();
        let mut s = String::new();
        let mut i: usize = 0;
        while i < bytes.len()
            invariant
                i <= bytes.len(),
                s@ == bytes_as_chars(bytes@.subrange(0, i as int)),
            decreases bytes.len() - i,
        {
            push_char(&mut s, bytes[i] as char);
            i = i + 1;
            assert(bytes_as_chars(bytes@.subrange(0, i as int)) =~= bytes_as_chars(bytes@.subrange(0, i - 1)).push(bytes@[i - 1] as char));
        }
        assert(bytes@.subrange(0, bytes.len() as int) =~= bytes@);
        s
    }

    /// Back to power-on state with PC from the reset vector; memory stays.
    pub fn reset(&mut self)
        requires
            old(self).wf(),
        ensures
            final(self).cpu@ == (CpuView {
                pc: old(self).memory@.peek_u16(old(self).memory@.config.reset_vector),
                ..power_on(old(self).cpu.config)
            }),
            final(self).total_cycles == 0,
            final(self).memory == old(self).memory,
            final(self).config == old(self).config,
            final(self).wf(),
    {
        let reset_vector = self.memory.get_reset_vector();
        self.cpu.reset();
        self.total_cycles = 0;
        self.cpu.pc = reset_vector;
    }

    /// The CPU reset, memory kept; PC from the reset vector.
    pub fn soft_reset(&mut self)
        requires
            old(self).wf(),
        ensures
            final(self).cpu@ == (CpuView {
                pc: old(self).memory@.peek_u16(old(self).memory@.config.reset_vector),
                ..power_on(old(self).cpu.config)
            }),
            final(self).total_cycles == 0,
            final(self).memory == old(self).memory,
            final(self).config == old(self).config,
            final(self).wf(),
    {
        self.cpu.reset();
        self.total_cycles = 0;
        self.cpu.pc = self.memory.get_reset_vector();
    }

    /// Writes the reset vector.
    pub fn set_reset_vector(&mut self, addr: u16)
        requires
            old(self).wf(),
        ensures
            final(self).memory@ == old(self).memory@.write_u16(old(self).memory@.config.reset_vector, addr),
            final(self).cpu == old(self).cpu,
            final(self).config == old(self).config,
            final(self).total_cycles == old(self).total_cycles,
            final(self).wf(),
    {
        self.memory.set_reset_vector(addr);
    }

    /// The reset vector.
    pub fn get_reset_vector(&self) -> (v: u16)
        requires
            self.wf(),
        ensures
            v == self.memory@.peek_u16(self.memory@.config.reset_vector),
    {
        self.memory.get_reset_vector()
    }

    /// The CPU registers, an image of memory bank 0, and the configuration.
    pub fn save_state(&self) -> (r: EmulatorState)
        requires
            self.wf(),
        ensures
            r.cpu == cpu_state(self.cpu@),
            r.memory@ == self.memory@.banks[0].data,
            r.config == self.config,
    {
        EmulatorState {
            cpu: self.cpu.get_state(),
            memory: vstd::slice::slice_to_vec(self.memory.as_slice()),
            config: copy_config(&self.config),
        }
    }

    /// Takes the CPU registers, the image of bank 0 (when the saved image is
    /// not empty) and the configuration from a saved state. The CPU keeps
    /// the configuration it was built with.
    pub fn load_state(&mut self, state: &EmulatorState)
        requires
            old(self).wf(),
            state.memory@.len() == 0 || state.memory@.len() == old(self).memory@.banks[0].data.len(),
        ensures
            final(self).cpu@ == cpu_from_state(state.cpu, old(self).cpu.config),
            state.memory@.len() == 0 ==> final(self).memory@ == old(self).memory@,
            state.memory@.len() != 0 ==> final(self).memory@ == (MemoryView {
                banks: old(self).memory@.banks.update(
                    0,
                    BankView { data: state.memory@, size: old(self).memory@.banks[0].size },
                ),
                ..old(self).memory@
            }),
            final(self).config == state.config,
            final(self).total_cycles == old(self).total_cycles,
            final(self).wf(),
    {
        self.cpu.set_state(&state.cpu);
        if state.memory.len() > 0 && self.memory.num_banks() > 0 {
            self.memory.restore_bank0(state.memory.as_slice());
        }
        self.config = copy_config(&state.config);
    }

    /// Replaces the configuration and rebuilds the CPU for it (power-on
    /// state); memory stays as it is.
    pub fn set_config(&mut self, config: MachineConfig)
        ensures
            final(self).config == config,
            final(self).cpu@ == power_on(config),
            final(self).memory == old(self).memory,
            final(self).total_cycles == old(self).total_cycles,
    {
        self.config = copy_config(&config);
        self.cpu = Cpu::new(config);
    }

    /// Takes an NMI (it cannot be masked): PC+1 and the status (B clear)
    /// pushed, I set, PC from the NMI vector.
    pub fn trigger_nmi(&mut self)
        requires
            old(self).wf(),
            old(self).counters_room(1, 7),
        ensures
            ({
                let (c, m) = enter_interrupt::<Memory>(old(self).cpu@, old(self).memory@, old(self).cpu.pc.wrapping_add(1), false);
                &&& final(self).cpu@ == (CpuView {
                    pc: m.peek_u16(old(self).memory@.config.nmi_vector),
                    instructions: (old(self).cpu.instructions + 1) as u64,
                    ..c
                })
                &&& final(self).memory@ == m
            }),
            final(self).total_cycles == old(self).total_cycles + 7,
            final(self).config == old(self).config,
            final(self).wf(),
    {
        proof {
            lemma_with_flag_twice(self.cpu.sr@, FLAG_B, false);
        }
        self.cpu.push_pc_plus_1(&mut self.memory);
        self.cpu.sr.set_b(false);
        self.cpu.push_sr(&mut self.memory, false);
        self.cpu.sr.set_i(true);
        self.cpu.pc = self.memory.get_nmi_vector();
        self.total_cycles += 7;
        self.cpu.instructions += 1;
    }

    /// Takes an IRQ unless the I flag masks it: PC+1 and the status (B
    /// clear) pushed, I set, PC from the IRQ vector. Returns whether it was taken.
    pub fn trigger_irq(&mut self) -> (r: bool)
        requires
            old(self).wf(),
            old(self).counters_room(1, 7),
        ensures
            r == !flag(old(self).cpu@.sr, FLAG_I),
            !r ==> final(self).cpu == old(self).cpu && final(self).memory == old(self).memory
                && final(self).total_cycles == old(self).total_cycles,
            r ==> ({
                let (c, m) = enter_interrupt::<Memory>(old(self).cpu@, old(self).memory@, old(self).cpu.pc.wrapping_add(1), false);
                &&& final(self).cpu@ == (CpuView {
                    pc: m.peek_u16(old(self).memory@.config.irq_vector),
                    instructions: (old(self).cpu.instructions + 1) as u64,
                    ..c
                })
                &&& final(self).memory@ == m
                &&& final(self).total_cycles == old(self).total_cycles + 7
            }),
            final(self).config == old(self).config,
            final(self).wf(),
    {
        if self.cpu.sr.i() {
            return false;
        }
        proof {
            lemma_with_flag_twice(self.cpu.sr@, FLAG_B, false);
        }
        self.cpu.push_pc_plus_1(&mut self.memory);
        self.cpu.sr.set_b(false);
        self.cpu.push_sr(&mut self.memory, false);
        self.cpu.sr.set_i(true);
        self.cpu.pc = self.memory.get_irq_vector();
        self.total_cycles += 7;
        self.cpu.instructions += 1;
        true
    }

    /// A software interrupt: PC+2 and the status (B set) pushed, I set, PC
    /// from the IRQ vector.
    pub fn trigger_brk(&mut self)
        requires
            old(self).wf(),
            old(self).counters_room(1, 7),
        ensures
            ({
                let (c, m) = enter_interrupt::<Memory>(old(self).cpu@, old(self).memory@, old(self).cpu.pc.wrapping_add(2), true);
                &&& final(self).cpu@ == (CpuView {
                    pc: m.peek_u16(old(self).memory@.config.irq_vector),
                    instructions: (old(self).cpu.instructions + 1) as u64,
                    ..c
                })
                &&& final(self).memory@ == m
            }),
            final(self).total_cycles == old(self).total_cycles + 7,
            final(self).config == old(self).config,
            final(self).wf(),
    {
        proof {
            lemma_with_flag_twice(self.cpu.sr@, FLAG_B, true);
        }
        self.cpu.push_pc_plus_2(&mut self.memory);
        self.cpu.sr.set_b(true);
        self.cpu.push_sr(&mut self.memory, true);
        self.cpu.sr.set_i(true);
        self.cpu.pc = self.memory.get_irq_vector();
        self.total_cycles += 7;
        self.cpu.instructions += 1;
    }

    /// One instruction at `addr` in assembler syntax: undocumented opcodes
    /// as `.byte $xx`, the rest as name and operand in hexadecimal
    /// (a branch shows its target address).
    pub fn disassemble(&self, addr: u16) -> (r: String)
        requires
            self.wf(),
            addr == 0xFFFF ==> !shows_operand(self.memory@.peek(addr)),
        ensures
            r@ == disassembly(self.memory@, addr),
    {
        let opcode = self.memory.read(addr);
        let info = match decode(opcode) {
            Some(i) => i,
            None => {
                let mut s = ".byte $".to_owned();
                push_hex2(&mut s, opcode);
                return s;
            },
        };
        if is_undocumented(opcode) {
            let mut s = ".byte $".to_owned();
            push_hex2(&mut s, opcode);
            return s;
        }
        let mut s = info.name.to_owned();
        match info.mode {
            AddressingMode::Implied | AddressingMode::Accumulator => {},
            AddressingMode::Immediate => {
                s.append(" #$");
                push_hex2(&mut s, self.memory.read(addr + 1));
            },
            AddressingMode::ZeroPage => {
                s.append(" $");
                push_hex2(&mut s, self.memory.read(addr + 1));
            },
            AddressingMode::ZeroPageX => {
                s.append(" $");
                push_hex2(&mut s, self.memory.read(addr + 1));
                s.append(",X");
            },
            AddressingMode::ZeroPageY => {
                s.append(" $");
                push_hex2(&mut s, self.memory.read(addr + 1));
                s.append(",Y");
            },
            AddressingMode::Absolute => {
                s.append(" $");
                push_hex4(&mut s, self.memory.read_u16(addr + 1));
            },
            AddressingMode::AbsoluteX => {
                s.append(" $");
                push_hex4(&mut s, self.memory.read_u16(addr + 1));
                s.append(",X");
            },
            AddressingMode::AbsoluteY => {
                s.append(" $");
                push_hex4(&mut s, self.memory.read_u16(addr + 1));
                s.append(",Y");
            },
            AddressingMode::Indirect => {
                s.append(" ($");
                push_hex4(&mut s, self.memory.read_u16(addr + 1));
                s.append(")");
            },
            AddressingMode::IndirectX => {
                s.append(" ($");
                push_hex2(&mut s, self.memory.read(addr + 1));
                s.append(",X)");
            },
            AddressingMode::IndirectY => {
                s.append(" ($");
                push_hex2(&mut s, self.memory.read(addr + 1));
                s.append("),Y");
            },
            AddressingMode::ZeroPageIndirect => {
                s.append(" ($");
                push_hex2(&mut s, self.memory.read(addr + 1));
                s.append(")");
            },
            AddressingMode::Relative => {
                let offset = self.memory.read(addr + 1);
                s.append(" $");
                push_hex4(&mut s, addr.wrapping_add(2).wrapping_add(offset as i8 as u16));
            },
        }
        s
    }

    /// The CPU family in lower case ("nmos6502", "w65c02", ...).
    pub fn get_variant(&self) -> (r: String)
        ensures
            r@ == family_name(self.config.family),
    {
        match self.config.family {
            CpuFamily::Nmos6502 => "nmos6502".to_owned(),
            CpuFamily::Nmos6510 => "nmos6510".to_owned(),
            CpuFamily::Nmos8502 => "nmos8502".to_owned(),
            CpuFamily::Nmos6507 => "nmos6507".to_owned(),
            CpuFamily::Ricoh2A03 => "ricoh2a03".to_owned(),
            CpuFamily::R65C02 => "r65c02".to_owned(),
            CpuFamily::W65C02 => "w65c02".to_owned(),
        }
    }

    /// Switches the CPU family (and, except for the 6510, its quirks) by a
    /// name given in any letter case; an unknown name is an error and
    /// changes nothing.
    pub fn set_variant(&mut self, variant: &str) -> (r: Result<(), String>)
        ensures
            final(self).cpu == old(self).cpu,
            final(self).memory == old(self).memory,
            final(self).total_cycles == old(self).total_cycles,
            (match variant_config(old(self).config, lowercase(variant@)) {
                Some(c) => r is Ok && final(self).config == c,
                None => r is Err && r->Err_0@ == "Unknown variant: "@ + variant@ && final(self).config
                    == old(self).config,
            }),
    {
        if lowercase_equals(variant, "nmos6502") || lowercase_equals(variant, "nmos") {
            self.config.family = CpuFamily::Nmos6502;
            self.config.quirks = CpuQuirks::nmos();
            Ok(())
        } else if lowercase_equals(variant, "w65c02") || lowercase_equals(variant, "cmos") {
            self.config.family = CpuFamily::W65C02;
            self.config.quirks = CpuQuirks::cmos();
            Ok(())
        } else if lowercase_equals(variant, "ricoh2a03") || lowercase_equals(variant, "nes") {
            self.config.family = CpuFamily::Ricoh2A03;
            self.config.quirks = CpuQuirks::ricoh2a03();
            Ok(())
        } else if lowercase_equals(variant, "r65c02") {
            self.config.family = CpuFamily::R65C02;
            self.config.quirks = CpuQuirks::r65c02();
            Ok(())
        } else if lowercase_equals(variant, "nmos6510") || lowercase_equals(variant, "c64") {
            self.config.family = CpuFamily::Nmos6510;
            Ok(())
        } else {
            let mut msg = "Unknown variant: ".to_owned();
            msg.append(variant);
            Err(msg)
        }
    }
}

/// Whether the disassembler shows an operand for `opcode` (and so reads the
/// byte after it): a documented opcode with an operand.
pub open spec fn shows_operand(opcode: u8) -> bool {
    !undocumented(opcode) && !(opcode_table(opcode).1 is Implied || opcode_table(opcode).1 is Accumulator)
}

/// The disassembly of the instruction at `addr`.
pub open spec fn disassembly(m: MemoryView, addr: u16) -> Seq<char> {
    let opcode = m.peek(addr);
    let (name, mode, _bytes, _cycles) = opcode_table(opcode);
    let n = name@;
    let op = (addr + 1) as u16;
    let b = m.peek(op);
    let w = m.peek_u16(op);
    if undocumented(opcode) {
        ".byte $"@ + hex2(opcode)
    } else {
        match mode {
            AddressingMode::Implied | AddressingMode::Accumulator => n,
            AddressingMode::Immediate => n + " #$"@ + hex2(b),
            AddressingMode::ZeroPage => n + " $"@ + hex2(b),
            AddressingMode::ZeroPageX => n + " $"@ + hex2(b) + ",X"@,
            AddressingMode::ZeroPageY => n + " $"@ + hex2(b) + ",Y"@,
            AddressingMode::Absolute => n + " $"@ + hex4(w),
            AddressingMode::AbsoluteX => n + " $"@ + hex4(w) + ",X"@,
            AddressingMode::AbsoluteY => n + " $"@ + hex4(w) + ",Y"@,
            AddressingMode::Indirect => n + " ($"@ + hex4(w) + ")"@,
            AddressingMode::IndirectX => n + " ($"@ + hex2(b) + ",X)"@,
            AddressingMode::IndirectY => n + " ($"@ + hex2(b) + "),Y"@,
            AddressingMode::ZeroPageIndirect => n + " ($"@ + hex2(b) + ")"@,
            AddressingMode::Relative => n + " $"@ + hex4(addr.wrapping_add(2).wrapping_add(b as i8 as u16)),
        }
    }
}

/// An (indirect,X) instruction disassembles as its mnemonic, a space, `($`,
/// the two hexadecimal digits of its zero-page operand, then `,X)`: the
/// index register inside the brackets. An (indirect),Y instruction has the
/// same start and ends in `),Y`: the index outside them.
pub proof fn lemma_disassembly_indirect(m: MemoryView, addr: u16)
    requires
        !undocumented(m.peek(addr)),
        opcode_table(m.peek(addr)).1 is IndirectX || opcode_table(m.peek(addr)).1 is IndirectY,
    ensures
        ({
            let s = disassembly(m, addr);
            let name = opcode_table(m.peek(addr)).0@;
            let n = name.len() as int;
            let b = m.peek((addr + 1) as u16);
            &&& s.len() == n + 8
            &&& s.subrange(0, n) == name
            &&& s[n] == ' ' && s[n + 1] == '(' && s[n + 2] == '$'
            &&& s[n + 3] == crate::text::hex_digit_spec(b / 16)
            &&& s[n + 4] == crate::text::hex_digit_spec(b % 16)
            &&& opcode_table(m.peek(addr)).1 is IndirectX ==> s[n + 5] == ',' && s[n + 6] == 'X' && s[n + 7] == ')'
            &&& opcode_table(m.peek(addr)).1 is IndirectY ==> s[n + 5] == ')' && s[n + 6] == ',' && s[n + 7] == 'Y'
        }),
{
    reveal_strlit(" ($");
    reveal_strlit(",X)");
    reveal_strlit("),Y");
    let s = disassembly(m, addr);
    let name = opcode_table(m.peek(addr)).0@;
    let n = name.len() as int;
    assert(s.subrange(0, n) =~= name);
}

/// The lower-case name of a CPU family.
pub open spec fn family_name(f: CpuFamily) -> Seq<char> {
    match f {
        CpuFamily::Nmos6502 => "nmos6502"@,
        CpuFamily::Nmos6510 => "nmos6510"@,
        CpuFamily::Nmos8502 => "nmos8502"@,
        CpuFamily::Nmos6507 => "nmos6507"@,
        CpuFamily::Ricoh2A03 => "ricoh2a03"@,
        CpuFamily::R65C02 => "r65c02"@,
        CpuFamily::W65C02 => "w65c02"@,
    }
}

/// An ASCII capital letter in lower case; any other character as it is.
pub open spec fn ascii_lower(c: char) -> char {
    if 'A' <= c <= 'Z' {
        ((c as u8) + 32) as u8 as char
    } else {
        c
    }
}

/// A text with its ASCII capitals in lower case (the only characters whose
/// lower-case form can spell one of the variant names).
pub open spec fn lowercase(s: Seq<char>) -> Seq<char> {
    s.map_values(|c: char| ascii_lower(c))
}

/// The configuration after switching to the variant named `name` (already
/// in lower case), or `None` for an unknown name.
pub open spec fn variant_config(c: MachineConfig, name: Seq<char>) -> Option<MachineConfig> {
    if name == "nmos6502"@ || name == "nmos"@ {
        Some(MachineConfig { family: CpuFamily::Nmos6502, quirks: nmos_quirks(), ..c })
    } else if name == "w65c02"@ || name == "cmos"@ {
        Some(MachineConfig { family: CpuFamily::W65C02, quirks: cmos_quirks(), ..c })
    } else if name == "ricoh2a03"@ || name == "nes"@ {
        Some(MachineConfig { family: CpuFamily::Ricoh2A03, quirks: ricoh_quirks(), ..c })
    } else if name == "r65c02"@ {
        Some(MachineConfig { family: CpuFamily::R65C02, quirks: cmos_quirks(), ..c })
    } else if name == "nmos6510"@ || name == "c64"@ {
        Some(MachineConfig { family: CpuFamily::Nmos6510, ..c })
    } else {
        None
    }
}

fn lower_char(c: char) -> (r: char)
    ensures
        r == ascii_lower(c),
{
    if 'A' <= c && c <= 'Z' {
        ((c as u8) + 32) as char
    } else {
        c
    }
}

/// Whether `s`, with its ASCII capitals in lower case, is `lower`.
fn lowercase_equals(s: &str, lower: &str) -> (r: bool)
    ensures
        r == (lowercase(s@) == lower@),
{
    let n = s.unicode_len();
    if n != lower.unicode_len() {
        assert(lowercase(s@).len() != lower@.len());
        return false;
    }
    let mut i: usize = 0;
    while i < n
        invariant
            n == s@.len(),
            n == lower@.len(),
            i <= n,
            forall|j: int| 0 <= j < i ==> ascii_lower(#[trigger] s@[j]) == lower@[j],
        decreases n - i,
    {
        if lower_char(s.get_char(i)) != lower.get_char(i) {
            assert(lowercase(s@)[i as int] != lower@[i as int]);
            return false;
        }
        i = i + 1;
    }
    assert(lowercase(s@) =~= lower@);
    true
}

/// A CPU holding the registers and counters of a saved state (the status
/// register through `StatusRegister::set`) under `config`.
pub open spec fn cpu_from_state(s: CpuState, config: MachineConfig) -> CpuView {
    CpuView {
        a: s.a,
        x: s.x,
        y: s.y,
        pc: s.pc,
        sp: s.sp,
        sr: sr_from_raw(s.sr),
        cycles: s.cycles,
        instructions: s.instructions,
        halted: s.halted,
        waiting: s.waiting,
        stopped: s.stopped,
        config,
    }
}

/// The saved form of a CPU's registers and counters.
pub open spec fn cpu_state(c: CpuView) -> CpuState {
    CpuState {
        a: c.a,
        x: c.x,
        y: c.y,
        pc: c.pc,
        sp: c.sp,
        sr: c.sr,
        cycles: c.cycles,
        instructions: c.instructions,
        halted: c.halted,
        waiting: c.waiting,
        stopped: c.stopped,
    }
}

/// Bytes as characters, each byte the code point of its character.
pub open spec fn bytes_as_chars(bytes: Seq<u8>) -> Seq<char> {
    Seq::new(bytes.len(), |i: int| bytes[i] as char)
}

/// `n` ticks from a CPU and its memory, stopping after the first tick that
/// takes no cycles: the CPU, the memory, the number of ticks that took
/// cycles, and the cycles taken.
pub open spec fn run_spec(c: CpuView, m: MemoryView, n: nat) -> (CpuView, MemoryView, nat, nat)
    decreases n,
{
    if n == 0 {
        (c, m, 0, 0)
    } else {
        let (c1, m1, cycles) = tick_spec::<Memory>(c, m);
        if cycles == 0 {
            (c1, m1, 0, 0)
        } else {
            let (c2, m2, ticks, total) = run_spec(c1, m1, (n - 1) as nat);
            (c2, m2, ticks + 1, total + cycles as nat)
        }
    }
}

/// Whole instructions from a CPU and its memory until at least `budget`
/// cycles have been executed, stopping after an instruction that takes no
/// cycles: the CPU, the memory, and the cycles executed.
pub open spec fn run_cycles_spec(c: CpuView, m: MemoryView, budget: nat) -> (CpuView, MemoryView, nat)
    decreases budget,
{
    if budget == 0 {
        (c, m, 0)
    } else {
        let (c1, m1, cycles) = tick_spec::<Memory>(c, m);
        if cycles == 0 {
            (c1, m1, 0)
        } else if cycles >= budget {
            (c1, m1, cycles as nat)
        } else {
            let (c2, m2, total) = run_cycles_spec(c1, m1, (budget - cycles) as nat);
            (c2, m2, total + cycles as nat)
        }
    }
}

// ───────────────────────── laws ─────────────────────────

/// Whether the stack page of a memory holds what is written to it: no PIA
/// register in it, and the active bank large enough that every stack
/// address has a cell of its own.
pub open spec fn plain_stack(m: MemoryView) -> bool {
    m.wf() && m.banks[m.active()].size >= 0x200
}

proof fn lemma_stack_cell(m: MemoryView, sp: u8)
    requires
        plain_stack(m),
    ensures
        m.banks[m.active()].cell(stack_addr(sp)) == stack_addr(sp) as int,
        !m.pia_serves(stack_addr(sp)),
{
    let size = m.banks[m.active()].size;
    vstd::arithmetic::div_mod::lemma_small_mod(stack_addr(sp) as nat, size as nat);
}

/// A byte pushed onto a plain stack page is the byte pulled back, and the
/// stack pointer returns to where it was.
pub proof fn lemma_push_pull(c: CpuView, m: MemoryView, value: u8)
    requires
        plain_stack(m),
    ensures
        ({
            let (c1, m1) = push_spec::<Memory>(c, m, value);
            let (v, c2, m2) = pull_spec::<Memory>(c1, m1);
            &&& v == value
            &&& c2 == c
            &&& m2 == m1
        }),
{
    lemma_stack_cell(m, c.sp);
    crate::mos6502::memory::lemma_write_then_read(m, stack_addr(c.sp), value, stack_addr(c.sp));
    let sp = c.sp;
    assert(sp.wrapping_sub(1).wrapping_add(1) == sp) by (bit_vector);
}

/// A subroutine call (JSR) followed at once by a return (RTS) on a plain
/// stack page continues at the instruction after the call, with the stack
/// pointer where it was.
pub proof fn lemma_jsr_rts(c: CpuView, m: MemoryView, target: u16)
    requires
        plain_stack(m),
    ensures
        ({
            let (c1, m1) = jsr::<Memory>(c, m, target);
            let (c2, _m2) = rts::<Memory>(c1, m1);
            &&& c2.pc == c.pc
            &&& c2.sp == c.sp
        }),
{
    let ret = c.pc.wrapping_sub(1);
    let hi = high_byte_spec(ret);
    let lo = low_byte_spec(ret);
    let sp = c.sp;
    let sp1 = sp.wrapping_sub(1);
    lemma_stack_cell(m, c.sp);
    lemma_stack_cell(m, sp1);
    let m1 = m.write(stack_addr(c.sp), hi);
    crate::mos6502::memory::lemma_write_then_read(m, stack_addr(c.sp), hi, stack_addr(c.sp));
    let pc = c.pc;
    assert((0x100 + sp.wrapping_sub(1)) as u16 != (0x100 + sp) as u16 && sp.wrapping_sub(1).wrapping_sub(1).wrapping_add(1)
        == sp.wrapping_sub(1) && sp.wrapping_sub(1).wrapping_add(1) == sp && pc.wrapping_sub(1).wrapping_add(1) == pc)
        by (bit_vector);
    crate::mos6502::memory::lemma_write_then_read(m1, stack_addr(sp1), lo, stack_addr(c.sp));
    crate::mos6502::memory::lemma_write_then_read(m1, stack_addr(sp1), lo, stack_addr(sp1));
    crate::bus::lemma_word_bytes(ret);
}

/// Loading a saved state gives back the saved registers and counters: the
/// CPU equals the one that was saved, under the configuration it is loaded
/// with (the status register's bit 5, which always reads 1, is kept).
pub proof fn lemma_state_roundtrip(c: CpuView, config: MachineConfig)
    requires
        flag(c.sr, 0x20),
    ensures
        cpu_from_state(cpu_state(c), config) == (CpuView { config, ..c }),
{
    let sr = c.sr;
    assert(sr & 0x20 != 0 ==> (sr & 0xDF) | 0x20 == sr) by (bit_vector);
}

} // verus!
