//! The Apple 1: 4 KiB of RAM, BASIC ROM at 0xE000, the WozMon ROM at
//! 0xFF00, and the keyboard/display PIA at 0xD010 (a display register is
//! also mirrored at 0xD0F0).

use vstd::prelude::*;
use std::collections::VecDeque;
use crate::bus::Bus;
use crate::chips::pia::{Pia6821, port_value};
use crate::mos6502::cpu::{CpuView, power_on};
use crate::mos6502::emulator::{Emulator, tick_spec};
use crate::mos6502::memory::fresh_memory;

verus! {

/// The keyboard/display PIA: queued key presses, and the characters the
/// machine has printed.
pub struct Apple1Pia {
    pub pia: Pia6821,
    pub keyboard: VecDeque<u8>,
    pub display: Vec<u8>,
}

/// The PIA as plain values.
pub struct Apple1PiaView {
    pub pia: Pia6821,
    pub keyboard: Seq<u8>,
    pub display: Seq<u8>,
}

impl View for Apple1Pia {
    type V = Apple1PiaView;

    open spec fn view(&self) -> Apple1PiaView {
        Apple1PiaView { pia: self.pia, keyboard: self.keyboard@, display: self.display@ }
    }
}

/// A PIA register read (address modulo 4): 0 takes the next key (bit 7
/// set; 0 with none), 1 reports whether a key waits (0x80), 2 and 3 read
/// the PIA with idle pins. Gives the byte and the PIA after it.
pub open spec fn pia_read_spec(p: Apple1PiaView, addr: u16) -> (u8, Apple1PiaView) {
    let reg = addr & 3;
    if reg == 0 {
        if p.keyboard.len() > 0 {
            (p.keyboard[0] | 0x80, Apple1PiaView { keyboard: p.keyboard.drop_first(), ..p })
        } else {
            (0, p)
        }
    } else if reg == 1 {
        (if p.keyboard.len() > 0 { 0x80u8 } else { 0u8 }, p)
    } else if reg == 2 {
        (port_value(p.pia.orb, p.pia.ddrb, 0), p)
    } else {
        (p.pia.crb, p)
    }
}

/// A PIA register write: register 2 prints the character (bit 7 cleared),
/// the others are written to the PIA.
pub open spec fn pia_write_spec(p: Apple1PiaView, addr: u16, val: u8) -> Apple1PiaView {
    let reg = addr & 3;
    if reg == 2 {
        Apple1PiaView { display: p.display.push(val & 0x7F), ..p }
    } else if reg == 0 {
        Apple1PiaView { pia: Pia6821 { ora: val, ..p.pia }, ..p }
    } else if reg == 1 {
        Apple1PiaView { pia: Pia6821 { cra: val, ..p.pia }, ..p }
    } else {
        Apple1PiaView { pia: Pia6821 { crb: val, ..p.pia }, ..p }
    }
}

impl Apple1Pia {
    pub fn new() -> (r: Self)
        ensures
            r@.pia == Pia6821::new_spec(),
            r@.keyboard == Seq::<u8>::empty(),
            r@.display == Seq::<u8>::empty(),
    {
        Apple1Pia { pia: Pia6821::new(), keyboard: VecDeque::new(), display: Vec::new() }
    }

    /// Queues a key press.
    pub fn push_key(&mut self, ch: u8)
        ensures
            final(self)@ == (Apple1PiaView { keyboard: old(self)@.keyboard.push(ch), ..old(self)@ }),
    {
        self.keyboard.push_back(ch);
    }

    pub fn read(&mut self, addr: u16) -> (r: u8)
        ensures
            (r, final(self)@) == pia_read_spec(old(self)@, addr),
    {
        proof {
            crate::bits::lemma_low_bits(addr);
        }
        let reg = addr & 3;
        if reg == 0 {
            let k = self.keyboard.pop_front();
            match k {
                Some(ch) => ch | 0x80,
                None => 0,
            }
        } else if reg == 1 {
            if self.keyboard.len() > 0 { 0x80 } else { 0 }
        } else {
            self.pia.read(addr, 0, 0)
        }
    }

    pub fn write(&mut self, addr: u16, val: u8)
        ensures
            final(self)@ == pia_write_spec(old(self)@, addr, val),
    {
        proof {
            crate::bits::lemma_low_bits(addr);
        }
        let reg = addr & 3;
        if reg == 2 {
            self.display.push(val & 0x7F);
        } else {
            self.pia.write(addr, val);
        }
    }

    /// Prints a character (bit 7 cleared).
    pub fn push_display(&mut self, val: u8)
        ensures
            final(self)@ == (Apple1PiaView { display: old(self)@.display.push(val & 0x7F), ..old(self)@ }),
    {
        self.display.push(val & 0x7F);
    }
}

/// The bus of the Apple 1.
pub struct Apple1Bus {
    pub ram: Vec<u8>,
    pub basic_rom: Vec<u8>,
    pub wozmon_rom: Vec<u8>,
    pub pia: Apple1Pia,
}

/// The bus as plain values.
pub struct Apple1BusView {
    pub ram: Seq<u8>,
    pub basic_rom: Seq<u8>,
    pub wozmon_rom: Seq<u8>,
    pub pia: Apple1PiaView,
}

impl View for Apple1Bus {
    type V = Apple1BusView;

    open spec fn view(&self) -> Apple1BusView {
        Apple1BusView { ram: self.ram@, basic_rom: self.basic_rom@, wozmon_rom: self.wozmon_rom@, pia: self.pia@ }
    }
}

impl Apple1Bus {
    /// Zeroed RAM, the two ROM images, an idle PIA.
    pub fn new(basic_rom: &[u8], wozmon_rom: &[u8]) -> (r: Self)
        ensures
            r@.ram == Seq::new(0x1000, |i: int| 0u8),
            r@.basic_rom == basic_rom@,
            r@.wozmon_rom == wozmon_rom@,
            r@.pia.pia == Pia6821::new_spec(),
            r@.pia.keyboard == Seq::<u8>::empty(),
            r@.pia.display == Seq::<u8>::empty(),
    {
        Apple1Bus {
            ram: vec![0; 0x1000],
            basic_rom: vstd::slice::slice_to_vec(basic_rom),
            wozmon_rom: vstd::slice::slice_to_vec(wozmon_rom),
            pia: Apple1Pia::new(),
        }
    }
}

impl Bus for Apple1Bus {
    /// RAM has its size, and both ROMs cover their address ranges.
    open spec fn inv(s: Apple1BusView) -> bool {
        s.ram.len() == 0x1000 && s.basic_rom.len() >= 0x1000 && s.wozmon_rom.len() >= 0x100
    }

    open spec fn peek(s: Apple1BusView, addr: u16) -> u8 {
        if addr <= 0x0FFF {
            s.ram[addr as int]
        } else if 0xD010 <= addr <= 0xD013 {
            pia_read_spec(s.pia, addr).0
        } else if 0xD0F0 <= addr <= 0xD0F3 {
            0
        } else if 0xE000 <= addr <= 0xEFFF {
            s.basic_rom[addr - 0xE000]
        } else if addr >= 0xFF00 {
            s.wozmon_rom[addr - 0xFF00]
        } else {
            0
        }
    }

    open spec fn after_read(s: Apple1BusView, addr: u16) -> Apple1BusView {
        if 0xD010 <= addr <= 0xD013 {
            Apple1BusView { pia: pia_read_spec(s.pia, addr).1, ..s }
        } else {
            s
        }
    }

    open spec fn after_write(s: Apple1BusView, addr: u16, value: u8) -> Apple1BusView {
        if addr <= 0x0FFF {
            Apple1BusView { ram: s.ram.update(addr as int, value), ..s }
        } else if 0xD010 <= addr <= 0xD013 {
            Apple1BusView { pia: pia_write_spec(s.pia, addr, value), ..s }
        } else if 0xD0F0 <= addr <= 0xD0F3 {
            Apple1BusView { pia: Apple1PiaView { display: s.pia.display.push(value & 0x7F), ..s.pia }, ..s }
        } else {
            s
        }
    }

    proof fn lemma_inv(s: Apple1BusView, addr: u16, value: u8) {
        assert(<Apple1Bus as Bus>::after_write(s, addr, value).ram.len() == s.ram.len());
        assert(<Apple1Bus as Bus>::after_read(s, addr).ram.len() == s.ram.len());
    }

    fn read(&mut self, addr: u16) -> (r: u8) {
        if addr <= 0x0FFF {
            self.ram[addr as usize]
        } else if 0xD010 <= addr && addr <= 0xD013 {
            self.pia.read(addr)
        } else if 0xD0F0 <= addr && addr <= 0xD0F3 {
            0
        } else if 0xE000 <= addr && addr <= 0xEFFF {
            self.basic_rom[(addr - 0xE000) as usize]
        } else if addr >= 0xFF00 {
            self.wozmon_rom[(addr - 0xFF00) as usize]
        } else {
            0
        }
    }

    fn write(&mut self, addr: u16, val: u8) {
        if addr <= 0x0FFF {
            self.ram.set(addr as usize, val);
        } else if 0xD010 <= addr && addr <= 0xD013 {
            self.pia.write(addr, val);
        } else if 0xD0F0 <= addr && addr <= 0xD0F3 {
            self.pia.push_display(val);
        }
    }
}

/// `k` more instructions on the Apple 1 bus, stopping after one that takes
/// no cycles: the CPU, the cycles taken, the bus and the instructions run.
pub open spec fn apple1_run(c: CpuView, b: Apple1BusView, k: nat) -> (CpuView, nat, Apple1BusView, nat)
    decreases k,
{
    if k == 0 {
        (c, 0, b, 0)
    } else {
        let (c1, b1, cy) = tick_spec::<Apple1Bus>(c, b);
        if cy == 0 {
            (c1, 0, b1, 0)
        } else {
            let (c2, t2, b2, n2) = apple1_run(c1, b1, (k - 1) as nat);
            (c2, t2 + cy as nat, b2, n2 + 1)
        }
    }
}

/// An Apple 1.
pub struct Apple1Emulator {
    pub cpu: Emulator,
    pub bus: Apple1Bus,
    pub roms_loaded: bool,
}

impl Apple1Emulator {
    /// A machine with empty ROMs that does not run until ROMs are loaded.
    pub fn new() -> (r: Self)
        ensures
            !r.roms_loaded,
            r.bus@.ram == Seq::new(0x1000, |i: int| 0u8),
            r.cpu.wf(),
    {
        let empty: [u8; 0] = [];
        Apple1Emulator { cpu: Emulator::new(), bus: Apple1Bus::new(&empty, &empty), roms_loaded: false }
    }

    /// Loads BASIC and WozMon and starts at WozMon (PC 0xFF00, SP 0xFF).
    pub fn load_roms(&mut self, basic: &[u8], wozmon: &[u8])
        ensures
            final(self).roms_loaded,
            final(self).bus@.ram == Seq::new(0x1000, |i: int| 0u8),
            final(self).bus@.basic_rom == basic@,
            final(self).bus@.wozmon_rom == wozmon@,
            final(self).bus@.pia.keyboard == Seq::<u8>::empty(),
            final(self).bus@.pia.display == Seq::<u8>::empty(),
            final(self).cpu.cpu@ == (CpuView { pc: 0xFF00, sp: 0xFF, ..power_on(final(self).cpu.config) }),
            final(self).cpu.memory@ == fresh_memory(final(self).cpu.config),
            final(self).cpu.total_cycles == 0,
            final(self).cpu.wf(),
    {
        self.bus = Apple1Bus::new(basic, wozmon);
        self.cpu = Emulator::new();
        self.cpu.set_register_pc(0xFF00);
        self.cpu.set_register_sp(0xFF);
        self.roms_loaded = true;
    }

    /// Runs up to `count` instructions (nothing before ROMs are loaded),
    /// stopping at one that takes no cycles; returns how many ran.
    pub fn run(&mut self, count: u32) -> (r: u32)
        requires
            old(self).roms_loaded ==> Apple1Bus::inv(old(self).bus@),
            old(self).cpu.counters_room(count as nat, 255 * count as nat),
        ensures
            !old(self).roms_loaded ==> r == 0 && final(self).cpu == old(self).cpu && final(self).bus@
                == old(self).bus@,
            old(self).roms_loaded ==> ({
                let (c, t, b, n) = apple1_run(old(self).cpu.cpu@, old(self).bus@, count as nat);
                &&& final(self).cpu.cpu@ == c
                &&& final(self).cpu.total_cycles == old(self).cpu.total_cycles + t
                &&& final(self).bus@ == b
                &&& r == n
            }),
            final(self).cpu.memory == old(self).cpu.memory,
            final(self).cpu.config == old(self).cpu.config,
            final(self).roms_loaded == old(self).roms_loaded,
    {
        if !self.roms_loaded {
            return 0;
        }
        let ghost c0 = self.cpu.cpu@;
        let ghost b0 = self.bus@;
        let ghost i0 = self.cpu.cpu.instructions;
        let ghost t0 = self.cpu.total_cycles;
        let mut n: u32 = 0;
        let mut i: u32 = 0;
        while i < count
            invariant_except_break
                i <= count,
                n == i,
                ({
                    let (c, t, b, k) = apple1_run(self.cpu.cpu@, self.bus@, (count - i) as nat);
                    let (c_all, t_all, b_all, k_all) = apple1_run(c0, b0, count as nat);
                    &&& c_all == c
                    &&& b_all == b
                    &&& t_all == (self.cpu.total_cycles - t0) + t
                    &&& k_all == n + k
                }),
                self.cpu.cpu.instructions <= i0 + i,
                t0 <= self.cpu.total_cycles <= t0 + 255 * i,
            invariant
                Apple1Bus::inv(self.bus@),
                self.cpu.memory == old(self).cpu.memory,
                self.cpu.config == old(self).cpu.config,
                self.roms_loaded,
                i0 + count <= u64::MAX,
                t0 + 255 * count <= u64::MAX,
            ensures
                ({
                    let (c, t, b, k) = apple1_run(c0, b0, count as nat);
                    &&& self.cpu.cpu@ == c
                    &&& self.cpu.total_cycles == t0 + t
                    &&& self.bus@ == b
                    &&& n == k
                }),
            decreases count - i,
        {
            let c = self.cpu.tick_bus(&mut self.bus);
            if c == 0 {
                break;
            }
            n = n + 1;
            i = i + 1;
        }
        n
    }

    /// Queues a key press.
    pub fn press_key(&mut self, ascii: u8)
        ensures
            final(self).bus@ == (Apple1BusView {
                pia: Apple1PiaView { keyboard: old(self).bus@.pia.keyboard.push(ascii), ..old(self).bus@.pia },
                ..old(self).bus@
            }),
            final(self).cpu == old(self).cpu,
            final(self).roms_loaded == old(self).roms_loaded,
    {
        self.bus.pia.push_key(ascii);
    }

    /// The number of characters printed and not yet taken.
    pub fn display_len(&self) -> (r: usize)
        ensures
            r == self.bus@.pia.display.len(),
    {
        self.bus.pia.display.len()
    }

    /// The characters printed so far, taken (the next call starts empty).
    pub fn take_display(&mut self) -> (r: Vec<u8>)
        ensures
            r@ == old(self).bus@.pia.display,
            final(self).bus@ == (Apple1BusView {
                pia: Apple1PiaView { display: Seq::empty(), ..old(self).bus@.pia },
                ..old(self).bus@
            }),
            final(self).cpu == old(self).cpu,
            final(self).roms_loaded == old(self).roms_loaded,
    {
        let mut out: Vec<u8> = Vec::new();
        std::mem::swap(&mut out, &mut self.bus.pia.display);
        out
    }

    pub fn get_pc(&self) -> (r: u16)
        ensures
            r == self.cpu.cpu.pc,
    {
        self.cpu.get_register_pc()
    }

    pub fn get_sp(&self) -> (r: u8)
        ensures
            r == self.cpu.cpu.sp,
    {
        self.cpu.get_register_sp()
    }

    pub fn get_a(&self) -> (r: u8)
        ensures
            r == self.cpu.cpu.a,
    {
        self.cpu.get_register_a()
    }

    pub fn get_x(&self) -> (r: u8)
        ensures
            r == self.cpu.cpu.x,
    {
        self.cpu.get_register_x()
    }

    pub fn get_y(&self) -> (r: u8)
        ensures
            r == self.cpu.cpu.y,
    {
        self.cpu.get_register_y()
    }

    pub fn get_p(&self) -> (r: u8)
        ensures
            r == self.cpu.cpu@.sr,
    {
        self.cpu.get_status_register()
    }

    pub fn get_instructions(&self) -> (r: u64)
        ensures
            r == self.cpu.cpu.instructions,
    {
        self.cpu.get_instruction_count()
    }

    pub fn get_cycles(&self) -> (r: u64)
        ensures
            r == self.cpu.total_cycles,
    {
        self.cpu.get_cycle_count()
    }
}

} // verus!
