//! A Ben Eater-style 6502 computer: 16 KiB of RAM at 0x0000, a 6551 ACIA at
//! 0x6000, and 32 KiB of ROM at 0x8000. Bytes the ACIA sends are kept in a
//! queue for the host.

use vstd::prelude::*;
use crate::bus::{Bus, word, word_spec};
use crate::chips::acia::{
    Acia6551, SR_RX_FULL, read_spec, write_spec, tx_complete_spec, received_spec, received_status, irq_condition,
};
use crate::devices::machine::{Machine, SerialMachine};
use crate::mos6502::config::{MachineConfig, CpuFamily, nmos_quirks, preset};
use crate::mos6502::cpu::{CpuView, power_on};
use crate::mos6502::emulator::{Emulator, tick_spec};
use crate::mos6502::memory::fresh_memory;

verus! {

pub const RAM_SIZE: usize = 0x4000;
pub const ACIA_BASE: u16 = 0x6000;
pub const ROM_SIZE: usize = 0x8000;

/// The bus of the machine.
pub struct Eater6502Bus {
    pub ram: Vec<u8>,
    pub rom: Vec<u8>,
    pub acia: Acia6551,
    tx_fifo: Vec<u8>,
}

/// The bus as plain values.
pub struct EaterBusView {
    pub ram: Seq<u8>,
    pub rom: Seq<u8>,
    pub acia: Acia6551,
    /// Bytes sent and not yet taken by the host, oldest first.
    pub tx_fifo: Seq<u8>,
}

impl View for Eater6502Bus {
    type V = EaterBusView;

    closed spec fn view(&self) -> EaterBusView {
        EaterBusView { ram: self.ram@, rom: self.rom@, acia: self.acia, tx_fifo: self.tx_fifo@ }
    }
}

/// A ROM image padded with 0xFF (or cut) to `n` bytes.
pub open spec fn padded(rom: Seq<u8>, n: nat) -> Seq<u8> {
    Seq::new(n, |i: int| if i < rom.len() { rom[i] } else { 0xFFu8 })
}

/// Whether `addr` is one of the ACIA's registers.
pub open spec fn is_acia(addr: u16) -> bool {
    0x6000 <= addr <= 0x6003
}

impl Eater6502Bus {
    /// A bus with zeroed RAM, the ROM image padded with 0xFF to 32 KiB, and
    /// the ACIA after reset.
    pub fn new(rom: Vec<u8>) -> (r: Self)
        ensures
            r@.ram == Seq::new(0x4000, |i: int| 0u8),
            r@.rom == padded(rom@, 0x8000),
            r@.acia == Acia6551::new_spec(),
            r@.tx_fifo == Seq::<u8>::empty(),
    {
        let mut r = rom;
        r.resize(ROM_SIZE, 0xFF);
        assert(r@ =~= padded(rom@, 0x8000));
        Eater6502Bus { ram: vec![0; RAM_SIZE], rom: r, acia: Acia6551::new(), tx_fifo: Vec::new() }
    }

    /// A byte arrives from the terminal at the ACIA.
    pub fn receive_byte(&mut self, data: u8)
        ensures
            final(self)@.ram == old(self)@.ram,
            final(self)@.rom == old(self)@.rom,
            final(self)@.tx_fifo == old(self)@.tx_fifo,
            final(self)@.acia == received_spec(old(self)@.acia, data),
            ({
                let a = old(self)@.acia;
                let s = if a.rx_pending { a.status | 0x04 } else { a.status };
                &&& final(self)@.acia.status == received_status(a.command, s, data)
                &&& final(self)@.acia.irq == irq_condition(a.command, received_status(a.command, s, data))
                &&& final(self)@.acia.rx_data == data
                &&& final(self)@.acia.rx_pending
                &&& final(self)@.acia.command == a.command
                &&& final(self)@.acia.control == a.control
                &&& final(self)@.acia.tx_pending == a.tx_pending
                &&& final(self)@.acia.tx_output == a.tx_output
            }),
    {
        self.acia.receive(data);
    }

    /// Takes every byte sent so far.
    pub fn drain_tx(&mut self) -> (r: Vec<u8>)
        ensures
            r@ == old(self)@.tx_fifo,
            final(self)@ == (EaterBusView { tx_fifo: Seq::empty(), ..old(self)@ }),
    {
        let mut out: Vec<u8> = Vec::new();
        std::mem::swap(&mut out, &mut self.tx_fifo);
        out
    }

    /// Takes the oldest byte sent, if any.
    pub fn read_transmitted(&mut self) -> (r: Option<u8>)
        ensures
            old(self)@.tx_fifo.len() == 0 ==> r is None && final(self)@ == old(self)@,
            old(self)@.tx_fifo.len() > 0 ==> r == Some(old(self)@.tx_fifo[0]) && final(self)@ == (EaterBusView {
                tx_fifo: old(self)@.tx_fifo.drop_first(),
                ..old(self)@
            }),
    {
        if self.tx_fifo.len() == 0 {
            return None;
        }
        let b = self.tx_fifo.remove(0);
        assert(old(self)@.tx_fifo.remove(0) =~= old(self)@.tx_fifo.drop_first());
        Some(b)
    }
}

impl Bus for Eater6502Bus {
    /// RAM and ROM have their full sizes.
    open spec fn inv(s: EaterBusView) -> bool {
        s.ram.len() == 0x4000 && s.rom.len() == 0x8000
    }

    open spec fn peek(s: EaterBusView, addr: u16) -> u8 {
        if addr <= 0x3FFF {
            s.ram[addr as int]
        } else if is_acia(addr) {
            read_spec(s.acia, (addr - 0x6000) as u16).0
        } else if addr >= 0x8000 {
            s.rom[addr - 0x8000]
        } else {
            0xFF
        }
    }

    open spec fn after_read(s: EaterBusView, addr: u16) -> EaterBusView {
        if is_acia(addr) {
            EaterBusView { acia: read_spec(s.acia, (addr - 0x6000) as u16).1, ..s }
        } else {
            s
        }
    }

    /// A write of the ACIA data register also queues the byte for the host
    /// and completes its transmission at once; ROM ignores writes.
    open spec fn after_write(s: EaterBusView, addr: u16, value: u8) -> EaterBusView {
        if addr <= 0x3FFF {
            EaterBusView { ram: s.ram.update(addr as int, value), ..s }
        } else if is_acia(addr) {
            if addr == 0x6000 {
                EaterBusView {
                    tx_fifo: s.tx_fifo.push(value),
                    acia: tx_complete_spec(write_spec(s.acia, 0, value)).1,
                    ..s
                }
            } else {
                EaterBusView { acia: write_spec(s.acia, (addr - 0x6000) as u16, value), ..s }
            }
        } else {
            s
        }
    }

    proof fn lemma_inv(s: EaterBusView, addr: u16, value: u8) {
        assert(<Eater6502Bus as Bus>::after_write(s, addr, value).ram.len() == s.ram.len());
    }

    fn read(&mut self, addr: u16) -> (r: u8) {
        if addr <= 0x3FFF {
            self.ram[addr as usize]
        } else if 0x6000 <= addr && addr <= 0x6003 {
            self.acia.read(addr - ACIA_BASE)
        } else if addr >= 0x8000 {
            self.rom[(addr - 0x8000) as usize]
        } else {
            0xFF
        }
    }

    fn write(&mut self, addr: u16, val: u8) {
        if addr <= 0x3FFF {
            self.ram.set(addr as usize, val);
        } else if 0x6000 <= addr && addr <= 0x6003 {
            if addr - ACIA_BASE == 0 {
                self.tx_fifo.push(val);
                self.acia.write(addr - ACIA_BASE, val);
                self.acia.tx_complete();
            } else {
                self.acia.write(addr - ACIA_BASE, val);
            }
        }
    }
}

/// The machine: a 6502 on the bus.
pub struct Eater6502 {
    pub cpu: Emulator,
    pub bus: Eater6502Bus,
}

impl Eater6502 {
    /// The machine with the given ROM, the NMOS 6502 reset: PC from the
    /// reset vector in ROM, SP at 0xFF.
    pub fn new(rom: Vec<u8>) -> (r: Self)
        ensures
            r.bus@.ram == Seq::new(0x4000, |i: int| 0u8),
            r.bus@.rom == padded(rom@, 0x8000),
            r.bus@.acia == Acia6551::new_spec(),
            r.bus@.tx_fifo == Seq::<u8>::empty(),
            preset(r.cpu.config, CpuFamily::Nmos6502, nmos_quirks(), 65536, 0x8000, false),
            r.cpu.cpu@ == (CpuView {
                pc: word_spec(padded(rom@, 0x8000)[0x7FFC], padded(rom@, 0x8000)[0x7FFD]),
                sp: 0xFF,
                ..power_on(r.cpu.config)
            }),
            r.cpu.total_cycles == 0,
            r.cpu.wf(),
            Eater6502Bus::inv(r.bus@),
    {
        let cfg = MachineConfig::nmos6502();
        let emu = Emulator::from_config(cfg);
        let mut machine = Eater6502 { cpu: emu, bus: Eater6502Bus::new(rom) };
        let reset_lo = machine.bus.read(0xFFFC);
        let reset_hi = machine.bus.read(0xFFFD);
        machine.cpu.set_register_pc(word(reset_lo, reset_hi));
        machine.cpu.set_register_sp(0xFF);
        machine
    }

    /// Runs one instruction on the bus.
    pub fn tick(&mut self) -> (r: u8)
        requires
            Eater6502Bus::inv(old(self).bus@),
            old(self).cpu.counters_room(1, 255),
        ensures
            (final(self).cpu.cpu@, final(self).bus@, r) == tick_spec::<Eater6502Bus>(old(self).cpu.cpu@, old(self).bus@),
            final(self).cpu.total_cycles == old(self).cpu.total_cycles + r,
            final(self).cpu.memory == old(self).cpu.memory,
            final(self).cpu.config == old(self).cpu.config,
            Eater6502Bus::inv(final(self).bus@),
    {
        self.cpu.tick_bus(&mut self.bus)
    }

    pub fn get_pc(&self) -> (r: u16)
        ensures
            r == self.cpu.cpu.pc,
    {
        self.cpu.get_register_pc()
    }
}

impl Machine for Eater6502 {
    open spec fn can_tick(&self) -> bool {
        Eater6502Bus::inv(self.bus@) && self.cpu.counters_room(1, 255)
    }

    fn tick(&mut self)
        ensures
            ({
                let (c, b, cycles) = tick_spec::<Eater6502Bus>(old(self).cpu.cpu@, old(self).bus@);
                final(self).cpu.cpu@ == c && final(self).bus@ == b
                    && final(self).cpu.total_cycles == old(self).cpu.total_cycles + cycles
            }),
    {
        self.cpu.tick_bus(&mut self.bus);
    }

    fn pc(&self) -> (r: u16)
        ensures
            r == self.cpu.cpu.pc,
    {
        self.cpu.get_register_pc()
    }

    fn sp(&self) -> (r: u8)
        ensures
            r == self.cpu.cpu.sp,
    {
        self.cpu.get_register_sp()
    }

    fn a(&self) -> (r: u8)
        ensures
            r == self.cpu.cpu.a,
    {
        self.cpu.get_register_a()
    }

    fn x(&self) -> (r: u8)
        ensures
            r == self.cpu.cpu.x,
    {
        self.cpu.get_register_x()
    }

    fn y(&self) -> (r: u8)
        ensures
            r == self.cpu.cpu.y,
    {
        self.cpu.get_register_y()
    }

    fn p(&self) -> (r: u8)
        ensures
            r == self.cpu.cpu@.sr,
    {
        self.cpu.get_status_register()
    }

    fn cycles(&self) -> (r: u64)
        ensures
            r == self.cpu.total_cycles,
    {
        self.cpu.get_cycle_count()
    }

    fn instructions(&self) -> (r: u64)
        ensures
            r == self.cpu.cpu.instructions,
    {
        self.cpu.get_instruction_count()
    }
}

impl SerialMachine for Eater6502 {
    fn serial_send(&mut self, byte: u8)
        ensures
            final(self).bus@ == (EaterBusView { acia: received_spec(old(self).bus@.acia, byte), ..old(self).bus@ }),
            final(self).cpu == old(self).cpu,
    {
        self.bus.receive_byte(byte);
    }

    fn serial_recv(&mut self) -> (r: Option<u8>)
        ensures
            old(self).bus@.tx_fifo.len() == 0 ==> r is None,
            old(self).bus@.tx_fifo.len() > 0 ==> r == Some(old(self).bus@.tx_fifo[0])
                && final(self).bus@.tx_fifo == old(self).bus@.tx_fifo.drop_first(),
    {
        self.bus.read_transmitted()
    }

    fn serial_send_ready(&mut self) -> (r: bool)
        ensures
            r == (old(self).bus@.acia.status & SR_RX_FULL == 0),
            final(self).bus@ == old(self).bus@,
    {
        self.bus.acia.status() & SR_RX_FULL == 0
    }
}

} // verus!
