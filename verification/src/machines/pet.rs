//! The Commodore PET 2001: 32 KiB of RAM, 1000 bytes of screen memory at
//! 0x8000, BASIC, editor and kernal ROMs, a keyboard matrix read through a
//! 6520 PIA, a second PIA for the IEEE-488 port, and a 6522 VIA whose CB1
//! sees the vertical blank.
//!
//! Memory map: 0x0000-0x7FFF RAM, 0x8000-0x83E7 screen, 0xC000-0xCFFF and
//! 0xD000-0xDFFF BASIC, 0xE000-0xE7FF editor, 0xE810-0xE813 PIA 1,
//! 0xE820-0xE823 PIA 2, 0xE840-0xE84F VIA, 0xF000-0xFFFF kernal.

use vstd::prelude::*;
use crate::bus::{Bus, word, word_spec};
use crate::chips::pia::{Pia6821, port_value};
use crate::chips::via::{Via6522, read_spec as via_read, write_spec as via_write, cycles, cb1_input};
use crate::mos6502::cpu::{CpuView, FLAG_I, flag, power_on};
use crate::mos6502::emulator::{Emulator, tick_spec, interrupt_spec};
use crate::mos6502::memory::fresh_memory;

verus! {

/// The keyboard: ten rows of eight keys, a key down reading as a 0 bit.
pub struct KeyboardMatrix {
    pub rows: [u8; 10],
    pub selected_row: u8,
}

impl KeyboardMatrix {
    /// No key down, row 0 selected.
    pub fn new() -> (r: Self)
        ensures
            r.rows@ == Seq::new(10, |i: int| 0xFFu8),
            r.selected_row == 0,
    {
        let r = KeyboardMatrix { rows: [0xFF; 10], selected_row: 0 };
        assert(r.rows@ =~= Seq::new(10, |i: int| 0xFFu8));
        r
    }

    /// Puts key (row, col) down (ignored outside the matrix).
    pub fn press(&mut self, row: usize, col: usize)
        ensures
            final(self).selected_row == old(self).selected_row,
            row < 10 && col < 8 ==> final(self).rows@ == old(self).rows@.update(
                row as int,
                old(self).rows@[row as int] & !(1u8 << (col as u8)),
            ),
            !(row < 10 && col < 8) ==> final(self).rows@ == old(self).rows@,
    {
        if row < 10 && col < 8 {
            self.rows[row] = self.rows[row] & !(1u8 << (col as u8));
        }
    }

    /// Lets key (row, col) up (ignored outside the matrix).
    pub fn release(&mut self, row: usize, col: usize)
        ensures
            final(self).selected_row == old(self).selected_row,
            row < 10 && col < 8 ==> final(self).rows@ == old(self).rows@.update(
                row as int,
                old(self).rows@[row as int] | (1u8 << (col as u8)),
            ),
            !(row < 10 && col < 8) ==> final(self).rows@ == old(self).rows@,
    {
        if row < 10 && col < 8 {
            self.rows[row] = self.rows[row] | (1u8 << (col as u8));
        }
    }

    /// The keys of the selected row (0xFF for a row past the matrix).
    pub fn column_data(&self) -> (r: u8)
        ensures
            r == column_data_spec(self.rows@, self.selected_row),
    {
        if (self.selected_row as usize) < 10 {
            self.rows[self.selected_row as usize]
        } else {
            0xFF
        }
    }
}

/// The keys of row `row`, or 0xFF past the matrix.
pub open spec fn column_data_spec(rows: Seq<u8>, row: u8) -> u8 {
    if row < 10 { rows[row as int] } else { 0xFF }
}

/// The bus of the PET.
pub struct PetBus {
    pub ram: Vec<u8>,
    pub basic_c000: Vec<u8>,
    pub basic_d000: Vec<u8>,
    pub editor: Vec<u8>,
    pub kernal: Vec<u8>,
    pub screen: Vec<u8>,
    pub kbd: KeyboardMatrix,
    pub pia1: Pia6821,
    pub pia2: Pia6821,
    pub via: Via6522,
    pub tick_counter: u64,
}

/// The bus as plain values.
pub struct PetBusView {
    pub ram: Seq<u8>,
    pub basic_c000: Seq<u8>,
    pub basic_d000: Seq<u8>,
    pub editor: Seq<u8>,
    pub kernal: Seq<u8>,
    pub screen: Seq<u8>,
    pub rows: Seq<u8>,
    pub selected_row: u8,
    pub pia1: Pia6821,
    pub pia2: Pia6821,
    pub via: Via6522,
    pub tick_counter: u64,
}

impl View for PetBus {
    type V = PetBusView;

    open spec fn view(&self) -> PetBusView {
        PetBusView {
            ram: self.ram@,
            basic_c000: self.basic_c000@,
            basic_d000: self.basic_d000@,
            editor: self.editor@,
            kernal: self.kernal@,
            screen: self.screen@,
            rows: self.kbd.rows@,
            selected_row: self.kbd.selected_row,
            pia1: self.pia1,
            pia2: self.pia2,
            via: self.via,
            tick_counter: self.tick_counter,
        }
    }
}

/// A 4 KiB ROM with `data` at its start and zeros after it.
pub open spec fn rom_4k(data: Seq<u8>) -> Seq<u8> {
    Seq::new(0x1000, |i: int| if i < data.len() { data[i] } else { 0u8 })
}

fn rom_copy(data: &[u8]) -> (r: Vec<u8>)
    requires
        data@.len() <= 0x1000,
    ensures
        r@ == rom_4k(data@),
{
    let mut r = vec![0u8; 0x1000];
    let mut i: usize = 0;
    while i < data.len()
        invariant
            i <= data@.len() <= 0x1000,
            r@.len() == 0x1000,
            forall|k: int| 0 <= k < 0x1000 ==> #[trigger] r@[k] == if k < i { data@[k] } else { 0u8 },
        decreases data.len() - i,
    {
        r.set(i, data[i]);
        i = i + 1;
    }
    assert(r@ =~= rom_4k(data@));
    r
}

/// An I/O read (0xE800-0xEFFF): PIA 1 with the pins of port B from the
/// keyboard row, PIA 2 with idle pins, the VIA, or 0.
pub open spec fn io_read_spec(s: PetBusView, addr: u16) -> (u8, PetBusView) {
    if 0xE810 <= addr <= 0xE813 {
        let reg = addr & 3;
        let p = s.pia1;
        let v = if reg == 0 {
            port_value(p.ora, p.ddra, 0xFF)
        } else if reg == 1 {
            p.cra
        } else if reg == 2 {
            port_value(p.orb, p.ddrb, column_data_spec(s.rows, s.selected_row))
        } else {
            p.crb
        };
        (v, s)
    } else if 0xE820 <= addr <= 0xE823 {
        let reg = addr & 3;
        let p = s.pia2;
        let v = if reg == 0 {
            port_value(p.ora, p.ddra, 0)
        } else if reg == 1 {
            p.cra
        } else if reg == 2 {
            port_value(p.orb, p.ddrb, 0)
        } else {
            p.crb
        };
        (v, s)
    } else if 0xE840 <= addr <= 0xE84F {
        let (v, via) = via_read(s.via, addr);
        (v, PetBusView { via, ..s })
    } else {
        (0, s)
    }
}

/// A PIA register written (address modulo 4).
pub open spec fn pia_written(p: Pia6821, addr: u16, val: u8) -> Pia6821 {
    let reg = addr & 3;
    if reg == 0 {
        Pia6821 { ora: val, ..p }
    } else if reg == 1 {
        Pia6821 { cra: val, ..p }
    } else if reg == 2 {
        Pia6821 { orb: val, ..p }
    } else {
        Pia6821 { crb: val, ..p }
    }
}

/// An I/O write: a PIA 1 write also selects the keyboard row from bits
/// 0-3 of its port A output.
pub open spec fn io_write_spec(s: PetBusView, addr: u16, val: u8) -> PetBusView {
    if 0xE810 <= addr <= 0xE813 {
        let p = pia_written(s.pia1, addr, val);
        PetBusView { pia1: p, selected_row: (p.ora & p.ddra) & 0x0F, ..s }
    } else if 0xE820 <= addr <= 0xE823 {
        PetBusView { pia2: pia_written(s.pia2, addr, val), ..s }
    } else if 0xE840 <= addr <= 0xE84F {
        PetBusView { via: via_write(s.via, addr, val), ..s }
    } else {
        s
    }
}

impl PetBus {
    /// A bus with the ROM images (each at the start of 4 KiB, zeros after),
    /// zeroed RAM, a blank screen (spaces), no key down, and fresh PIAs and VIA.
    pub fn new(basic_c000: &[u8], basic_d000: &[u8], editor: &[u8], kernal: &[u8]) -> (r: Self)
        requires
            basic_c000@.len() <= 0x1000,
            basic_d000@.len() <= 0x1000,
            editor@.len() <= 0x1000,
            kernal@.len() <= 0x1000,
        ensures
            r@.ram == Seq::new(0x8000, |i: int| 0u8),
            r@.basic_c000 == rom_4k(basic_c000@),
            r@.basic_d000 == rom_4k(basic_d000@),
            r@.editor == rom_4k(editor@),
            r@.kernal == rom_4k(kernal@),
            r@.screen == Seq::new(1000, |i: int| 0x20u8),
            r@.rows == Seq::new(10, |i: int| 0xFFu8),
            r@.selected_row == 0,
            r@.pia1 == Pia6821::new_spec(),
            r@.pia2 == Pia6821::new_spec(),
            r@.via == Via6522::new_spec(),
            r@.tick_counter == 0,
    {
        PetBus {
            ram: vec![0u8; 0x8000],
            basic_c000: rom_copy(basic_c000),
            basic_d000: rom_copy(basic_d000),
            editor: rom_copy(editor),
            kernal: rom_copy(kernal),
            screen: vec![0x20u8; 1000],
            kbd: KeyboardMatrix::new(),
            pia1: Pia6821::new(),
            pia2: Pia6821::new(),
            via: Via6522::new(),
            tick_counter: 0,
        }
    }

    fn io_read(&mut self, addr: u16) -> (r: u8)
        ensures
            (r, final(self)@) == io_read_spec(old(self)@, addr),
    {
        proof {
            crate::bits::lemma_low_bits(addr);
        }
        if 0xE810 <= addr && addr <= 0xE813 {
            self.pia1.read(addr, 0xFF, self.kbd.column_data())
        } else if 0xE820 <= addr && addr <= 0xE823 {
            self.pia2.read(addr, 0, 0)
        } else if 0xE840 <= addr && addr <= 0xE84F {
            self.via.read(addr)
        } else {
            0
        }
    }

    fn io_write(&mut self, addr: u16, val: u8)
        ensures
            final(self)@ == io_write_spec(old(self)@, addr, val),
    {
        proof {
            crate::bits::lemma_low_bits(addr);
        }
        if 0xE810 <= addr && addr <= 0xE813 {
            self.pia1.write(addr, val);
            self.kbd.selected_row = self.pia1.output_a() & 0x0F;
        } else if 0xE820 <= addr && addr <= 0xE823 {
            self.pia2.write(addr, val);
        } else if 0xE840 <= addr && addr <= 0xE84F {
            self.via.write(addr, val);
        }
    }
}

impl Bus for PetBus {
    /// Every memory area has its full size.
    open spec fn inv(s: PetBusView) -> bool {
        &&& s.ram.len() == 0x8000
        &&& s.basic_c000.len() == 0x1000
        &&& s.basic_d000.len() == 0x1000
        &&& s.editor.len() == 0x1000
        &&& s.kernal.len() == 0x1000
        &&& s.screen.len() == 1000
        &&& s.rows.len() == 10
    }

    open spec fn peek(s: PetBusView, addr: u16) -> u8 {
        if addr <= 0x7FFF {
            s.ram[addr as int]
        } else if addr <= 0x83E7 {
            s.screen[addr - 0x8000]
        } else if addr <= 0xBFFF {
            0
        } else if addr <= 0xCFFF {
            s.basic_c000[addr - 0xC000]
        } else if addr <= 0xDFFF {
            s.basic_d000[addr - 0xD000]
        } else if addr <= 0xE7FF {
            s.editor[addr - 0xE000]
        } else if addr <= 0xEFFF {
            io_read_spec(s, addr).0
        } else {
            s.kernal[addr - 0xF000]
        }
    }

    open spec fn after_read(s: PetBusView, addr: u16) -> PetBusView {
        if 0xE800 <= addr <= 0xEFFF {
            io_read_spec(s, addr).1
        } else {
            s
        }
    }

    /// RAM and screen take writes, I/O registers act on them, ROM ignores them.
    open spec fn after_write(s: PetBusView, addr: u16, value: u8) -> PetBusView {
        if addr <= 0x7FFF {
            PetBusView { ram: s.ram.update(addr as int, value), ..s }
        } else if addr <= 0x83E7 {
            PetBusView { screen: s.screen.update(addr - 0x8000, value), ..s }
        } else if 0xE800 <= addr <= 0xEFFF {
            io_write_spec(s, addr, value)
        } else {
            s
        }
    }

    proof fn lemma_inv(s: PetBusView, addr: u16, value: u8) {
        let w = <PetBus as Bus>::after_write(s, addr, value);
        if 0xE800 <= addr <= 0xEFFF && addr > 0x83E7 {
            assert(w == io_write_spec(s, addr, value));
        }
        let r = <PetBus as Bus>::after_read(s, addr);
        if 0xE800 <= addr <= 0xEFFF {
            assert(r == io_read_spec(s, addr).1);
        }
    }

    fn read(&mut self, addr: u16) -> (r: u8) {
        if addr <= 0x7FFF {
            self.ram[addr as usize]
        } else if addr <= 0x83E7 {
            self.screen[(addr - 0x8000) as usize]
        } else if addr <= 0xBFFF {
            0
        } else if addr <= 0xCFFF {
            self.basic_c000[(addr - 0xC000) as usize]
        } else if addr <= 0xDFFF {
            self.basic_d000[(addr - 0xD000) as usize]
        } else if addr <= 0xE7FF {
            self.editor[(addr - 0xE000) as usize]
        } else if addr <= 0xEFFF {
            self.io_read(addr)
        } else {
            self.kernal[(addr - 0xF000) as usize]
        }
    }

    fn write(&mut self, addr: u16, val: u8) {
        if addr <= 0x7FFF {
            self.ram.set(addr as usize, val);
        } else if addr <= 0x83E7 {
            self.screen.set((addr - 0x8000) as usize, val);
        } else if 0xE800 <= addr && addr <= 0xEFFF {
            self.io_write(addr, val);
        }
    }
}

/// Glyphs of the characters 0x20 (space) to 0x40 (@), eight rows each.
pub const SYMBOL_GLYPHS: [u8; 264] = [
    0x00, 0x00, 0x00, 0x00, 0x00, 0x00, 0x00, 0x00,
    0x18, 0x18, 0x18, 0x18, 0x18, 0x00, 0x18, 0x00,
    0x66, 0x66, 0x66, 0x00, 0x00, 0x00, 0x00, 0x00,
    0x24, 0x24, 0x7E, 0x24, 0x7E, 0x24, 0x24, 0x00,
    0x08, 0x3E, 0x48, 0x3C, 0x0A, 0x7C, 0x08, 0x00,
    0x62, 0x64, 0x08, 0x10, 0x26, 0x46, 0x00, 0x00,
    0x38, 0x44, 0x4C, 0x38, 0x4A, 0x44, 0x3A, 0x00,
    0x18, 0x18, 0x30, 0x00, 0x00, 0x00, 0x00, 0x00,
    0x0C, 0x18, 0x30, 0x30, 0x30, 0x18, 0x0C, 0x00,
    0x30, 0x18, 0x0C, 0x0C, 0x0C, 0x18, 0x30, 0x00,
    0x00, 0x18, 0x7E, 0x18, 0x7E, 0x18, 0x00, 0x00,
    0x00, 0x18, 0x18, 0x7E, 0x18, 0x18, 0x00, 0x00,
    0x00, 0x00, 0x00, 0x00, 0x18, 0x18, 0x30, 0x00,
    0x00, 0x00, 0x00, 0x7E, 0x00, 0x00, 0x00, 0x00,
    0x00, 0x00, 0x00, 0x00, 0x18, 0x18, 0x00, 0x00,
    0x02, 0x06, 0x0C, 0x18, 0x30, 0x60, 0x40, 0x00,
    0x3C, 0x66, 0x6E, 0x7E, 0x76, 0x66, 0x3C, 0x00,
    0x18, 0x38, 0x18, 0x18, 0x18, 0x18, 0x7E, 0x00,
    0x3C, 0x66, 0x06, 0x0C, 0x30, 0x60, 0x7E, 0x00,
    0x3C, 0x66, 0x06, 0x1C, 0x06, 0x66, 0x3C, 0x00,
    0x0C, 0x1C, 0x3C, 0x6C, 0x7E, 0x0C, 0x0C, 0x00,
    0x7E, 0x60, 0x7C, 0x06, 0x06, 0x66, 0x3C, 0x00,
    0x3C, 0x66, 0x60, 0x7C, 0x66, 0x66, 0x3C, 0x00,
    0x7E, 0x06, 0x0C, 0x18, 0x30, 0x30, 0x30, 0x00,
    0x3C, 0x66, 0x66, 0x3C, 0x66, 0x66, 0x3C, 0x00,
    0x3C, 0x66, 0x66, 0x3E, 0x06, 0x66, 0x3C, 0x00,
    0x00, 0x18, 0x18, 0x00, 0x18, 0x18, 0x00, 0x00,
    0x00, 0x18, 0x18, 0x00, 0x18, 0x18, 0x30, 0x00,
    0x06, 0x0C, 0x18, 0x30, 0x18, 0x0C, 0x06, 0x00,
    0x00, 0x00, 0x7E, 0x00, 0x7E, 0x00, 0x00, 0x00,
    0x60, 0x30, 0x18, 0x0C, 0x18, 0x30, 0x60, 0x00,
    0x3C, 0x66, 0x06, 0x0C, 0x18, 0x00, 0x18, 0x00,
    0x3C, 0x66, 0x6E, 0x6E, 0x60, 0x66, 0x3C, 0x00,
];

/// Glyphs of the characters 0x5B to 0x5F.
pub const BRACKET_GLYPHS: [u8; 40] = [
    0x7E, 0x60, 0x60, 0x60, 0x60, 0x60, 0x7E, 0x00,
    0x40, 0x60, 0x30, 0x18, 0x0C, 0x06, 0x02, 0x00,
    0x7E, 0x06, 0x06, 0x06, 0x06, 0x06, 0x7E, 0x00,
    0x18, 0x3C, 0x66, 0x42, 0x00, 0x00, 0x00, 0x00,
    0x00, 0x00, 0x00, 0x00, 0x00, 0x00, 0x00, 0xFF,
];

/// Glyphs of the letters A to Z.
pub const LETTER_GLYPHS: [u8; 208] = [
    0x3C, 0x66, 0x66, 0x7E, 0x66, 0x66, 0x66, 0x00,
    0x7C, 0x66, 0x66, 0x7C, 0x66, 0x66, 0x7C, 0x00,
    0x3C, 0x66, 0x60, 0x60, 0x60, 0x66, 0x3C, 0x00,
    0x7C, 0x66, 0x66, 0x66, 0x66, 0x66, 0x7C, 0x00,
    0x7E, 0x60, 0x60, 0x7C, 0x60, 0x60, 0x7E, 0x00,
    0x7E, 0x60, 0x60, 0x7C, 0x60, 0x60, 0x60, 0x00,
    0x3C, 0x66, 0x60, 0x6E, 0x66, 0x66, 0x3C, 0x00,
    0x66, 0x66, 0x66, 0x7E, 0x66, 0x66, 0x66, 0x00,
    0x7E, 0x18, 0x18, 0x18, 0x18, 0x18, 0x7E, 0x00,
    0x1E, 0x06, 0x06, 0x06, 0x06, 0x66, 0x3C, 0x00,
    0x66, 0x6C, 0x78, 0x70, 0x78, 0x6C, 0x66, 0x00,
    0x60, 0x60, 0x60, 0x60, 0x60, 0x60, 0x7E, 0x00,
    0x63, 0x77, 0x7F, 0x6B, 0x63, 0x63, 0x63, 0x00,
    0x66, 0x76, 0x7E, 0x6E, 0x66, 0x66, 0x66, 0x00,
    0x3C, 0x66, 0x66, 0x66, 0x66, 0x66, 0x3C, 0x00,
    0x7C, 0x66, 0x66, 0x7C, 0x60, 0x60, 0x60, 0x00,
    0x3C, 0x66, 0x66, 0x66, 0x6E, 0x3C, 0x06, 0x00,
    0x7C, 0x66, 0x66, 0x7C, 0x78, 0x6C, 0x66, 0x00,
    0x3C, 0x66, 0x60, 0x3C, 0x06, 0x66, 0x3C, 0x00,
    0x7E, 0x18, 0x18, 0x18, 0x18, 0x18, 0x18, 0x00,
    0x66, 0x66, 0x66, 0x66, 0x66, 0x66, 0x3C, 0x00,
    0x66, 0x66, 0x66, 0x66, 0x66, 0x3C, 0x18, 0x00,
    0x63, 0x63, 0x63, 0x6B, 0x7F, 0x77, 0x63, 0x00,
    0x66, 0x66, 0x3C, 0x18, 0x3C, 0x66, 0x66, 0x00,
    0x66, 0x66, 0x66, 0x3C, 0x18, 0x18, 0x18, 0x00,
    0x7E, 0x06, 0x0C, 0x18, 0x30, 0x60, 0x7E, 0x00,
];

/// Byte `k` of the character generator: character `k / 8` (the upper 128
/// repeating the lower), row `k % 8`. Letters stand at 0x01-0x1A, 0x41-0x5A
/// and 0x61-0x7A; punctuation and digits at 0x20-0x40 and 0x5B-0x5F; every
/// other character is blank.
pub open spec fn chargen_byte(k: int) -> u8 {
    let c = (k / 8) % 128;
    let row = k % 8;
    if 0x20 <= c <= 0x40 {
        SYMBOL_GLYPHS@[(c - 0x20) * 8 + row]
    } else if 0x5B <= c <= 0x5F {
        BRACKET_GLYPHS@[(c - 0x5B) * 8 + row]
    } else if 1 <= c <= 26 {
        LETTER_GLYPHS@[(c - 1) * 8 + row]
    } else if 0x41 <= c <= 0x5A {
        LETTER_GLYPHS@[(c - 0x41) * 8 + row]
    } else if 0x61 <= c <= 0x7A {
        LETTER_GLYPHS@[(c - 0x61) * 8 + row]
    } else {
        0
    }
}

fn copy_block(data: &mut Vec<u8>, start: usize, src: &[u8])
    requires
        start + src@.len() <= old(data)@.len(),
    ensures
        final(data)@.len() == old(data)@.len(),
        forall|k: int| 0 <= k < old(data)@.len() ==> #[trigger] final(data)@[k] == if start <= k < start + src@.len() {
            src@[k - start]
        } else {
            old(data)@[k]
        },
{
    let n = data.len();
    let mut i: usize = 0;
    while i < src.len()
        invariant
            i <= src@.len(),
            n == data@.len(),
            start + src@.len() <= data@.len(),
            data@.len() == old(data)@.len(),
            forall|k: int| 0 <= k < data@.len() ==> #[trigger] data@[k] == if start <= k < start + i {
                src@[k - start]
            } else {
                old(data)@[k]
            },
        decreases src.len() - i,
    {
        data.set(start + i, src[i]);
        i = i + 1;
    }
}

/// The lower 1 KiB of the character generator, by byte offset: the glyph
/// blocks copied in at their characters' offsets, zero elsewhere.
spec fn lower_image(k: int) -> u8 {
    if 0x100 <= k < 0x208 {
        SYMBOL_GLYPHS@[k - 0x100]
    } else if 0x2D8 <= k < 0x300 {
        BRACKET_GLYPHS@[k - 0x2D8]
    } else if 0x008 <= k < 0x0D8 {
        LETTER_GLYPHS@[k - 0x008]
    } else if 0x208 <= k < 0x2D8 {
        LETTER_GLYPHS@[k - 0x208]
    } else if 0x308 <= k < 0x3D8 {
        LETTER_GLYPHS@[k - 0x308]
    } else {
        0
    }
}

proof fn lemma_lower_image(k: int)
    requires
        0 <= k < 1024,
    ensures
        lower_image(k) == chargen_byte(k),
{
    let c = k / 8;
    let row = k % 8;
    assert(k == 8 * c + row && 0 <= row < 8) by (nonlinear_arith)
        requires
            c == k / 8,
            row == k % 8,
            0 <= k,
    ;
    assert(c % 128 == c);
}

/// The 2 KiB character generator of the screen: 256 characters of eight
/// rows (see `chargen_byte`).
pub fn build_chargen() -> (r: Vec<u8>)
    ensures
        r@.len() == 2048,
        forall|k: int| 0 <= k < 2048 ==> #[trigger] r@[k] == chargen_byte(k),
{
    let mut data = vec![0u8; 2048];
    let symbols = SYMBOL_GLYPHS;
    let brackets = BRACKET_GLYPHS;
    let letters = LETTER_GLYPHS;
    copy_block(&mut data, 0x20 * 8, &symbols);
    copy_block(&mut data, 0x5B * 8, &brackets);
    copy_block(&mut data, 0x01 * 8, &letters);
    copy_block(&mut data, 0x41 * 8, &letters);
    copy_block(&mut data, 0x61 * 8, &letters);
    assert forall|k: int| 0 <= k < 2048 implies #[trigger] data@[k] == if k < 1024 { lower_image(k) } else { 0u8 } by {
    }
    let mut i: usize = 0;
    while i < 8
        invariant
            i <= 8,
            data@.len() == 2048,
            forall|k: int| 0 <= k < 2048 ==> #[trigger] data@[k] == if k < 1024 { lower_image(k) } else { 0u8 },
        decreases 8 - i,
    {
        data.set(0x7F * 8 + i, 0);
        i = i + 1;
    }
    assert forall|k: int| 0 <= k < 1024 implies #[trigger] data@[k] == chargen_byte(k) by {
        lemma_lower_image(k);
    }
    mirror_upper_half(&mut data);
    data
}

/// The upper 128 characters repeat the lower 128.
proof fn lemma_chargen_repeats(k: int)
    requires
        1024 <= k < 2048,
    ensures
        chargen_byte(k) == chargen_byte(k - 1024),
{
    let q = (k - 1024) / 8;
    let r = (k - 1024) % 8;
    assert(k / 8 == q + 128 && k % 8 == r && (q + 128) % 128 == q % 128) by (nonlinear_arith)
        requires
            1024 <= k,
            q == (k - 1024) / 8,
            r == (k - 1024) % 8,
    ;
}

/// The upper 1 KiB made a copy of the lower.
fn mirror_upper_half(data: &mut Vec<u8>)
    requires
        old(data)@.len() == 2048,
        forall|k: int| 0 <= k < 1024 ==> #[trigger] old(data)@[k] == chargen_byte(k),
        forall|k: int| 1024 <= k < 2048 ==> #[trigger] old(data)@[k] == 0,
    ensures
        final(data)@.len() == 2048,
        forall|k: int| 0 <= k < 2048 ==> #[trigger] final(data)@[k] == chargen_byte(k),
{
    let mut k: usize = 0x400;
    while k < 0x800
        invariant
            0x400 <= k <= 0x800,
            data@.len() == 2048,
            forall|j: int| 0 <= j < k ==> #[trigger] data@[j] == chargen_byte(j),
            forall|j: int| k <= j < 2048 ==> #[trigger] data@[j] == 0,
        decreases 0x800 - k,
    {
        let v = data[k - 0x400];
        data.set(k, v);
        proof {
            lemma_chargen_repeats(k as int);
        }
        k = k + 1;
    }
}

/// One instruction's worth of time on the bus, `vb` instructions after the
/// last vertical blank: the VIA timers run a cycle, and every 16666
/// instructions a vertical blank pulses CB1. Gives the bus and the new count.
pub open spec fn vblank_step(b: PetBusView, vb: u32) -> (PetBusView, u32) {
    let via1 = cycles(b.via, b.via.acr & 0x80 != 0, 1);
    if vb + 1 >= 16666 {
        (PetBusView { via: cb1_input(cb1_input(via1, true), false), ..b }, 0)
    } else {
        (PetBusView { via: via1, ..b }, (vb + 1) as u32)
    }
}

/// The sixtieth-of-a-second housekeeping done in RAM: the jiffy clock at
/// 0x99 advanced, the cursor enabled (0x9E), the blink timer at 0xA8
/// counted down (at zero reloaded with 20 and the blink flag at 0xAA
/// toggled), and the cursor counter at 0x8F advanced modulo 20.
pub open spec fn jiffy_ram(ram: Seq<u8>) -> Seq<u8> {
    let r1 = ram.update(0x99, ram[0x99].wrapping_add(1)).update(0x9E, 1);
    let a8 = r1[0xA8];
    let r2 = if a8 == 0 { r1.update(0xA8, 20).update(0xAA, r1[0xAA] ^ 1) } else { r1.update(0xA8, (a8 - 1) as u8) };
    let c = r2[0x8F].wrapping_add(1);
    r2.update(0x8F, if c >= 20 { 0 } else { c })
}

/// One step of `run` after `n` instructions: the bus time, one
/// instruction, the housekeeping every 5555 instructions, and a pending
/// VIA interrupt delivered unless masked. Gives the CPU, the cycle count,
/// the bus and whether the run goes on (the instruction took cycles).
pub open spec fn pet_step(c: CpuView, total: u64, b: PetBusView, vb: u32, n: u32, irq_vector: u16) -> (CpuView, u64, PetBusView, u32, bool) {
    let (b1, vb1) = vblank_step(b, vb);
    let (c2, b2, cy) = tick_spec::<PetBus>(c, b1);
    let t2 = (total + cy) as u64;
    if cy == 0 {
        (c2, t2, b2, vb1, false)
    } else {
        let (c4, t4, b4) = pet_after_instruction(c2, t2, b2, n, irq_vector);
        (c4, t4, b4, vb1, true)
    }
}

/// What follows an instruction that took cycles, `n` instructions into a
/// run: the housekeeping every 5555 instructions, then a pending VIA
/// interrupt delivered unless masked.
pub open spec fn pet_after_instruction(c: CpuView, total: u64, b: PetBusView, n: u32, irq_vector: u16) -> (CpuView, u64, PetBusView) {
    let b1 = if n > 0 && n % 5555 == 0 { PetBusView { ram: jiffy_ram(b.ram), ..b } } else { b };
    if b1.via.irq && !flag(c.sr, FLAG_I) {
        let (c2, b2) = interrupt_spec::<PetBus>(c, b1, c.pc.wrapping_add(1), false, irq_vector);
        (c2, (total + 7) as u64, PetBusView { via: Via6522 { irq: false, ..b2.via }, ..b2 })
    } else {
        (c, total, b1)
    }
}

/// `k` more steps of `run`, `n` instructions having been run: the CPU, the
/// cycle count, the bus and the instructions run.
pub open spec fn pet_run(c: CpuView, total: u64, b: PetBusView, vb: u32, n: u32, k: nat, irq_vector: u16) -> (CpuView, u64, PetBusView, u32, u32)
    decreases k,
{
    if k == 0 {
        (c, total, b, vb, n)
    } else {
        let (c1, t1, b1, vb1, go) = pet_step(c, total, b, vb, n, irq_vector);
        if !go { (c1, t1, b1, vb1, n) } else { pet_run(c1, t1, b1, vb1, (n + 1) as u32, (k - 1) as nat, irq_vector) }
    }
}

/// A PET 2001.
pub struct Pet2001 {
    pub cpu: Emulator,
    pub bus: PetBus,
    /// Instructions since the last vertical blank.
    pub vb_counter: u32,
    pub roms_loaded: bool,
    pub chargen: Vec<u8>,
}

impl Pet2001 {
    /// The bus can be used and the vertical-blank counter is below its period.
    pub open spec fn wf(&self) -> bool {
        PetBus::inv(self.bus@) && self.vb_counter < 16666
    }

    /// A machine with empty ROMs that does not run until ROMs are loaded.
    pub fn new() -> (r: Self)
        ensures
            !r.roms_loaded,
            r.wf(),
            r.chargen@.len() == 2048,
            forall|k: int| 0 <= k < 2048 ==> #[trigger] r.chargen@[k] == chargen_byte(k),
    {
        let empty: [u8; 0] = [];
        Pet2001 {
            cpu: Emulator::new(),
            bus: PetBus::new(&empty, &empty, &empty, &empty),
            vb_counter: 0,
            roms_loaded: false,
            chargen: build_chargen(),
        }
    }

    /// Loads the four ROMs and starts the machine: a fresh bus and CPU, SP
    /// at 0xFF, PC from the kernal's reset vector, the kernal's IRQ vector
    /// copied into the CPU's own memory, and PIA 1's port A bits 0-3 (the
    /// keyboard row select) made outputs.
    pub fn load_roms(&mut self, basic_c000: &[u8], basic_d000: &[u8], editor: &[u8], kernal: &[u8])
        requires
            basic_c000@.len() <= 0x1000,
            basic_d000@.len() <= 0x1000,
            editor@.len() <= 0x1000,
            kernal@.len() <= 0x1000,
        ensures
            final(self).roms_loaded,
            final(self).wf(),
            final(self).vb_counter == 0,
            final(self).bus@ == (PetBusView {
                pia1: Pia6821 { ddra: 0x0F, ..Pia6821::new_spec() },
                ..final(self).bus@
            }),
            final(self).bus@.kernal == rom_4k(kernal@),
            final(self).bus@.basic_c000 == rom_4k(basic_c000@),
            final(self).bus@.basic_d000 == rom_4k(basic_d000@),
            final(self).bus@.editor == rom_4k(editor@),
            final(self).bus@.ram == Seq::new(0x8000, |i: int| 0u8),
            final(self).cpu.cpu@ == (CpuView {
                sp: 0xFF,
                pc: word_spec(rom_4k(kernal@)[0xFFC], rom_4k(kernal@)[0xFFD]),
                ..power_on(final(self).cpu.config)
            }),
            final(self).cpu.memory@ == fresh_memory(final(self).cpu.config).write(0xFFFE, rom_4k(kernal@)[0xFFE]).write(
                0xFFFF,
                rom_4k(kernal@)[0xFFF],
            ),
            final(self).cpu.total_cycles == 0,
            final(self).cpu.wf(),
            final(self).chargen == old(self).chargen,
    {
        self.bus = PetBus::new(basic_c000, basic_d000, editor, kernal);
        self.vb_counter = 0;
        self.cpu = Emulator::new();
        self.cpu.set_register_sp(0xFF);
        let rv = word(self.bus.kernal[0xFFC], self.bus.kernal[0xFFD]);
        self.cpu.set_register_pc(rv);
        let lo = self.bus.kernal[0xFFE];
        let hi = self.bus.kernal[0xFFF];
        self.cpu.set_memory(0xFFFE, lo);
        self.cpu.set_memory(0xFFFF, hi);
        self.bus.pia1.ddra = 0x0F;
        self.roms_loaded = true;
    }

    fn housekeeping(&mut self)
        requires
            PetBus::inv(old(self).bus@),
        ensures
            final(self).bus@ == (PetBusView { ram: jiffy_ram(old(self).bus@.ram), ..old(self).bus@ }),
            final(self).cpu == old(self).cpu,
            final(self).vb_counter == old(self).vb_counter,
            final(self).roms_loaded == old(self).roms_loaded,
            final(self).chargen == old(self).chargen,
    {
        let j = self.bus.ram[0x99].wrapping_add(1);
        self.bus.ram.set(0x99, j);
        self.bus.ram.set(0x9E, 1);
        let a8 = self.bus.ram[0xA8];
        if a8 == 0 {
            self.bus.ram.set(0xA8, 20);
            let b = self.bus.ram[0xAA] ^ 1;
            self.bus.ram.set(0xAA, b);
        } else {
            self.bus.ram.set(0xA8, a8 - 1);
        }
        let cc = self.bus.ram[0x8F].wrapping_add(1);
        self.bus.ram.set(0x8F, cc);
        if self.bus.ram[0x8F] >= 20 {
            self.bus.ram.set(0x8F, 0);
        }
        assert(self.bus@.ram =~= jiffy_ram(old(self).bus@.ram));
    }

    fn bus_time(&mut self)
        requires
            old(self).wf(),
        ensures
            (final(self).bus@, final(self).vb_counter) == vblank_step(old(self).bus@, old(self).vb_counter),
            final(self).cpu == old(self).cpu,
            final(self).roms_loaded == old(self).roms_loaded,
            final(self).chargen == old(self).chargen,
            final(self).wf(),
    {
        self.bus.via.tick(1);
        self.vb_counter = self.vb_counter + 1;
        if self.vb_counter >= 16666 {
            self.vb_counter = 0;
            self.bus.via.trigger_cb1();
        }
    }

    fn step(&mut self, n: u32) -> (go: bool)
        requires
            old(self).wf(),
            old(self).cpu.counters_room(2, 262),
        ensures
            ({
                let (c, t, b, vb, g) = pet_step(
                    old(self).cpu.cpu@,
                    old(self).cpu.total_cycles,
                    old(self).bus@,
                    old(self).vb_counter,
                    n,
                    old(self).cpu.config.irq_vector,
                );
                &&& final(self).cpu.cpu@ == c
                &&& final(self).cpu.total_cycles == t
                &&& final(self).bus@ == b
                &&& final(self).vb_counter == vb
                &&& go == g
            }),
            final(self).cpu.cpu.instructions <= old(self).cpu.cpu.instructions + 2,
            final(self).cpu.total_cycles <= old(self).cpu.total_cycles + 262,
            final(self).cpu.memory == old(self).cpu.memory,
            final(self).cpu.config == old(self).cpu.config,
            final(self).roms_loaded == old(self).roms_loaded,
            final(self).chargen == old(self).chargen,
            final(self).wf(),
    {
        self.bus_time();
        let c = self.cpu.tick_bus(&mut self.bus);
        if c == 0 {
            return false;
        }
        self.after_instruction(n);
        true
    }

    /// The housekeeping and interrupt delivery that follow an instruction.
    fn after_instruction(&mut self, n: u32)
        requires
            old(self).wf(),
            old(self).cpu.counters_room(1, 7),
        ensures
            (final(self).cpu.cpu@, final(self).cpu.total_cycles, final(self).bus@) == pet_after_instruction(
                old(self).cpu.cpu@,
                old(self).cpu.total_cycles,
                old(self).bus@,
                n,
                old(self).cpu.config.irq_vector,
            ),
            final(self).cpu.cpu.instructions <= old(self).cpu.cpu.instructions + 1,
            final(self).cpu.total_cycles <= old(self).cpu.total_cycles + 7,
            final(self).cpu.memory == old(self).cpu.memory,
            final(self).cpu.config == old(self).cpu.config,
            final(self).vb_counter == old(self).vb_counter,
            final(self).roms_loaded == old(self).roms_loaded,
            final(self).chargen == old(self).chargen,
            final(self).wf(),
    {
        if n > 0 && n % 5555 == 0 {
            self.housekeeping();
        }
        if self.bus.via.irq {
            if self.cpu.trigger_irq_bus(&mut self.bus) {
                self.bus.via.irq = false;
            }
        }
    }

    /// Runs up to `count` instructions (nothing before ROMs are loaded),
    /// stopping at one that takes no cycles; returns how many ran.
    pub fn run(&mut self, count: u32) -> (r: u32)
        requires
            old(self).wf(),
            old(self).cpu.counters_room(2 * count as nat, 262 * count as nat),
        ensures
            !old(self).roms_loaded ==> r == 0 && *final(self) == *old(self),
            old(self).roms_loaded ==> ({
                let (c, t, b, vb, n) = pet_run(
                    old(self).cpu.cpu@,
                    old(self).cpu.total_cycles,
                    old(self).bus@,
                    old(self).vb_counter,
                    0,
                    count as nat,
                    old(self).cpu.config.irq_vector,
                );
                &&& final(self).cpu.cpu@ == c
                &&& final(self).cpu.total_cycles == t
                &&& final(self).bus@ == b
                &&& final(self).vb_counter == vb
                &&& r == n
            }),
            final(self).cpu.memory == old(self).cpu.memory,
            final(self).cpu.config == old(self).cpu.config,
            final(self).roms_loaded == old(self).roms_loaded,
            final(self).chargen == old(self).chargen,
            final(self).wf(),
    {
        if !self.roms_loaded {
            return 0;
        }
        let ghost c0 = self.cpu.cpu@;
        let ghost t0 = self.cpu.total_cycles;
        let ghost b0 = self.bus@;
        let ghost vb0 = self.vb_counter;
        let ghost i0 = self.cpu.cpu.instructions;
        let ghost irq_vector = self.cpu.config.irq_vector;
        let mut n: u32 = 0;
        let mut i: u32 = 0;
        while i < count
            invariant_except_break
                i <= count,
                n == i,
                pet_run(c0, t0, b0, vb0, 0, count as nat, irq_vector) == pet_run(
                    self.cpu.cpu@,
                    self.cpu.total_cycles,
                    self.bus@,
                    self.vb_counter,
                    n,
                    (count - i) as nat,
                    irq_vector,
                ),
                self.cpu.cpu.instructions <= i0 + 2 * i,
                t0 <= self.cpu.total_cycles <= t0 + 262 * i,
            invariant
                self.wf(),
                self.roms_loaded,
                irq_vector == self.cpu.config.irq_vector,
                self.cpu.memory == old(self).cpu.memory,
                self.cpu.config == old(self).cpu.config,
                self.chargen == old(self).chargen,
                i0 + 2 * count <= u64::MAX,
                t0 + 262 * count <= u64::MAX,
            ensures
                ({
                    let (c, t, b, vb, m) = pet_run(c0, t0, b0, vb0, 0, count as nat, irq_vector);
                    &&& self.cpu.cpu@ == c
                    &&& self.cpu.total_cycles == t
                    &&& self.bus@ == b
                    &&& self.vb_counter == vb
                    &&& n == m
                }),
            decreases count - i,
        {
            let go = self.step(n);
            if !go {
                break;
            }
            n = n + 1;
            i = i + 1;
        }
        n
    }

    /// Puts key (row, col) down.
    pub fn press_key(&mut self, row: u8, col: u8)
        ensures
            final(self).bus@ == (PetBusView {
                rows: if row < 10 && col < 8 {
                    old(self).bus@.rows.update(row as int, old(self).bus@.rows[row as int] & !(1u8 << col))
                } else {
                    old(self).bus@.rows
                },
                ..old(self).bus@
            }),
            final(self).cpu == old(self).cpu,
            final(self).roms_loaded == old(self).roms_loaded,
            final(self).chargen == old(self).chargen,
    {
        self.bus.kbd.press(row as usize, col as usize);
    }

    /// Lets key (row, col) up.
    pub fn release_key(&mut self, row: u8, col: u8)
        ensures
            final(self).bus@ == (PetBusView {
                rows: if row < 10 && col < 8 {
                    old(self).bus@.rows.update(row as int, old(self).bus@.rows[row as int] | (1u8 << col))
                } else {
                    old(self).bus@.rows
                },
                ..old(self).bus@
            }),
            final(self).cpu == old(self).cpu,
            final(self).roms_loaded == old(self).roms_loaded,
            final(self).chargen == old(self).chargen,
    {
        self.bus.kbd.release(row as usize, col as usize);
    }

    pub fn screen_len(&self) -> (r: usize)
        ensures
            r == self.bus@.screen.len(),
    {
        self.bus.screen.len()
    }

    pub fn ram_len(&self) -> (r: usize)
        ensures
            r == self.bus@.ram.len(),
    {
        self.bus.ram.len()
    }

    pub fn chargen_len(&self) -> (r: usize)
        ensures
            r == self.chargen@.len(),
    {
        self.chargen.len()
    }

    pub fn get_pc(&self) -> (r: u16)
        ensures
            r == self.cpu.cpu.pc,
    {
        self.cpu.get_register_pc()
    }

    pub fn get_instructions(&self) -> (r: u64)
        ensures
            r == self.cpu.cpu.instructions,
    {
        self.cpu.get_instruction_count()
    }

    pub fn get_cycles(&self) -> (r: u64)
        ensures
            r == self.cpu.total_cycles,
    {
        self.cpu.get_cycle_count()
    }
}

} // verus!
