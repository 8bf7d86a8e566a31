//! The KIM-1: 1 KiB of RAM, two 6530 RRIOT chips (each with ROM and two
//! ports), and a six-digit seven-segment LED display driven through the
//! ports of the 6530-002.

use vstd::prelude::*;
use crate::bus::{Bus, word, word_spec};
use crate::devices::display::{Display, DisplayView, lemma_pixel_index};
use crate::devices::keyboard::Keyboard;
use crate::devices::segment::{render, render_spec, fits};
use crate::mos6502::config::{MachineConfig, CpuFamily, nmos_quirks, preset};
use crate::mos6502::cpu::{CpuView, power_on};
use crate::mos6502::emulator::{Emulator, tick_spec};
use crate::machines::eater::padded;

verus! {

pub const RAM_SIZE: usize = 1024;
pub const RIOT_BASE_003: u16 = 0x1800;
pub const RIOT_BASE_002: u16 = 0x1C00;
pub const RIOT_IO_SIZE: u16 = 0x08;
pub const RIOT_ROM_OFFSET: u16 = 0x08;

/// The bus of the KIM-1.
pub struct Kim1Bus {
    pub ram: Vec<u8>,
    pub rom_002: Vec<u8>,
    pub rom_003: Vec<u8>,
    pub riot2_pa: u8,
    pub riot2_pb: u8,
    pub riot3_pa: u8,
    pub riot3_pb: u8,
    /// The segment pattern latched for each LED digit.
    pub led_segments: [u8; 6],
    pub display: Display,
    pub keypad: Keyboard,
}

/// The bus as plain values.
pub struct Kim1BusView {
    pub ram: Seq<u8>,
    pub rom_002: Seq<u8>,
    pub rom_003: Seq<u8>,
    pub riot2_pa: u8,
    pub riot2_pb: u8,
    pub riot3_pa: u8,
    pub riot3_pb: u8,
    pub led_segments: Seq<u8>,
    pub display: DisplayView,
    pub keys: Seq<bool>,
}

impl View for Kim1Bus {
    type V = Kim1BusView;

    open spec fn view(&self) -> Kim1BusView {
        Kim1BusView {
            ram: self.ram@,
            rom_002: self.rom_002@,
            rom_003: self.rom_003@,
            riot2_pa: self.riot2_pa,
            riot2_pb: self.riot2_pb,
            riot3_pa: self.riot3_pa,
            riot3_pb: self.riot3_pb,
            led_segments: self.led_segments@,
            display: self.display@,
            keys: self.keypad@,
        }
    }
}

/// A read of a RRIOT at `base`: its ports in the first eight bytes (port A,
/// port B, else 0), then its ROM (0xFF past the ROM's end) up to 0x400, else 0.
pub open spec fn riot_read_spec(s: Kim1BusView, base: u16, addr: u16) -> u8 {
    let offset = addr - base;
    if offset < 8 {
        let (pa, pb) = if base == RIOT_BASE_002 { (s.riot2_pa, s.riot2_pb) } else { (s.riot3_pa, s.riot3_pb) };
        if offset == 0 { pa } else if offset == 1 { pb } else { 0 }
    } else if offset < 0x400 {
        let rom = if base == RIOT_BASE_002 { s.rom_002 } else { s.rom_003 };
        let idx = offset - 8;
        if idx < rom.len() { rom[idx] } else { 0xFF }
    } else {
        0
    }
}

/// A write to a RRIOT at `base`: port A or port B; writing port B of the
/// 6530-002 latches port A into every digit whose select bit (0..5) is 0.
pub open spec fn riot_write_spec(s: Kim1BusView, base: u16, addr: u16, val: u8) -> Kim1BusView {
    let offset = addr - base;
    let riot2 = base == RIOT_BASE_002;
    if offset >= 8 {
        s
    } else if offset == 0 {
        if riot2 { Kim1BusView { riot2_pa: val, ..s } } else { Kim1BusView { riot3_pa: val, ..s } }
    } else if offset == 1 {
        if riot2 {
            Kim1BusView {
                riot2_pb: val,
                led_segments: Seq::new(6, |d: int| if val & (1u8 << (d as u8)) == 0 { s.riot2_pa } else { s.led_segments[d] }),
                ..s
            }
        } else {
            Kim1BusView { riot3_pb: val, ..s }
        }
    } else {
        s
    }
}

/// The 6502 address of a vector (0xFFFA..0xFFFF) mapped into the 6530-002.
pub open spec fn vector_source(addr: u16) -> u16 {
    (0x1FFA + (addr - 0xFFFA)) as u16
}

/// A digit of 13 x 13 pixels rendered from a segment pattern.
pub open spec fn digit_pixels(seg: u8) -> Seq<u8> {
    render_spec(seg, Seq::new(169, |k: int| 0u8), 13, 13, 13)
}

/// The lit pixels `0..m` of digit `i` set on the display (digit `i` at
/// column 13 * i; pixels off the display's width are skipped).
pub open spec fn draw_digit(d: DisplayView, i: int, px: Seq<u8>, m: nat) -> DisplayView
    decreases m,
{
    if m == 0 {
        d
    } else {
        let d1 = draw_digit(d, i, px, (m - 1) as nat);
        let j = m - 1;
        let x = i * 13 + j % 13;
        if px[j] != 0 && x < d.width {
            d1.set(x, j / 13, 1)
        } else {
            d1
        }
    }
}

/// The first `n` digits drawn (digits with no lit segment skipped).
pub open spec fn draw_digits(d: DisplayView, segs: Seq<u8>, n: nat) -> DisplayView
    decreases n,
{
    if n == 0 {
        d
    } else {
        let d1 = draw_digits(d, segs, (n - 1) as nat);
        let i = n - 1;
        if segs[i] == 0 { d1 } else { draw_digit(d1, i, digit_pixels(segs[i]), 169) }
    }
}

/// The display cleared.
pub open spec fn cleared(d: DisplayView) -> DisplayView {
    DisplayView { buffer: Seq::new(d.buffer.len(), |k: int| 0u8), ..d }
}

proof fn lemma_draw_digit_wf(d: DisplayView, i: int, px: Seq<u8>, m: nat)
    requires
        d.wf(),
    ensures
        draw_digit(d, i, px, m).wf(),
        draw_digit(d, i, px, m).width == d.width,
        draw_digit(d, i, px, m).height == d.height,
    decreases m,
{
    if m > 0 {
        lemma_draw_digit_wf(d, i, px, (m - 1) as nat);
        let d1 = draw_digit(d, i, px, (m - 1) as nat);
        let j = m - 1;
        let x = i * 13 + j % 13;
        if d1.on_grid(x, j / 13) {
            lemma_pixel_index(d1.width, d1.height, x, j / 13);
        }
    }
}

proof fn lemma_draw_digits_wf(d: DisplayView, segs: Seq<u8>, n: nat)
    requires
        d.wf(),
    ensures
        draw_digits(d, segs, n).wf(),
        draw_digits(d, segs, n).width == d.width,
        draw_digits(d, segs, n).height == d.height,
    decreases n,
{
    if n > 0 {
        lemma_draw_digits_wf(d, segs, (n - 1) as nat);
        let d1 = draw_digits(d, segs, (n - 1) as nat);
        let i = n - 1;
        if segs[i] != 0 {
            lemma_draw_digit_wf(d1, i, digit_pixels(segs[i]), 169);
        }
    }
}

impl Kim1Bus {
    fn riot_read(&self, base: u16, addr: u16) -> (r: u8)
        requires
            addr >= base,
        ensures
            r == riot_read_spec(self@, base, addr),
    {
        let offset = addr - base;
        if offset < RIOT_IO_SIZE {
            let (pa, pb) = if base == RIOT_BASE_002 {
                (self.riot2_pa, self.riot2_pb)
            } else {
                (self.riot3_pa, self.riot3_pb)
            };
            if offset == 0 {
                pa
            } else if offset == 1 {
                pb
            } else {
                0
            }
        } else if offset < 0x400 {
            let idx = (offset - RIOT_ROM_OFFSET) as usize;
            if base == RIOT_BASE_002 {
                if idx < self.rom_002.len() { self.rom_002[idx] } else { 0xFF }
            } else {
                if idx < self.rom_003.len() { self.rom_003[idx] } else { 0xFF }
            }
        } else {
            0
        }
    }

    fn riot_write(&mut self, base: u16, addr: u16, val: u8)
        requires
            addr >= base,
        ensures
            final(self)@ == riot_write_spec(old(self)@, base, addr, val),
    {
        let offset = addr - base;
        if offset >= RIOT_IO_SIZE {
            return;
        }
        let riot2 = base == RIOT_BASE_002;
        if offset == 0 {
            if riot2 {
                self.riot2_pa = val;
            } else {
                self.riot3_pa = val;
            }
        } else if offset == 1 {
            if riot2 {
                self.riot2_pb = val;
                let mut d: usize = 0;
                while d < 6
                    invariant
                        d <= 6,
                        addr >= base,
                        addr - base == 1,
                        base == RIOT_BASE_002,
                        self.riot2_pb == val,
                        self@ == (Kim1BusView { led_segments: self@.led_segments, ..riot_write_spec(old(self)@, base, addr, val) }),
                        self@.led_segments.len() == 6,
                        forall|k: int| 0 <= k < 6 ==> #[trigger] self@.led_segments[k] == if k < d {
                            if val & (1u8 << (k as u8)) == 0 { old(self)@.riot2_pa } else { old(self)@.led_segments[k] }
                        } else {
                            old(self)@.led_segments[k]
                        },
                    decreases 6 - d,
                {
                    let ghost before = self@.led_segments;
                    if val & (1u8 << (d as u8)) == 0 {
                        self.led_segments[d] = self.riot2_pa;
                    }
                    assert(self@.led_segments[d as int] == if val & (1u8 << (d as u8)) == 0 {
                        old(self)@.riot2_pa
                    } else {
                        old(self)@.led_segments[d as int]
                    });
                    assert(forall|k: int| 0 <= k < 6 && k != d ==> self@.led_segments[k] == before[k]);
                    d = d + 1;
                }
                assert(self@.led_segments =~= riot_write_spec(old(self)@, base, addr, val).led_segments);
            } else {
                self.riot3_pb = val;
            }
        }
    }

    /// Draws the LED digits on the display: cleared, then each digit with
    /// a lit segment rendered at 13 pixels per digit.
    pub fn render_display(&mut self)
        requires
            old(self)@.display.wf(),
        ensures
            final(self)@ == (Kim1BusView {
                display: draw_digits(cleared(old(self)@.display), old(self)@.led_segments, 6),
                ..old(self)@
            }),
            final(self)@.display.wf(),
    {
        self.display.clear();
        let w = self.display.width() as usize;
        let ghost d0 = self@.display;
        let mut i: usize = 0;
        while i < 6
            invariant
                i <= 6,
                d0 == cleared(old(self)@.display),
                d0.wf(),
                w == d0.width,
                self@ == (Kim1BusView { display: self@.display, ..old(self)@ }),
                self@.display == draw_digits(d0, old(self)@.led_segments, i as nat),
                self@.display.wf(),
                self@.display.width == d0.width,
                self@.display.height == d0.height,
            decreases 6 - i,
        {
            let seg = self.led_segments[i];
            if seg != 0 {
                let ox = i * 13;
                let mut dbuf = [0u8; 169];
                assert(dbuf@ =~= Seq::new(169, |k: int| 0u8));
                render(seg, &mut dbuf, 13, 13, 13);
                let ghost d1 = self@.display;
                let mut j: usize = 0;
                while j < 169
                    invariant
                        j <= 169,
                        i < 6,
                        ox == i * 13,
                        w == d1.width,
                        dbuf@ == digit_pixels(seg),
                        d1.wf(),
                        self@ == (Kim1BusView { display: self@.display, ..old(self)@ }),
                        self@.display == draw_digit(d1, i as int, dbuf@, j as nat),
                        self@.display.wf(),
                        self@.display.width == d1.width,
                        self@.display.height == d1.height,
                    decreases 169 - j,
                {
                    if dbuf[j] != 0 {
                        let x = ox + j % 13;
                        let y = j / 13;
                        if x < w {
                            self.display.set_pixel(x as u8, y as u8, 1);
                        }
                    }
                    j = j + 1;
                    proof {
                        lemma_draw_digit_wf(d1, i as int, dbuf@, j as nat);
                    }
                }
            }
            i = i + 1;
            proof {
                lemma_draw_digits_wf(d0, old(self)@.led_segments, i as nat);
            }
        }
    }

    pub fn get_display_buffer(&self) -> (r: Vec<u8>)
        ensures
            r@ == self@.display.buffer,
    {
        self.display.get_buffer()
    }

    pub fn get_display_width(&self) -> (r: u16)
        ensures
            r == self@.display.width,
    {
        self.display.width()
    }

    pub fn get_display_height(&self) -> (r: u16)
        ensures
            r == self@.display.height,
    {
        self.display.height()
    }

    /// The segment pattern latched for each digit.
    pub fn led_segments(&self) -> (r: &[u8; 6])
        ensures
            r@ == self@.led_segments,
    {
        &self.led_segments
    }

    pub fn key_down(&mut self, key: u8)
        ensures
            final(self)@ == (Kim1BusView {
                keys: if key < 16 { old(self)@.keys.update(key as int, true) } else { old(self)@.keys },
                ..old(self)@
            }),
    {
        self.keypad.press(key);
    }

    pub fn key_up(&mut self, key: u8)
        ensures
            final(self)@ == (Kim1BusView {
                keys: if key < 16 { old(self)@.keys.update(key as int, false) } else { old(self)@.keys },
                ..old(self)@
            }),
    {
        self.keypad.release(key);
    }

    /// A vector read the way the machine does at power-on: the two bytes at
    /// `addr - 0x1C00 + 8` and the next one, through the 6530-002.
    fn read_vector(&self, addr: u16) -> (r: u16)
        requires
            addr >= 0x37F8,
        ensures
            r == word_spec(
                riot_read_spec(self@, RIOT_BASE_002, (addr - 0x1C00 + 8) as u16),
                riot_read_spec(self@, RIOT_BASE_002, (addr - 0x1C00 + 9) as u16),
            ),
    {
        let lo = self.riot_read(RIOT_BASE_002, addr - 0x1C00 + RIOT_ROM_OFFSET);
        let hi = self.riot_read(RIOT_BASE_002, addr - 0x1C00 + RIOT_ROM_OFFSET + 1);
        word(lo, hi)
    }
}

impl Bus for Kim1Bus {
    /// RAM has its full size.
    open spec fn inv(s: Kim1BusView) -> bool {
        s.ram.len() == 1024
    }

    open spec fn peek(s: Kim1BusView, addr: u16) -> u8 {
        if addr <= 0x03FF {
            s.ram[addr as int]
        } else if 0x1800 <= addr <= 0x1BFF {
            riot_read_spec(s, RIOT_BASE_003, addr)
        } else if 0x1C00 <= addr <= 0x1FFF {
            riot_read_spec(s, RIOT_BASE_002, addr)
        } else if addr >= 0xFFFA {
            riot_read_spec(s, RIOT_BASE_002, vector_source(addr))
        } else {
            0xFF
        }
    }

    open spec fn after_read(s: Kim1BusView, addr: u16) -> Kim1BusView {
        s
    }

    open spec fn after_write(s: Kim1BusView, addr: u16, value: u8) -> Kim1BusView {
        if addr <= 0x03FF {
            Kim1BusView { ram: s.ram.update(addr as int, value), ..s }
        } else if 0x1800 <= addr <= 0x1BFF {
            riot_write_spec(s, RIOT_BASE_003, addr, value)
        } else if 0x1C00 <= addr <= 0x1FFF {
            riot_write_spec(s, RIOT_BASE_002, addr, value)
        } else {
            s
        }
    }

    proof fn lemma_inv(s: Kim1BusView, addr: u16, value: u8) {
        let w = <Kim1Bus as Bus>::after_write(s, addr, value);
        if addr <= 0x03FF {
            assert(w.ram.len() == 1024);
        } else if 0x1800 <= addr <= 0x1BFF {
            assert(w == riot_write_spec(s, RIOT_BASE_003, addr, value));
            assert(w.ram == s.ram);
        } else if 0x1C00 <= addr <= 0x1FFF {
            assert(w == riot_write_spec(s, RIOT_BASE_002, addr, value));
            assert(w.ram == s.ram);
        }
    }

    fn read(&mut self, addr: u16) -> (r: u8) {
        if addr <= 0x03FF {
            self.ram[addr as usize]
        } else if 0x1800 <= addr && addr <= 0x1BFF {
            self.riot_read(RIOT_BASE_003, addr)
        } else if 0x1C00 <= addr && addr <= 0x1FFF {
            self.riot_read(RIOT_BASE_002, addr)
        } else if addr >= 0xFFFA {
            let rom_addr = 0x1FFA + (addr - 0xFFFA);
            self.riot_read(RIOT_BASE_002, rom_addr)
        } else {
            0xFF
        }
    }

    fn write(&mut self, addr: u16, val: u8) {
        if addr <= 0x03FF {
            self.ram.set(addr as usize, val);
        } else if 0x1800 <= addr && addr <= 0x1BFF {
            self.riot_write(RIOT_BASE_003, addr, val);
        } else if 0x1C00 <= addr && addr <= 0x1FFF {
            self.riot_write(RIOT_BASE_002, addr, val);
        }
    }
}

/// The KIM-1: a 6502 on the bus.
pub struct Kim1 {
    pub cpu: Emulator,
    pub bus: Kim1Bus,
}

impl Kim1 {
    /// The machine with its two ROM images (each padded with 0xFF, or cut,
    /// to 1 KiB), zeroed RAM, ports at 0 (A) and 0xFF (B), a 78 x 15 LED
    /// display, and PC from the reset vector as the machine reads it.
    pub fn new(rom_002: Vec<u8>, rom_003: Vec<u8>) -> (r: Self)
        ensures
            r.bus@.ram == Seq::new(1024, |i: int| 0u8),
            r.bus@.rom_002 == padded(rom_002@, 1024),
            r.bus@.rom_003 == padded(rom_003@, 1024),
            r.bus@.riot2_pa == 0 && r.bus@.riot2_pb == 0xFF,
            r.bus@.riot3_pa == 0 && r.bus@.riot3_pb == 0xFF,
            r.bus@.led_segments == Seq::new(6, |i: int| 0u8),
            r.bus@.display.width == 78 && r.bus@.display.height == 15,
            r.bus@.display.buffer == Seq::new(78 * 15, |i: int| 0u8),
            r.bus@.display.wf(),
            preset(r.cpu.config, CpuFamily::Nmos6502, nmos_quirks(), 65536, 0x8000, false),
            r.cpu.cpu@ == (CpuView {
                pc: word_spec(
                    riot_read_spec(r.bus@, RIOT_BASE_002, 0xE404),
                    riot_read_spec(r.bus@, RIOT_BASE_002, 0xE405),
                ),
                ..power_on(r.cpu.config)
            }),
            r.cpu.total_cycles == 0,
            r.cpu.wf(),
            Kim1Bus::inv(r.bus@),
    {
        let cfg = MachineConfig::nmos6502();
        let emu = Emulator::from_config(cfg);
        let mut r2 = rom_002;
        r2.resize(1024, 0xFF);
        let mut r3 = rom_003;
        r3.resize(1024, 0xFF);
        assert(r2@ =~= padded(rom_002@, 1024));
        assert(r3@ =~= padded(rom_003@, 1024));
        let leds = [0u8; 6];
        assert(leds@ =~= Seq::new(6, |i: int| 0u8));
        let mut kim = Kim1 {
            cpu: emu,
            bus: Kim1Bus {
                ram: vec![0; RAM_SIZE],
                rom_002: r2,
                rom_003: r3,
                riot2_pa: 0,
                riot2_pb: 0xFF,
                riot3_pa: 0,
                riot3_pb: 0xFF,
                led_segments: leds,
                display: Display::new(78, 15),
                keypad: Keyboard::new(),
            },
        };
        let reset_vec = kim.bus.read_vector(0xFFFC);
        kim.cpu.set_register_pc(reset_vec);
        kim
    }

    /// Runs one instruction.
    pub fn tick(&mut self)
        requires
            Kim1Bus::inv(old(self).bus@),
            old(self).cpu.counters_room(1, 255),
        ensures
            ({
                let (c, b, cycles) = tick_spec::<Kim1Bus>(old(self).cpu.cpu@, old(self).bus@);
                &&& final(self).cpu.cpu@ == c
                &&& final(self).bus@ == b
                &&& final(self).cpu.total_cycles == old(self).cpu.total_cycles + cycles
            }),
            final(self).cpu.memory == old(self).cpu.memory,
            final(self).cpu.config == old(self).cpu.config,
            Kim1Bus::inv(final(self).bus@),
    {
        self.cpu.tick_bus(&mut self.bus);
    }

    /// Runs one instruction; returns its cycles.
    pub fn step(&mut self) -> (r: u8)
        requires
            Kim1Bus::inv(old(self).bus@),
            old(self).cpu.counters_room(1, 255),
        ensures
            (final(self).cpu.cpu@, final(self).bus@, r) == tick_spec::<Kim1Bus>(old(self).cpu.cpu@, old(self).bus@),
            final(self).cpu.total_cycles == old(self).cpu.total_cycles + r,
            final(self).cpu.memory == old(self).cpu.memory,
            final(self).cpu.config == old(self).cpu.config,
            Kim1Bus::inv(final(self).bus@),
    {
        self.cpu.tick_bus(&mut self.bus)
    }

    pub fn get_register_pc(&self) -> (r: u16)
        ensures
            r == self.cpu.cpu.pc,
    {
        self.cpu.get_register_pc()
    }

    pub fn get_register_a(&self) -> (r: u8)
        ensures
            r == self.cpu.cpu.a,
    {
        self.cpu.get_register_a()
    }

    pub fn get_register_x(&self) -> (r: u8)
        ensures
            r == self.cpu.cpu.x,
    {
        self.cpu.get_register_x()
    }

    pub fn get_register_y(&self) -> (r: u8)
        ensures
            r == self.cpu.cpu.y,
    {
        self.cpu.get_register_y()
    }

    pub fn get_register_sp(&self) -> (r: u8)
        ensures
            r == self.cpu.cpu.sp,
    {
        self.cpu.get_register_sp()
    }

    /// Draws the LED digits on the display.
    pub fn render_display(&mut self)
        requires
            old(self).bus@.display.wf(),
        ensures
            final(self).bus@ == (Kim1BusView {
                display: draw_digits(cleared(old(self).bus@.display), old(self).bus@.led_segments, 6),
                ..old(self).bus@
            }),
            final(self).cpu == old(self).cpu,
    {
        self.bus.render_display();
    }

    pub fn key_down(&mut self, key: u8)
        ensures
            final(self).bus@ == (Kim1BusView {
                keys: if key < 16 { old(self).bus@.keys.update(key as int, true) } else { old(self).bus@.keys },
                ..old(self).bus@
            }),
            final(self).cpu == old(self).cpu,
    {
        self.bus.key_down(key);
    }

    pub fn key_up(&mut self, key: u8)
        ensures
            final(self).bus@ == (Kim1BusView {
                keys: if key < 16 { old(self).bus@.keys.update(key as int, false) } else { old(self).bus@.keys },
                ..old(self).bus@
            }),
            final(self).cpu == old(self).cpu,
    {
        self.bus.key_up(key);
    }

    pub fn get_display_buffer(&self) -> (r: Vec<u8>)
        ensures
            r@ == self.bus@.display.buffer,
    {
        self.bus.get_display_buffer()
    }

    pub fn get_display_width(&self) -> (r: u16)
        ensures
            r == self.bus@.display.width,
    {
        self.bus.get_display_width()
    }

    pub fn get_display_height(&self) -> (r: u16)
        ensures
            r == self.bus@.display.height,
    {
        self.bus.get_display_height()
    }
}

} // verus!
