//! A CHIP-8 machine: processor, memory with the font, display and keypad,
//! set up from a configuration.

use vstd::prelude::*;
use crate::chip8::config::MachineConfig;
use crate::chip8::cpu::{Cpu, Chip8View};
use crate::chip8::instruction::{
    Quirks, execute, execute_spec, executable, skips, can_draw, drawn_rows, read_bytes,
};
use crate::chip8::memory::{Memory, fresh};
use crate::devices::display::{Display, DisplayView};
use crate::devices::flat_memory::FlatView;
use crate::devices::keyboard::{Keyboard, first_pressed};

verus! {

/// A CHIP-8 machine.
pub struct Emulator {
    cpu: Cpu,
    memory: Memory,
    display: Display,
    keyboard: Keyboard,
    config: MachineConfig,
}

/// A machine as plain values.
pub struct Chip8MachineView {
    pub cpu: Chip8View,
    pub memory: FlatView,
    pub display: DisplayView,
    pub keys: Seq<bool>,
    pub config: MachineConfig,
}

impl View for Emulator {
    type V = Chip8MachineView;

    closed spec fn view(&self) -> Chip8MachineView {
        Chip8MachineView {
            cpu: self.cpu@,
            memory: self.memory@,
            display: self.display@,
            keys: self.keyboard@,
            config: self.config,
        }
    }
}

/// The interpreter quirks a configuration asks for.
pub open spec fn quirks_of(c: MachineConfig) -> Quirks {
    Quirks {
        shift_vy: c.cpu.quirks.shift_vy,
        memory_inc_i: c.cpu.quirks.memory_inc_i,
        vf_reset: c.cpu.quirks.vf_reset,
    }
}

/// The opcode at `pc`: the byte there (high) and the next byte (low).
pub open spec fn opcode_at(m: FlatView, pc: u16) -> u16 {
    (((m.read(pc) as u16) << 8u16) | (m.read((pc + 1) as u16) as u16)) as u16
}

/// The processor with PC moved past the opcode at `pc`.
pub open spec fn fetched(c: Chip8View) -> Chip8View {
    Chip8View { pc: (c.pc + 2) as u16, ..c }
}

/// Whether a tick runs without an overflow: the opcode lies below 0xFFFF
/// and the instruction is executable after PC moves past it.
pub open spec fn tick_ok(e: Chip8MachineView) -> bool {
    !e.cpu.halted ==> e.cpu.pc <= 0xFFFD && executable::<Memory>(
        opcode_at(e.memory, e.cpu.pc),
        fetched(e.cpu),
        e.memory,
        e.display,
        e.keys,
        quirks_of(e.config),
    )
}

/// One tick: nothing while halted; else the opcode at PC fetched and executed.
pub open spec fn tick_spec(e: Chip8MachineView) -> Chip8MachineView {
    if e.cpu.halted {
        e
    } else {
        let (c, m, d) = execute_spec::<Memory>(
            opcode_at(e.memory, e.cpu.pc),
            fetched(e.cpu),
            e.memory,
            e.display,
            e.keys,
            quirks_of(e.config),
        );
        Chip8MachineView { cpu: c, memory: m, display: d, ..e }
    }
}

/// A machine freshly set up for a configuration.
pub open spec fn fresh_machine(e: Chip8MachineView, config: MachineConfig) -> bool {
    &&& e.config == config
    &&& e.cpu.v == Seq::new(16, |k: int| 0u8)
    &&& e.cpu.pc == 0x200
    &&& e.cpu.i == 0
    &&& e.cpu.sp == 0
    &&& e.memory == fresh(config.memory.font_offset)
    &&& e.display.width == config.display.width
    &&& e.display.height == config.display.height
    &&& e.display.buffer == Seq::new((config.display.width * config.display.height) as nat, |i: int| 0u8)
    &&& e.keys == Seq::new(16, |i: int| false)
}

impl Emulator {
    /// Memory of 4 KiB and a display with one byte per pixel.
    pub closed spec fn wf(&self) -> bool {
        &&& self.memory.wf()
        &&& self.display@.wf()
        &&& self.keyboard@.len() == 16
    }

    /// A machine set up for `cfg`.
    pub fn from_config(cfg: MachineConfig) -> (r: Self)
        ensures
            fresh_machine(r@, cfg),
            r@.cpu.delay == 0 && r@.cpu.sound == 0 && !r@.cpu.halted,
            r.wf(),
    {
        let (w, h) = cfg.display_size();
        let memory = Memory::with_font_offset(cfg.memory.font_offset);
        let display = Display::new(w, h);
        let keyboard = Keyboard::new();
        proof {
            keyboard.lemma_len();
        }
        Emulator { cpu: Cpu::new(), memory, display, keyboard, config: cfg }
    }

    /// The standard CHIP-8.
    pub fn new() -> (r: Self)
        ensures
            fresh_machine(r@, r@.config),
            r@.config.display.width == 64 && r@.config.display.height == 32,
            r.wf(),
    {
        Self::from_config(MachineConfig::default())
    }

    /// SUPER-CHIP 1.1.
    pub fn new_schip() -> (r: Self)
        ensures
            fresh_machine(r@, r@.config),
            r@.config.display.width == 128 && r@.config.display.height == 64,
            r.wf(),
    {
        Self::from_config(MachineConfig::schip())
    }

    /// XO-CHIP.
    pub fn new_xochip() -> (r: Self)
        ensures
            fresh_machine(r@, r@.config),
            r@.config.display.width == 128 && r@.config.display.height == 64,
            r.wf(),
    {
        Self::from_config(MachineConfig::xochip())
    }

    /// Sets the machine up afresh for `cfg` (processor, memory, display and keypad).
    pub fn load_config(&mut self, cfg: MachineConfig)
        ensures
            fresh_machine(final(self)@, cfg),
            final(self).wf(),
    {
        let (w, h) = cfg.display_size();
        let font_offset = cfg.memory.font_offset;
        self.config = cfg;
        self.cpu = Cpu::new();
        self.memory = Memory::with_font_offset(font_offset);
        self.display = Display::new(w, h);
        self.keyboard = Keyboard::new();
        proof {
            self.keyboard.lemma_len();
        }
    }

    /// The configuration.
    pub fn config(&self) -> (r: &MachineConfig)
        ensures
            *r == self@.config,
    {
        &self.config
    }

    /// Loads a program at the configured ROM offset.
    pub fn load_rom(&mut self, data: &[u8])
        requires
            old(self).wf(),
        ensures
            final(self)@ == (Chip8MachineView {
                memory: old(self)@.memory.load(data@, old(self)@.config.memory.rom_offset, data@.len()),
                ..old(self)@
            }),
            final(self).wf(),
    {
        let offset = self.config.memory.rom_offset;
        self.memory.load_rom(data, offset);
    }

    /// Whether the next tick runs without an overflow.
    pub fn can_tick(&self) -> (r: bool)
        requires
            self.wf(),
        ensures
            r == tick_ok(self@),
    {
        if self.cpu.halted {
            return true;
        }
        if self.cpu.pc > 0xFFFD {
            return false;
        }
        let opcode = ((self.memory.read(self.cpu.pc) as u16) << 8) | self.memory.read(self.cpu.pc + 1) as u16;
        let pc = self.cpu.pc + 2;
        let x = ((opcode & 0x0F00) >> 8) as usize;
        let y = ((opcode & 0x00F0) >> 4) as usize;
        let n = (opcode & 0x000F) as u8;
        let nn = (opcode & 0x00FF) as u8;
        let top = opcode & 0xF000;
        proof {
            crate::bits::lemma_opcode_fields(opcode);
            self.keyboard.lemma_len();
        }
        let ghost c1 = fetched(self.cpu@);
        if self.cpu.sp > 16 {
            return false;
        }
        let vx = self.cpu.v[x];
        let vy = self.cpu.v[y];
        let key = vx & 0x0F;
        proof {
            crate::bits::lemma_nibbles(vx);
        }
        let skip = (top == 0x3000 && vx == nn) || (top == 0x4000 && vx != nn) || (top == 0x5000 && vx == vy)
            || (top == 0x9000 && vx != vy) || (top == 0xE000 && nn == 0x9E && self.keyboard.is_pressed(key))
            || (top == 0xE000 && nn == 0xA1 && !self.keyboard.is_pressed(key));
        assert(skip == skips(opcode, c1, self.keyboard@));
        if skip && pc > 0xFFFD {
            return false;
        }
        if top == 0xD000 {
            if self.cpu.i as u32 + n as u32 > 0x10000 {
                return false;
            }
            return self.sprite_drawable(n);
        }
        if top == 0xF000 {
            if nn == 0x0A && self.keyboard.any_pressed().is_none() && pc < 2 {
                return false;
            }
            if nn == 0x33 && self.cpu.i > 0xFFFD {
                return false;
            }
            if nn == 0x55 || nn == 0x65 {
                let inc: u32 = if self.config.cpu.quirks.memory_inc_i { 1 } else { 0 };
                if self.cpu.i as u32 + x as u32 + inc > 0xFFFF {
                    return false;
                }
            }
        }
        true
    }

    /// Whether the `n`-row sprite at I can be drawn on the display.
    fn sprite_drawable(&self, n: u8) -> (r: bool)
        requires
            self.wf(),
            n < 16,
            self.cpu.i + n <= 0x10000,
        ensures
            r == (self@.display.wf() && can_draw(self@.display, read_bytes::<Memory>(self@.memory, self@.cpu.i, n as nat).0)),
    {
        let w = self.display.width();
        let h = self.display.height();
        let rows: u16 = if (n as u16) < h { n as u16 } else { h };
        let ghost sprite = read_bytes::<Memory>(self@.memory, self@.cpu.i, n as nat).0;
        proof {
            lemma_read_bytes(self@.memory, self@.cpu.i, n as nat);
        }
        assert(rows == drawn_rows(self@.display, sprite));
        if rows > 0 && (h as u8) == 0 {
            return false;
        }
        let mut any_set = false;
        let mut r: u16 = 0;
        while r < rows
            invariant
                r <= rows,
                rows <= n,
                self.wf(),
                self.cpu.i + n <= 0x10000,
                sprite == read_bytes::<Memory>(self@.memory, self@.cpu.i, n as nat).0,
                sprite.len() == n,
                forall|k: int| 0 <= k < n ==> #[trigger] sprite[k] == self@.memory.read((self@.cpu.i + k) as u16),
                any_set == exists|k: int| 0 <= k < r && sprite[k] != 0,
            decreases rows - r,
        {
            let b = self.memory.read(self.cpu.i + r);
            assert(b == sprite[r as int]);
            if b != 0 {
                any_set = true;
            }
            r = r + 1;
        }
        if any_set && (w as u8) == 0 {
            return false;
        }
        true
    }

    /// Runs one instruction (nothing while halted).
    pub fn tick(&mut self)
        requires
            old(self).wf(),
            tick_ok(old(self)@),
        ensures
            final(self)@ == tick_spec(old(self)@),
            final(self).wf(),
    {
        if self.cpu.halted {
            return;
        }
        let opcode = ((self.memory.read(self.cpu.pc) as u16) << 8) | self.memory.read(self.cpu.pc + 1) as u16;
        self.cpu.pc = self.cpu.pc + 2;
        let (shift_vy, memory_inc_i, vf_reset) = self.config.quirks();
        let quirks = Quirks { shift_vy, memory_inc_i, vf_reset };
        execute(opcode, &mut self.cpu, &mut self.memory, &mut self.display, &self.keyboard, &quirks);
    }

    /// Counts the delay and sound timers down.
    pub fn tick_timers(&mut self)
        ensures
            final(self)@ == (Chip8MachineView {
                cpu: Chip8View {
                    delay: if old(self)@.cpu.delay > 0 { (old(self)@.cpu.delay - 1) as u8 } else { 0 },
                    sound: if old(self)@.cpu.sound > 0 { (old(self)@.cpu.sound - 1) as u8 } else { 0 },
                    ..old(self)@.cpu
                },
                ..old(self)@
            }),
            old(self).wf() ==> final(self).wf(),
    {
        self.cpu.tick_timers();
    }

    /// A copy of the display pixels.
    pub fn get_display(&self) -> (r: Vec<u8>)
        ensures
            r@ == self@.display.buffer,
    {
        self.display.get_buffer()
    }

    /// The display pixels, borrowed.
    pub fn display_buffer(&self) -> (r: &[u8])
        ensures
            r@ == self@.display.buffer,
    {
        self.display.buffer()
    }

    pub fn get_display_len(&self) -> (r: usize)
        ensures
            r == self@.display.buffer.len(),
    {
        self.display.buffer_len()
    }

    pub fn get_instructions_per_second(&self) -> (r: u32)
        ensures
            r == self@.config.cpu.instructions_per_second,
    {
        self.config.instructions_per_second()
    }

    pub fn get_display_width(&self) -> (r: u16)
        ensures
            r == self@.config.display.width,
    {
        self.config.display.width
    }

    pub fn get_display_height(&self) -> (r: u16)
        ensures
            r == self@.config.display.height,
    {
        self.config.display.height
    }

    pub fn get_pixel_width(&self) -> (r: u16)
        ensures
            r == self@.config.display.pixel_width,
    {
        self.config.display.pixel_width
    }

    pub fn get_pixel_height(&self) -> (r: u16)
        ensures
            r == self@.config.display.pixel_height,
    {
        self.config.display.pixel_height
    }

    pub fn get_register_pc(&self) -> (r: u16)
        ensures
            r == self@.cpu.pc,
    {
        self.cpu.pc
    }

    pub fn get_register_i(&self) -> (r: u16)
        ensures
            r == self@.cpu.i,
    {
        self.cpu.i
    }

    /// Register V`reg`.
    pub fn get_register_v(&self, reg: u8) -> (r: u8)
        requires
            reg < 16,
        ensures
            r == self@.cpu.v[reg as int],
    {
        self.cpu.v[reg as usize]
    }

    pub fn get_delay(&self) -> (r: u8)
        ensures
            r == self@.cpu.delay,
    {
        self.cpu.delay
    }

    pub fn get_sound_remaining(&self) -> (r: u8)
        ensures
            r == self@.cpu.sound,
    {
        self.cpu.sound
    }

    /// Whether the processor is halted.
    pub fn paused(&self) -> (r: bool)
        ensures
            r == self@.cpu.halted,
    {
        self.cpu.halted
    }

    /// Whether the sound timer is running (the buzzer sounds).
    pub fn get_sound(&self) -> (r: bool)
        ensures
            r == (self@.cpu.sound > 0),
    {
        self.cpu.sound > 0
    }

    pub fn key_down(&mut self, key: u8)
        ensures
            final(self)@ == (Chip8MachineView {
                keys: if key < 16 { old(self)@.keys.update(key as int, true) } else { old(self)@.keys },
                ..old(self)@
            }),
            old(self).wf() ==> final(self).wf(),
    {
        self.keyboard.press(key);
    }

    pub fn key_up(&mut self, key: u8)
        ensures
            final(self)@ == (Chip8MachineView {
                keys: if key < 16 { old(self)@.keys.update(key as int, false) } else { old(self)@.keys },
                ..old(self)@
            }),
            old(self).wf() ==> final(self).wf(),
    {
        self.keyboard.release(key);
    }

    /// Processor reset, memory and display fresh; keys and configuration stay.
    pub fn reset(&mut self)
        ensures
            final(self)@.cpu.v == Seq::new(16, |k: int| 0u8),
            final(self)@.cpu.pc == 0x200,
            final(self)@.memory == fresh(old(self)@.config.memory.font_offset),
            final(self)@.display.width == old(self)@.config.display.width,
            final(self)@.display.height == old(self)@.config.display.height,
            final(self)@.display.buffer == Seq::new(
                (old(self)@.config.display.width * old(self)@.config.display.height) as nat,
                |i: int| 0u8,
            ),
            final(self)@.keys == old(self)@.keys,
            final(self)@.config == old(self)@.config,
            old(self).wf() ==> final(self).wf(),
    {
        self.cpu.reset();
        self.memory = Memory::with_font_offset(self.config.memory.font_offset);
        self.display = Display::new(self.config.display.width, self.config.display.height);
    }
}

/// Reading CHIP-8 memory leaves it as it is and gives the bytes stored there.
pub proof fn lemma_read_bytes(m: FlatView, addr: u16, n: nat)
    ensures
        read_bytes::<Memory>(m, addr, n).1 == m,
        read_bytes::<Memory>(m, addr, n).0.len() == n,
        forall|k: int| 0 <= k < n ==> #[trigger] read_bytes::<Memory>(m, addr, n).0[k] == m.read((addr + k) as u16),
    decreases n,
{
    if n > 0 {
        lemma_read_bytes(m, addr, (n - 1) as nat);
    }
}

} // verus!
