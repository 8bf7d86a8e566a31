//! Configuration of a CHIP-8 machine: interpreter variant and quirks,
//! display, memory layout and keyboard.

use vstd::prelude::*;

verus! {

/// A CHIP-8 machine configuration.
#[derive(Debug, Clone)]
pub struct MachineConfig {
    pub machine: String,
    pub description: String,
    pub cpu: CpuConfig,
    pub display: DisplayConfig,
    pub memory: MemoryConfig,
    pub keyboard: KeyboardConfig,
}

/// The interpreter: its variant name, quirks and speeds.
#[derive(Debug, Clone)]
pub struct CpuConfig {
    /// The variant ("chip8", "schip", "xochip").
    pub cpu_type: String,
    pub quirks: QuirksConfig,
    pub timer_frequency: u32,
    pub instructions_per_second: u32,
}

#[derive(Debug, Clone, Copy, PartialEq, Eq, Structural)]
pub struct QuirksConfig {
    pub shift_vy: bool,
    pub memory_inc_i: bool,
    pub vf_reset: bool,
}

#[derive(Debug, Clone)]
pub struct DisplayConfig {
    pub width: u16,
    pub height: u16,
    pub pixel_style: String,
    pub pixel_width: u16,
    pub pixel_height: u16,
}

#[derive(Debug, Clone, Copy, PartialEq, Eq, Structural)]
pub struct MemoryConfig {
    pub size: u32,
    pub rom_offset: u16,
    pub font_offset: u16,
}

#[derive(Debug, Clone)]
pub struct KeyboardConfig {
    pub wait_for_key_blocks: bool,
    pub layout: String,
}

/// The numbers of a configuration: quirks, display size, memory layout and speeds.
pub open spec fn config_numbers(
    c: MachineConfig,
    quirks: QuirksConfig,
    width: u16,
    height: u16,
) -> bool {
    &&& c.cpu.quirks == quirks
    &&& c.cpu.timer_frequency == 60
    &&& c.cpu.instructions_per_second == 30_000
    &&& c.display.width == width
    &&& c.display.height == height
    &&& c.display.pixel_width == 1
    &&& c.display.pixel_height == 1
    &&& c.memory == (MemoryConfig { size: 4096, rom_offset: 0x200, font_offset: 0x050 })
    &&& c.keyboard.wait_for_key_blocks
}

fn build(
    machine: &str,
    description: &str,
    cpu_type: &str,
    quirks: QuirksConfig,
    width: u16,
    height: u16,
    pixel_style: &str,
) -> (r: MachineConfig)
    ensures
        config_numbers(r, quirks, width, height),
        r.machine@ == machine@,
        r.description@ == description@,
        r.cpu.cpu_type@ == cpu_type@,
        r.display.pixel_style@ == pixel_style@,
        r.keyboard.layout@ == "qwerty"@,
{
    MachineConfig {
        machine: machine.to_owned(),
        description: description.to_owned(),
        cpu: CpuConfig {
            cpu_type: cpu_type.to_owned(),
            quirks,
            timer_frequency: 60,
            instructions_per_second: 30_000,
        },
        display: DisplayConfig {
            width,
            height,
            pixel_style: pixel_style.to_owned(),
            pixel_width: 1,
            pixel_height: 1,
        },
        memory: MemoryConfig { size: 4096, rom_offset: 0x200, font_offset: 0x050 },
        keyboard: KeyboardConfig { wait_for_key_blocks: true, layout: "qwerty".to_owned() },
    }
}

impl Default for MachineConfig {
    /// The standard CHIP-8: 64x32, VF reset on logic operations.
    fn default() -> (r: Self)
        ensures
            config_numbers(r, QuirksConfig { shift_vy: false, memory_inc_i: false, vf_reset: true }, 64, 32),
            r.machine@ == "CHIP-8 (standard)"@,
            r.description@ == "Standardowy CHIP-8 — 64×32, 35 opcodów, 4KB RAM"@,
            r.cpu.cpu_type@ == "chip8"@,
            r.display.pixel_style@ == "mono"@,
            r.keyboard.layout@ == "qwerty"@,
    {
        build(
            "CHIP-8 (standard)",
            "Standardowy CHIP-8 — 64×32, 35 opcodów, 4KB RAM",
            "chip8",
            QuirksConfig { shift_vy: false, memory_inc_i: false, vf_reset: true },
            64,
            32,
            "mono",
        )
    }
}

impl MachineConfig {
    /// SUPER-CHIP 1.1: 128x64.
    pub fn schip() -> (r: Self)
        ensures
            config_numbers(r, QuirksConfig { shift_vy: false, memory_inc_i: false, vf_reset: true }, 128, 64),
            r.machine@ == "SUPER-CHIP 1.1"@,
            r.description@ == "SUPER-CHIP 1.1 — 128×64, dodatkowe opcody, duży font"@,
            r.cpu.cpu_type@ == "schip"@,
            r.display.pixel_style@ == "mono"@,
            r.keyboard.layout@ == "qwerty"@,
    {
        build(
            "SUPER-CHIP 1.1",
            "SUPER-CHIP 1.1 — 128×64, dodatkowe opcody, duży font",
            "schip",
            QuirksConfig { shift_vy: false, memory_inc_i: false, vf_reset: true },
            128,
            64,
            "mono",
        )
    }

    /// XO-CHIP: 128x64, shifts of VY, I advanced by store/load, no VF reset.
    pub fn xochip() -> (r: Self)
        ensures
            config_numbers(r, QuirksConfig { shift_vy: true, memory_inc_i: true, vf_reset: false }, 128, 64),
            r.machine@ == "XO-CHIP"@,
            r.description@ == "XO-CHIP — 128×64, 16 kolorów, dodatkowe opcody dźwięku"@,
            r.cpu.cpu_type@ == "xochip"@,
            r.display.pixel_style@ == "color"@,
            r.keyboard.layout@ == "qwerty"@,
    {
        build(
            "XO-CHIP",
            "XO-CHIP — 128×64, 16 kolorów, dodatkowe opcody dźwięku",
            "xochip",
            QuirksConfig { shift_vy: true, memory_inc_i: true, vf_reset: false },
            128,
            64,
            "color",
        )
    }

    /// The quirks as (shift_vy, memory_inc_i, vf_reset).
    pub fn quirks(&self) -> (r: (bool, bool, bool))
        ensures
            r == (self.cpu.quirks.shift_vy, self.cpu.quirks.memory_inc_i, self.cpu.quirks.vf_reset),
    {
        (self.cpu.quirks.shift_vy, self.cpu.quirks.memory_inc_i, self.cpu.quirks.vf_reset)
    }

    /// The display size as (width, height).
    pub fn display_size(&self) -> (r: (u16, u16))
        ensures
            r == (self.display.width, self.display.height),
    {
        (self.display.width, self.display.height)
    }

    /// The pixel scale as (width, height).
    pub fn pixel_scale(&self) -> (r: (u16, u16))
        ensures
            r == (self.display.pixel_width, self.display.pixel_height),
    {
        (self.display.pixel_width, self.display.pixel_height)
    }

    /// The number of pixels on the display.
    pub fn display_area(&self) -> (r: usize)
        ensures
            r == self.display.width * self.display.height,
    {
        assert((self.display.width as usize) * (self.display.height as usize) <= 0xFFFF * 0xFFFF)
            by (nonlinear_arith);
        (self.display.width as usize) * (self.display.height as usize)
    }

    pub fn instructions_per_second(&self) -> (r: u32)
        ensures
            r == self.cpu.instructions_per_second,
    {
        self.cpu.instructions_per_second
    }
}

} // verus!
