use retro_cores::chip8::config::MachineConfig;
use retro_cores::chip8::cpu::Cpu;
use retro_cores::chip8::emulator::Emulator;
use retro_cores::chip8::instruction::{self, Quirks};
use retro_cores::chip8::memory::Memory;
use retro_cores::chip8::standalone::Emulator as Standalone;
use retro_cores::devices::display::Display;
use retro_cores::devices::keyboard::Keyboard;
use retro_cores::mos6502::emulator::Emulator as Emulator6502;

fn make_cpu() -> Cpu {
    Cpu::new()
}
fn make_mem() -> Memory {
    Memory::new()
}
fn make_disp() -> Display {
    Display::new(64, 32)
}
fn make_kbd() -> Keyboard {
    Keyboard::new()
}

#[test]
fn lib_test_tick_executes_instruction() {
    let mut cpu = make_cpu();
    let mut mem = make_mem();
    let mut disp = make_disp();
    let kbd = make_kbd();
    let q = Quirks { shift_vy: false, memory_inc_i: false, vf_reset: true };

    mem.write(0x200, 0x6A);
    mem.write(0x201, 0x42);
    cpu.pc = 0x200;

    let opcode = (mem.read(cpu.pc) as u16) << 8 | mem.read(cpu.pc + 1) as u16;
    cpu.pc += 2;
    instruction::execute(opcode, &mut cpu, &mut mem, &mut disp, &kbd, &q);

    assert_eq!(cpu.v[0xA], 0x42);
    assert_eq!(cpu.pc, 0x202);

    let mut emu = Standalone::new();
    emu.memory.write(0x200, 0x6A);
    emu.memory.write(0x201, 0x42);
    emu.tick();
    assert_eq!(emu.cpu.v[0xA], 0x42);
    assert_eq!(emu.cpu.pc, 0x202);
}

#[test]
fn lib_test_tick_timers() {
    let mut cpu = make_cpu();
    cpu.delay = 3;
    cpu.sound = 2;
    cpu.tick_timers();
    assert_eq!(cpu.delay, 2);
    assert_eq!(cpu.sound, 1);

    let mut emu = Standalone::new();
    emu.cpu.delay = 3;
    emu.cpu.sound = 2;
    emu.tick_timers();
    assert_eq!(emu.cpu.delay, 2);
    assert_eq!(emu.cpu.sound, 1);
}

#[test]
fn lib_test_reset() {
    let mut cpu = make_cpu();
    cpu.pc = 0x500;
    cpu.v[0] = 42;
    cpu.reset();
    assert_eq!(cpu.pc, 0x200);
    assert_eq!(cpu.v[0], 0);

    let mut emu = Standalone::new();
    emu.cpu.pc = 0x500;
    emu.cpu.v[0] = 42;
    emu.reset();
    assert_eq!(emu.cpu.pc, 0x200);
    assert_eq!(emu.cpu.v[0], 0);

    let mut emu = Emulator6502::new();
    emu.cpu.a = 0xFF;
    emu.cpu.pc = 0x0000;
    emu.set_reset_vector(0x8000);
    emu.reset();
    assert_eq!(emu.cpu.a, 0);
    assert_eq!(emu.cpu.pc, 0x8000);
}

#[test]
fn lib_test_load_rom_sets_memory() {
    let mut mem = make_mem();
    let rom = vec![0x00, 0xE0, 0x6A, 0x42];
    mem.load_rom(&rom, 0x200);
    assert_eq!(mem.read(0x200), 0x00);
    assert_eq!(mem.read(0x203), 0x42);

    let mut emu = Standalone::new();
    emu.load_rom(&rom);
    assert_eq!(emu.memory.read(0x200), 0x00);
    assert_eq!(emu.memory.read(0x203), 0x42);
}

#[test]
fn lib_test_keyboard_roundtrip() {
    let mut kbd = make_kbd();
    kbd.press(0xF);
    assert!(kbd.is_pressed(0xF));
    kbd.release(0xF);
    assert!(!kbd.is_pressed(0xF));

    let mut emu = Standalone::new();
    emu.key_down(0xF);
    assert!(emu.keyboard.is_pressed(0xF));
    emu.key_up(0xF);
    assert!(!emu.keyboard.is_pressed(0xF));
}

#[test]
fn lib_test_display_buffer_size() {
    let disp = make_disp();
    assert_eq!(disp.buffer_len(), 2048);

    let emu = Standalone::new();
    assert_eq!(emu.get_display().len(), 2048);
}

#[test]
fn lib_test_get_sound() {
    let cpu = make_cpu();
    assert!(!(cpu.sound > 0));

    let mut emu = Standalone::new();
    assert!(!emu.get_sound());
    emu.cpu.sound = 1;
    assert!(emu.get_sound());
}

#[test]
fn chip8_machine_runs_a_program() {
    let mut emu = Emulator::new();
    // LD V1, 0x05; ADD V1, 0x03; LD I, 0x300; LD B, V1 (BCD of 8)
    emu.load_rom(&[0x61, 0x05, 0x71, 0x03, 0xA3, 0x00, 0xF1, 0x33]);
    for _ in 0..4 {
        assert!(emu.can_tick());
        emu.tick();
    }
    assert_eq!(emu.get_register_v(1), 8);
    assert_eq!(emu.get_register_i(), 0x300);
    assert_eq!(emu.get_register_pc(), 0x208);
    assert_eq!(emu.get_display_len(), 2048);
    assert_eq!(emu.get_instructions_per_second(), 30_000);
    emu.key_down(3);
    emu.key_up(3);
    emu.reset();
    assert_eq!(emu.get_register_pc(), 0x200);
}

#[test]
fn chip8_machine_draws_font_digit() {
    let mut emu = Emulator::new();
    // LD V0, 0; LD F, V0; DRW V0, V0, 5
    emu.load_rom(&[0x60, 0x00, 0xF0, 0x29, 0xD0, 0x05]);
    for _ in 0..3 {
        emu.tick();
    }
    let d = emu.get_display();
    // the digit 0 is 0xF0 0x90 0x90 0x90 0xF0
    assert_eq!(&d[0..4], &[1, 1, 1, 1]);
    assert_eq!(d[4], 0);
    assert_eq!(d[64], 1);
    assert_eq!(d[65], 0);
    assert_eq!(d[67], 1);
    assert_eq!(emu.get_register_v(0xF), 0);
}

#[test]
fn chip8_machine_configs() {
    let s = Emulator::new_schip();
    assert_eq!(s.get_display_width(), 128);
    assert_eq!(s.get_display_height(), 64);
    assert_eq!(s.get_display_len(), 8192);
    let mut e = Emulator::new();
    e.load_config(MachineConfig::xochip());
    assert_eq!(e.get_display_len(), 8192);
    assert_eq!(e.get_pixel_width(), 1);
    assert!(!e.paused());
}

#[test]
fn standalone_draw_reads_sprite_to_end_of_memory() {
    let mut emu = Standalone::new();
    // LD I, 0xFFE; DRW V0, V0, 4: only two sprite bytes lie below 4 KiB
    emu.load_rom(&[0xAF, 0xFE, 0xD0, 0x04]);
    emu.memory.write(0xFFE, 0x80);
    emu.memory.write(0xFFF, 0x80);
    emu.memory.write(0x000, 0x80);
    assert!(emu.can_tick());
    emu.tick();
    assert!(emu.can_tick());
    emu.tick();
    let d = emu.get_display();
    assert_eq!(d[0], 1);
    assert_eq!(d[64], 1);
    assert_eq!(d[128], 0);
}
