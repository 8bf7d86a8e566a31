use retro_cores::bus::Bus;
use retro_cores::devices::display::Display;
use retro_cores::devices::keyboard::Keyboard;
use retro_cores::machines::apple1::Apple1Emulator;
use retro_cores::machines::eater::Eater6502;
use retro_cores::machines::kim1::{Kim1, Kim1Bus};
use retro_cores::machines::pet::{build_chargen, Pet2001};
use retro_cores::machines::rom::generate_monitor;

fn make_machine() -> Eater6502 {
    let rom = generate_monitor();
    Eater6502::new(rom)
}

fn drain_prompt(machine: &mut Eater6502) {
    for _ in 0..2000 {
        machine.tick();
    }
    let _tx = machine.bus.read_transmitted();
    while machine.bus.drain_tx().len() > 0 {}
}

#[test]
fn test_eater_6502_boots() {
    let mut machine = make_machine();
    assert!(machine.get_pc() >= 0x8000);
    for _ in 0..5000 {
        machine.tick();
    }
    assert!(machine.get_pc() >= 0x8000);
}

#[test]
fn test_eater_6502_memory() {
    let mut machine = make_machine();
    machine.bus.write(0x0200, 0x55);
    assert_eq!(machine.bus.read(0x0200), 0x55);
    assert_ne!(machine.bus.read(0x8000), 0xFF, "ROM should contain code");
}

#[test]
fn test_eater_6502_acia_echo() {
    let mut machine = make_machine();
    drain_prompt(&mut machine);

    machine.bus.receive_byte(0x41);
    for _ in 0..5000 {
        machine.tick();
    }

    let tx = machine.bus.read_transmitted();
    assert_eq!(tx, Some(0x41), "Should echo 'A'");
}

#[test]
fn test_eater_6502_acia_echo_cr_lf() {
    let mut machine = make_machine();
    drain_prompt(&mut machine);

    machine.bus.receive_byte(0x0D);
    for _ in 0..10000 {
        machine.tick();
    }

    let out = machine.bus.drain_tx();
    assert!(out.len() >= 2, "Should have at least 2 bytes, got {out:?}");
    assert_eq!(out[0], 0x0D);
    assert_eq!(out[1], 0x0A);
}

#[test]
fn test_eater_6502_acia_multiple_echo() {
    let mut machine = make_machine();
    drain_prompt(&mut machine);

    for &ch in b"HELLO" {
        machine.bus.receive_byte(ch);
        for _ in 0..5000 {
            machine.tick();
        }
        let tx = machine.bus.read_transmitted();
        assert_eq!(tx, Some(ch));
    }
}

#[test]
fn monitor_rom_layout() {
    let rom = generate_monitor();
    assert_eq!(rom.len(), 0x8000);
    // reset vector -> 0x8000, the monitor's entry
    assert_eq!(rom[0x7FFC], 0x00);
    assert_eq!(rom[0x7FFD], 0x80);
    // SEI; CLD; LDX #$FF; TXS
    assert_eq!(&rom[0..5], &[0x78, 0xD8, 0xA2, 0xFF, 0x9A]);
    assert_eq!(rom[0x7FFA], 0x00);
    assert_eq!(rom[0x7FFF], 0x80);
}

fn fallback_rom() -> Vec<u8> {
    vec![0xFF; 1024]
}

fn make_kim1_bus() -> Kim1Bus {
    Kim1Bus {
        ram: vec![0; 1024],
        rom_002: fallback_rom(),
        rom_003: fallback_rom(),
        riot2_pa: 0,
        riot2_pb: 0xFF,
        riot3_pa: 0,
        riot3_pb: 0xFF,
        led_segments: [0; 6],
        display: Display::new(78, 15),
        keypad: Keyboard::new(),
    }
}

#[test]
fn test_kim1_runs_known_entry() {
    let mut kim = Kim1::new(fallback_rom(), fallback_rom());
    kim.cpu.set_register_pc(0x1C4F);
    for _ in 0..500 {
        kim.tick();
    }
    assert!(kim.get_register_pc() != 0x1C4F);
}

#[test]
fn test_bus_ram_read_write() {
    let mut bus = make_kim1_bus();
    bus.write(0x0100, 0x55);
    assert_eq!(bus.read(0x0100), 0x55);
}

#[test]
fn test_riot_registers() {
    let mut bus = make_kim1_bus();
    bus.write(0x1C00, 0xAA);
    assert_eq!(bus.read(0x1C00), 0xAA);
    bus.write(0x1C02, 0xFF);
    bus.write(0x1C01, 0x55);
    assert_eq!(bus.read(0x1C01), 0x55);
}

#[test]
fn kim1_led_digits_latch_segments() {
    let mut kim = Kim1::new(fallback_rom(), fallback_rom());
    kim.bus.write(0x1C00, 0x7F);
    kim.bus.write(0x1C01, 0b111110);
    let segs = *kim.bus.led_segments();
    assert_eq!(segs[0], 0x7F);
    assert_eq!(segs[1], 0x00);
    kim.bus.write(0x1C00, 0x06);
    kim.bus.write(0x1C01, 0b111101);
    let segs = *kim.bus.led_segments();
    assert_eq!(segs[0], 0x7F);
    assert_eq!(segs[1], 0x06);
}

#[test]
fn kim1_vectors_read_from_the_rom_top() {
    let mut rom2 = fallback_rom();
    // 0xFFFC/0xFFFD read 6530-002 offsets 0x3FC/0x3FD, ROM bytes 0x3F4/0x3F5
    rom2[0x3F4] = 0x22;
    rom2[0x3F5] = 0x1C;
    let mut kim = Kim1::new(rom2, fallback_rom());
    assert_eq!(kim.bus.read(0xFFFC), 0x22);
    assert_eq!(kim.bus.read(0xFFFD), 0x1C);
    // the start-up vector fetch addresses the RIOT beyond its range and reads 0
    assert_eq!(kim.get_register_pc(), 0x0000);
}

fn apple1_roms() -> (Vec<u8>, Vec<u8>) {
    let basic = vec![0xEA; 0x1000];
    let mut woz = vec![0xEA; 0x100];
    // LDA #$C8; STA $D012; LDA #$C9; STA $D012; JMP $FF0A
    let prog = [0xA9, 0xC8, 0x8D, 0x12, 0xD0, 0xA9, 0xC9, 0x8D, 0x12, 0xD0, 0x4C, 0x0A, 0xFF];
    woz[..prog.len()].copy_from_slice(&prog);
    (basic, woz)
}

#[test]
fn apple1_prints_through_the_pia() {
    let mut emu = Apple1Emulator::new();
    assert_eq!(emu.run(10), 0);
    let (basic, woz) = apple1_roms();
    emu.load_roms(&basic, &woz);
    assert_eq!(emu.get_pc(), 0xFF00);
    assert_eq!(emu.get_sp(), 0xFF);
    let n = emu.run(5);
    assert_eq!(n, 5);
    assert_eq!(emu.display_len(), 2);
    assert_eq!(emu.take_display(), vec![0x48, 0x49]);
    assert_eq!(emu.display_len(), 0);
    assert_eq!(emu.get_a(), 0xC9);
    assert_eq!(emu.get_instructions(), 5);
}

#[test]
fn apple1_keyboard_reads_with_bit7_set() {
    let (basic, mut woz) = apple1_roms();
    // LDA $D011; LDA $D010; STA $0200
    let prog = [0xAD, 0x11, 0xD0, 0xAD, 0x10, 0xD0, 0x8D, 0x00, 0x02];
    woz[..prog.len()].copy_from_slice(&prog);
    let mut emu = Apple1Emulator::new();
    emu.load_roms(&basic, &woz);
    emu.press_key(b'A');
    emu.run(1);
    assert_eq!(emu.get_a(), 0x80);
    emu.run(2);
    assert_eq!(emu.get_a(), 0xC1);
    assert_eq!(emu.bus.ram[0x200], 0xC1);
}

#[test]
fn pet_character_generator() {
    let chargen = build_chargen();
    assert_eq!(chargen.len(), 2048);
    // the second half repeats the first
    for k in 0..1024 {
        assert_eq!(chargen[k + 1024], chargen[k]);
    }
    let pet = Pet2001::new();
    assert_eq!(pet.chargen_len(), 2048);
    assert_eq!(pet.screen_len(), 1000);
}

#[test]
fn pet_runs_from_the_kernal_reset_vector() {
    let empty = vec![0u8; 0x1000];
    let mut kernal = vec![0xEA; 0x1000];
    // reset vector 0xF000; at 0xF000: LDA #$01; STA $8000; JMP $F005
    kernal[0xFFC] = 0x00;
    kernal[0xFFD] = 0xF0;
    let prog = [0xA9, 0x01, 0x8D, 0x00, 0x80, 0x4C, 0x05, 0xF0];
    kernal[..prog.len()].copy_from_slice(&prog);
    let mut pet = Pet2001::new();
    assert_eq!(pet.run(3), 0);
    pet.load_roms(&empty, &empty, &empty, &kernal);
    assert_eq!(pet.get_pc(), 0xF000);
    assert_eq!(pet.run(4), 4);
    assert_eq!(pet.bus.screen[0], 0x01);
    assert_eq!(pet.get_pc(), 0xF005);
    pet.press_key(1, 2);
    pet.release_key(1, 2);
}
