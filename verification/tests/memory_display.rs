use retro_cores::chip8::screen::Display as Screen;
use retro_cores::chips::pia::Pia6821;
use retro_cores::chips::pia_reg::{cra_irq_a1_enabled, cra_irq_a2_enabled};
use retro_cores::devices::display::Display;
use retro_cores::devices::flat_memory::Memory as FlatMemory;
use retro_cores::mos6502::config::MachineConfig;
use retro_cores::mos6502::memory::Memory;

#[test]
fn lib_test_new_default() {
    let d = Display::new(64, 32);
    assert_eq!(d.width(), 64);
    assert_eq!(d.height(), 32);
    assert_eq!(d.buffer_len(), 2048);
}

#[test]
fn lib_test_clear() {
    let mut d = Display::new(64, 32);
    d.set_pixel(0, 0, 1);
    d.clear();
    assert_eq!(d.get_pixel(0, 0), 0);

    let config = MachineConfig::default();
    let mut mem = Memory::new(&config);
    mem.write(0x1000, 0xFF);
    mem.clear();
    assert_eq!(mem.read(0x1000), 0x00);

    let mut flat = FlatMemory::new(256);
    flat.write(0x10, 0xFF);
    flat.clear();
    assert_eq!(flat.read(0x10), 0x00);
}

#[test]
fn lib_test_set_get_pixel() {
    let mut d = Display::new(64, 32);
    d.set_pixel(10, 5, 1);
    assert_eq!(d.get_pixel(10, 5), 1);
    assert_eq!(d.get_pixel(11, 5), 0);
}

#[test]
fn lib_test_out_of_bounds() {
    let mut d = Display::new(64, 32);
    d.set_pixel(100, 100, 1);
    assert_eq!(d.get_pixel(100, 100), 0);
}

#[test]
fn lib_test_get_buffer() {
    let d = Display::new(64, 32);
    assert_eq!(d.get_buffer().len(), 2048);
}

#[test]
fn lib_test_new() {
    let mem = FlatMemory::new(65536);
    assert_eq!(mem.len(), 65536);
}

#[test]
fn lib_test_read_write() {
    let mut pia = Pia6821::new();
    pia.write(0, 0xAA);
    assert_eq!(pia.read(0, 0, 0), 0x00);
    pia.ddra = 0xFF;
    assert_eq!(pia.read(0, 0, 0), 0xAA);
    pia.set_input_a(0x55);
    assert_eq!(pia.read(0, 0x55, 0), 0xAA);
    pia.ddra = 0x00;
    assert_eq!(pia.read(0, 0x55, 0), 0x55);

    let mut mem = FlatMemory::new(65536);
    mem.write(0x1234, 0xAB);
    assert_eq!(mem.read(0x1234), 0xAB);
}

#[test]
fn test_control_registers() {
    let mut pia = Pia6821::new();
    pia.write(1, 0xA7);
    assert_eq!(pia.read(1, 0, 0), 0xA7);
    pia.write(3, 0x34);
    assert_eq!(pia.read(3, 0, 0), 0x34);
}

#[test]
fn test_output() {
    let mut pia = Pia6821::new();
    pia.ddra = 0xF0;
    pia.ora = 0xFF;
    assert_eq!(pia.output_a(), 0xF0);
    pia.set_input_a(0x0F);
    assert_eq!(pia.read(0, 0x0F, 0), 0xFF);
}

#[test]
fn lib_test_read_write_u16() {
    let config = MachineConfig::default();
    let mut mem = Memory::new(&config);
    mem.write_u16(0x1000, 0x1234);
    assert_eq!(mem.read(0x1000), 0x34);
    assert_eq!(mem.read(0x1001), 0x12);
    assert_eq!(mem.read_u16(0x1000), 0x1234);

    let mut flat = FlatMemory::new(65536);
    flat.write_u16(0x1000, 0x1234);
    assert_eq!(flat.read_u16(0x1000), 0x1234);
}

#[test]
fn lib_test_load() {
    let mut mem = FlatMemory::new(65536);
    let data = vec![0x01, 0x02, 0x03, 0x04];
    mem.load(&data, 0x8000);
    assert_eq!(mem.read(0x8000), 0x01);
    assert_eq!(mem.read(0x8001), 0x02);
    assert_eq!(mem.read(0x8003), 0x04);
}

#[test]
fn lib_test_wraparound() {
    let mut mem = FlatMemory::new(256);
    mem.write(0x100, 0x42);
    assert_eq!(mem.read(0x00), 0x42);
}

#[test]
fn lib_test_bus_trait() {
    let mut mem = FlatMemory::new(65536);
    mem.write(0x2000, 0xAA);
    assert_eq!(mem.read(0x2000), 0xAA);
}

#[test]
fn test_memory_creation() {
    let config = MachineConfig::default();
    let mem = Memory::new(&config);
    assert_eq!(mem.len(), 65536);
}

#[test]
fn test_basic_read_write() {
    let config = MachineConfig::default();
    let mut mem = Memory::new(&config);
    mem.write(0x1234, 0xAB);
    assert_eq!(mem.read(0x1234), 0xAB);
}

#[test]
fn lib_test_load_rom() {
    let config = MachineConfig::default();
    let mut mem = Memory::new(&config);
    let rom = vec![0x00, 0xE0, 0x6A, 0x42];
    mem.load_rom(&rom, 0x8000);
    assert_eq!(mem.read(0x8000), 0x00);
    assert_eq!(mem.read(0x8001), 0xE0);
    assert_eq!(mem.read(0x8002), 0x6A);
    assert_eq!(mem.read(0x8003), 0x42);
}

#[test]
fn test_zero_page_detection() {
    assert!(Memory::is_zero_page(0x0000));
    assert!(Memory::is_zero_page(0x00FF));
    assert!(!Memory::is_zero_page(0x0100));
}

#[test]
fn test_stack_page_detection() {
    assert!(Memory::is_stack_page(0x0100));
    assert!(Memory::is_stack_page(0x01FF));
    assert!(!Memory::is_stack_page(0x00FF));
    assert!(!Memory::is_stack_page(0x0200));
}

#[test]
fn test_vectors() {
    let config = MachineConfig::default();
    let mut mem = Memory::new(&config);
    mem.set_reset_vector(0x8000);
    assert_eq!(mem.get_reset_vector(), 0x8000);
    mem.set_nmi_vector(0x9000);
    assert_eq!(mem.get_nmi_vector(), 0x9000);
    mem.set_irq_vector(0xA000);
    assert_eq!(mem.get_irq_vector(), 0xA000);
}

#[test]
fn test_bank_switching() {
    let mut config = MachineConfig::nmos6502();
    config.memory.bank_switching = true;
    config.memory.num_banks = 2;

    let mut mem = Memory::new(&config);
    assert_eq!(mem.num_banks(), 2);

    mem.set_bank(0).unwrap();
    mem.write(0x1000, 0xAA);

    mem.set_bank(1).unwrap();
    mem.write(0x1000, 0xBB);

    mem.set_bank(0).unwrap();
    assert_eq!(mem.read(0x1000), 0xAA);

    mem.set_bank(1).unwrap();
    assert_eq!(mem.read(0x1000), 0xBB);
}

#[test]
fn test_load_rom_bank() {
    let mut config = MachineConfig::nmos6502();
    config.memory.bank_switching = true;
    config.memory.num_banks = 2;

    let mut mem = Memory::new(&config);
    let rom = vec![0x01, 0x02, 0x03];
    mem.load_rom_bank(1, &rom, 0x8000).unwrap();

    mem.set_bank(1).unwrap();
    assert_eq!(mem.read(0x8000), 0x01);
    assert_eq!(mem.read(0x8001), 0x02);
    assert_eq!(mem.read(0x8002), 0x03);
}

#[test]
fn bank_errors_name_the_bank() {
    let mut config = MachineConfig::nmos6502();
    config.memory.bank_switching = true;
    config.memory.num_banks = 2;
    let mut mem = Memory::new(&config);
    assert!(mem.set_bank(2).is_err());
    assert!(mem.load_rom_bank(5, &[1], 0).is_err());
    assert_eq!(mem.get_bank(), 0);
}

#[test]
fn display_test_clear() {
    let mut d = Screen::new();
    d.buffer[0] = 1;
    d.clear();
    assert_eq!(d.buffer[0], 0);
}

#[test]
fn test_draw_no_collision() {
    let mut d = Screen::new();
    let sprite = [0xF0, 0x90, 0x90, 0x90, 0xF0];
    let coll = d.draw(0, 0, &sprite);
    assert!(!coll);
    assert!(d.get_pixel(0, 0));
    assert!(!d.get_pixel(4, 0));
}

#[test]
fn test_draw_collision() {
    let mut d = Screen::new();
    let sprite = [0xFF];
    d.draw(0, 0, &sprite);
    let coll = d.draw(0, 0, &sprite);
    assert!(coll);
    assert!(!d.get_pixel(0, 0));
}

#[test]
fn test_with_size() {
    let d = Screen::with_size(128, 64);
    assert_eq!(d.buffer.len(), 8192);
}

#[test]
fn test_get_buffer_size() {
    let d = Screen::new();
    assert_eq!(d.get_buffer().len(), 2048);
}

#[test]
fn test_draw_on_wider_display() {
    let mut d = Screen::with_size(128, 64);
    let sprite = [0xFF];
    let coll = d.draw(100, 30, &sprite);
    assert!(!coll);
    assert!(d.get_pixel(100, 30));
    assert!(d.get_pixel(107, 30));
}

#[test]
fn screen_draw_wraps_at_the_edges() {
    let mut d = Screen::new();
    let coll = d.draw(62, 31, &[0xC0 | 0x20, 0x80]);
    assert!(!coll);
    assert!(d.get_pixel(62, 31));
    assert!(d.get_pixel(63, 31));
    assert!(d.get_pixel(0, 31));
    assert!(d.get_pixel(62, 0));
}

#[test]
fn bank_error_messages_exact() {
    let mut config = MachineConfig::nmos6502();
    config.memory.bank_switching = true;
    config.memory.num_banks = 2;
    let mut mem = Memory::new(&config);
    assert_eq!(mem.set_bank(7), Err("Bank 7 out of range".to_string()));
    assert_eq!(mem.load_rom_bank(12, &[1], 0), Err("Bank 12 out of range (max: 1)".to_string()));
}

#[test]
fn screen_draw_twice_restores_the_pixels() {
    let mut d = Screen::new();
    d.buffer[5] = 1;
    d.buffer[64 + 70 - 64] = 1;
    let before = d.get_buffer();
    let sprite = [0xA5, 0xFF, 0x3C];
    d.draw(3, 0, &sprite);
    assert_ne!(d.get_buffer(), before);
    let coll = d.draw(3, 0, &sprite);
    assert!(coll);
    assert_eq!(d.get_buffer(), before);
}

#[test]
fn flat_memory_mutable_bytes() {
    let mut mem = FlatMemory::new(16);
    {
        let bytes = mem.as_mut_slice();
        assert_eq!(bytes.len(), 16);
        bytes[3] = 0x5A;
    }
    assert_eq!(mem.read(3), 0x5A);
    assert_eq!(mem.len(), 16);
}

#[test]
fn screen_collisions_on_a_blank_display() {
    let mut d = Screen::new();
    assert!(!d.draw(60, 30, &[0x81, 0x00, 0xFF]));
    assert!(d.draw(60, 30, &[0x81, 0x00, 0xFF]));
    let mut e = Screen::new();
    assert!(!e.draw(5, 5, &[0x00, 0x00]));
    assert!(!e.draw(5, 5, &[0x00, 0x00]));
}

#[test]
fn pia_irq_a1_follows_cra_bit0() {
    assert!(!cra_irq_a1_enabled(0x00));
    assert!(cra_irq_a1_enabled(0x01));
    assert!(!cra_irq_a1_enabled(0xFE));
    assert!(cra_irq_a2_enabled(0x00));
}
