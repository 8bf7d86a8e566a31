use retro_cores::chip8::memory::Memory;
use retro_cores::chip8::sized_memory::Memory as SizedMemory;

#[test]
fn memory_test_font_loaded() {
    let m = Memory::new();
    assert_eq!(m.read(0x050), 0xF0);
    assert_eq!(m.read(0x09F), 0x80);

    let s = SizedMemory::new();
    assert_eq!(s.read(0x050), 0xF0);
    assert_eq!(s.read(0x09F), 0x80);
}

#[test]
fn memory_test_custom_font_offset() {
    let m = Memory::with_font_offset(0x100);
    assert_eq!(m.read(0x100), 0xF0);

    let s = SizedMemory::with_font_offset(0x100);
    assert_eq!(s.read(0x100), 0xF0);
}

#[test]
fn memory_test_read_write() {
    let mut m = Memory::new();
    m.write(0x200, 0xAB);
    assert_eq!(m.read(0x200), 0xAB);

    let mut s = SizedMemory::new();
    s.write(0x200, 0xAB);
    assert_eq!(s.read(0x200), 0xAB);
}

#[test]
fn memory_test_load_rom() {
    let mut m = Memory::new();
    let rom = vec![0x00, 0xE0, 0x12, 0x34];
    m.load_rom(&rom, 0x200);
    assert_eq!(m.read(0x200), 0x00);
    assert_eq!(m.read(0x203), 0x34);

    let mut s = SizedMemory::new();
    s.load_rom(&rom, 0x200);
    assert_eq!(s.read(0x200), 0x00);
    assert_eq!(s.read(0x203), 0x34);
}

#[test]
fn memory_test_wraparound() {
    let m = Memory::with_font_offset(0x050);
    m.read(0x1000);

    let s = SizedMemory::with_size_and_font(256, 0x050);
    s.read(0x100);
}

#[test]
fn chip8_memory_addresses_wrap_exactly() {
    let mut m = Memory::new();
    m.write(0x1005, 0x77);
    assert_eq!(m.read(0x0005), 0x77);

    let mut s = SizedMemory::with_size_and_font(256, 0x050);
    s.write(0x0103, 0x11);
    assert_eq!(s.read(0x0003), 0x11);
    assert_eq!(s.read(0x0050), 0xF0);
}

#[test]
fn sized_memory_cuts_copies_at_the_end() {
    let mut s = SizedMemory::with_size_and_font(100, 0x050);
    assert_eq!(s.read(0x050), 0xF0);
    assert_eq!(s.read(99), 0xF0);
    s.load_rom(&[1, 2, 3, 4], 98);
    assert_eq!(s.read(98), 1);
    assert_eq!(s.read(99), 2);
    assert_eq!(s.read(0), 0);
    assert_eq!(s.read_slice(97, 10), &[0xF0, 1, 2]);
}
