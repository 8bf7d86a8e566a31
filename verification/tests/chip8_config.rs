use retro_cores::chip8::config::MachineConfig;

#[test]
fn config_test_schip_config() {
    let c = MachineConfig::schip();
    assert_eq!(c.display.width, 128);
    assert_eq!(c.cpu.cpu_type, "schip");
}

#[test]
fn config_test_xochip_config() {
    let c = MachineConfig::xochip();
    assert_eq!(c.cpu.quirks.shift_vy, true);
    assert_eq!(c.cpu.quirks.memory_inc_i, true);
    assert_eq!(c.cpu.quirks.vf_reset, false);
}

#[test]
fn config_test_display_area() {
    let c = MachineConfig::default();
    assert_eq!(c.display_area(), 2048);
    let c2 = MachineConfig::schip();
    assert_eq!(c2.display_area(), 8192);
}

#[test]
fn config_test_quirks_tuple() {
    let c = MachineConfig::default();
    let (a, b, c_val) = c.quirks();
    assert_eq!(a, false);
    assert_eq!(b, false);
    assert_eq!(c_val, true);
}

#[test]
fn chip8_config_defaults_layout_and_speed() {
    let c = MachineConfig::default();
    assert_eq!(c.memory.size, 4096);
    assert_eq!(c.memory.rom_offset, 0x200);
    assert_eq!(c.memory.font_offset, 0x050);
    assert_eq!(c.instructions_per_second(), 30_000);
    assert_eq!(c.display_size(), (64, 32));
    assert_eq!(c.pixel_scale(), (1, 1));
    assert_eq!(c.cpu.cpu_type, "chip8");
    let x = MachineConfig::xochip();
    assert_eq!(x.display_size(), (128, 64));
    assert_eq!(x.cpu.cpu_type, "xochip");
}
