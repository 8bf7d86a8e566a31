use retro_cores::mos6502::config::{CpuFamily, MachineConfig, RmwBehavior};

#[test]
fn test_default_nmos() {
    let c = MachineConfig::default();
    assert_eq!(c.family, CpuFamily::Nmos6502);
    assert!(c.quirks.jmp_indirect_bug);
}

#[test]
fn test_cmos_jmp_fixed() {
    let c = MachineConfig::w65c02();
    assert!(!c.quirks.jmp_indirect_bug);
}

#[test]
fn test_nes_no_bcd() {
    let c = MachineConfig::ricoh2a03();
    assert!(!c.quirks.bcd_available);
}

#[test]
fn test_atari2600_8kb() {
    let c = MachineConfig::atari2600();
    assert_eq!(c.memory.size, 8192);
    assert_eq!(c.start_address, 0xF000);
}

#[test]
fn test_cmos_has_stp_wai() {
    let c = MachineConfig::w65c02();
    assert!(c.quirks.stp_available);
    assert!(c.quirks.wai_available);
}

#[test]
fn test_ricoh_no_stp() {
    let c = MachineConfig::ricoh2a03();
    assert!(!c.quirks.stp_available);
}

#[test]
fn test_all_variants_distinct() {
    let v: Vec<MachineConfig> = vec![
        MachineConfig::nmos6502(),
        MachineConfig::w65c02(),
        MachineConfig::r65c02(),
        MachineConfig::ricoh2a03(),
        MachineConfig::mos6510(),
        MachineConfig::mos6507(),
    ];
    let mut families: Vec<_> = v.iter().map(|c| c.family).collect();
    families.sort();
    families.dedup();
    assert_eq!(families.len(), 6, "some variants repeat");
}

#[test]
fn config_presets_vectors_and_quirks() {
    let c = MachineConfig::c64();
    assert_eq!(c.family, CpuFamily::Nmos6510);
    assert_eq!(c.reset_vector, 0xFFFC);
    assert_eq!(c.nmi_vector, 0xFFFA);
    assert_eq!(c.irq_vector, 0xFFFE);
    assert_eq!(c.rmw_behavior(), RmwBehavior::Nmos);
    let w = MachineConfig::w65c02();
    assert_eq!(w.rmw_behavior(), RmwBehavior::Cmos);
    assert!(w.supports_bcd());
    assert!(!w.has_undocumented_ops());
    let a = MachineConfig::apple1();
    assert!(a.is_apple1);
    assert_eq!(a.memory.size, 65536);
}

#[test]
fn apple1_preset_is_nmos_with_its_own_label() {
    let a = MachineConfig::apple1();
    let n = MachineConfig::nmos6502();
    assert!(a.is_apple1);
    assert_eq!(a.label, "Apple 1");
    assert_eq!(a.description, "Apple 1 — 6502 + PIA 6821 + terminal");
    assert_eq!(a.family, n.family);
    assert_eq!(a.quirks, n.quirks);
    assert_eq!(a.memory.size, n.memory.size);
    assert_eq!(a.start_address, n.start_address);
    assert_eq!(a.reset_vector, n.reset_vector);
    assert_eq!(a.nmi_vector, n.nmi_vector);
    assert_eq!(a.irq_vector, n.irq_vector);
    assert_eq!(MachineConfig::c64().label, "MOS 6510 (C64)");
}
