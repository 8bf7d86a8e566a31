//! CPU family, quirk and memory configuration of a 6502-based machine.

use vstd::prelude::*;

verus! {

/// The member of the 6502 family that a machine uses.
#[derive(Debug, Clone, Copy, PartialEq, Eq, Structural, PartialOrd, Ord, Hash)]
#[non_exhaustive]
pub enum CpuFamily {
    Nmos6502,
    Nmos6510,
    Nmos8502,
    Nmos6507,
    Ricoh2A03,
    R65C02,
    W65C02,
}

impl Default for CpuFamily {
    fn default() -> (r: Self)
        ensures
            r == CpuFamily::Nmos6502,
    {
        CpuFamily::Nmos6502
    }
}

impl CpuFamily {
    /// The CMOS members, which have the 65C02 opcode extensions.
    pub open spec fn is_cmos(self) -> bool {
        self == CpuFamily::W65C02 || self == CpuFamily::R65C02
    }
}

/// How a read-modify-write instruction touches memory between its read and its write.
#[derive(Debug, Clone, Copy, PartialEq, Eq, Structural, Hash)]
pub enum RmwBehavior {
    /// The unmodified value is written back before the result (two writes).
    Nmos,
    /// The address is read a second time before the result is written.
    Cmos,
}

impl Default for RmwBehavior {
    fn default() -> (r: Self)
        ensures
            r == RmwBehavior::Nmos,
    {
        RmwBehavior::Nmos
    }
}

/// Size and banking of the memory that the machine has.
#[derive(Debug, Clone, Copy, PartialEq, Eq, Structural)]
pub struct MemoryConfig {
    pub size: usize,
    pub bank_switching: bool,
    pub num_banks: usize,
}

impl Default for MemoryConfig {
    fn default() -> (r: Self)
        ensures
            r == (MemoryConfig { size: 65536, bank_switching: false, num_banks: 1 }),
    {
        MemoryConfig { size: 65536, bank_switching: false, num_banks: 1 }
    }
}

/// The size a memory configuration has when it does not say.
pub fn default_memory_size() -> (r: usize)
    ensures
        r == 65536,
{
    65536
}

/// The bank count a memory configuration has when it does not say.
pub fn default_num_banks() -> (r: usize)
    ensures
        r == 1,
{
    1
}

/// Behavioural differences between members of the 6502 family.
#[derive(Debug, Clone, Copy, PartialEq, Eq, Structural)]
pub struct CpuQuirks {
    pub jmp_indirect_bug: bool,
    pub bcd_available: bool,
    pub kil_halts: bool,
    pub rmw: RmwBehavior,
    pub undocumented_ops: bool,
    pub stp_available: bool,
    pub wai_available: bool,
}

/// Quirks of the original NMOS 6502.
pub open spec fn nmos_quirks() -> CpuQuirks {
    CpuQuirks {
        jmp_indirect_bug: true,
        bcd_available: true,
        kil_halts: true,
        rmw: RmwBehavior::Nmos,
        undocumented_ops: true,
        stp_available: false,
        wai_available: false,
    }
}

/// Quirks of the CMOS 65C02 parts.
pub open spec fn cmos_quirks() -> CpuQuirks {
    CpuQuirks {
        jmp_indirect_bug: false,
        bcd_available: true,
        kil_halts: true,
        rmw: RmwBehavior::Cmos,
        undocumented_ops: false,
        stp_available: true,
        wai_available: true,
    }
}

/// Quirks of the Ricoh 2A03 (NMOS core without decimal mode).
pub open spec fn ricoh_quirks() -> CpuQuirks {
    CpuQuirks {
        jmp_indirect_bug: true,
        bcd_available: false,
        kil_halts: true,
        rmw: RmwBehavior::Nmos,
        undocumented_ops: false,
        stp_available: false,
        wai_available: false,
    }
}

impl Default for CpuQuirks {
    fn default() -> (r: Self)
        ensures
            r == nmos_quirks(),
    {
        CpuQuirks {
            jmp_indirect_bug: true,
            bcd_available: true,
            kil_halts: true,
            rmw: RmwBehavior::Nmos,
            undocumented_ops: true,
            stp_available: false,
            wai_available: false,
        }
    }
}

impl CpuQuirks {
    pub fn nmos() -> (r: Self)
        ensures
            r == nmos_quirks(),
    {
        Self::default()
    }

    pub fn cmos() -> (r: Self)
        ensures
            r == cmos_quirks(),
    {
        CpuQuirks {
            jmp_indirect_bug: false,
            bcd_available: true,
            kil_halts: true,
            rmw: RmwBehavior::Cmos,
            undocumented_ops: false,
            stp_available: true,
            wai_available: true,
        }
    }

    pub fn ricoh2a03() -> (r: Self)
        ensures
            r == ricoh_quirks(),
    {
        CpuQuirks {
            jmp_indirect_bug: true,
            bcd_available: false,
            kil_halts: true,
            rmw: RmwBehavior::Nmos,
            undocumented_ops: false,
            stp_available: false,
            wai_available: false,
        }
    }

    pub fn r65c02() -> (r: Self)
        ensures
            r == cmos_quirks(),
    {
        CpuQuirks {
            jmp_indirect_bug: false,
            bcd_available: true,
            kil_halts: true,
            rmw: RmwBehavior::Cmos,
            undocumented_ops: false,
            stp_available: true,
            wai_available: true,
        }
    }
}

/// A complete description of a 6502-based machine: CPU family, quirks,
/// memory layout, start address and interrupt vector locations.
#[derive(Debug, Clone)]
pub struct MachineConfig {
    pub family: CpuFamily,
    pub label: String,
    pub description: String,
    pub quirks: CpuQuirks,
    pub memory: MemoryConfig,
    pub start_address: u16,
    pub reset_vector: u16,
    pub nmi_vector: u16,
    pub irq_vector: u16,
    pub is_apple1: bool,
}

/// The numeric part of a preset: everything but the two descriptive strings.
pub open spec fn preset(
    config: MachineConfig,
    family: CpuFamily,
    quirks: CpuQuirks,
    memory_size: usize,
    start_address: u16,
    is_apple1: bool,
) -> bool {
    &&& config.family == family
    &&& config.quirks == quirks
    &&& config.memory == (MemoryConfig { size: memory_size, bank_switching: false, num_banks: 1 })
    &&& config.start_address == start_address
    &&& config.reset_vector == 0xFFFC
    &&& config.nmi_vector == 0xFFFA
    &&& config.irq_vector == 0xFFFE
    &&& config.is_apple1 == is_apple1
}

/// A copy of a configuration, equal to it in every field.
pub fn copy_config(c: &MachineConfig) -> (r: MachineConfig)
    ensures
        r == *c,
{
    MachineConfig {
        family: c.family,
        label: c.label.clone(),
        description: c.description.clone(),
        quirks: c.quirks,
        memory: c.memory,
        start_address: c.start_address,
        reset_vector: c.reset_vector,
        nmi_vector: c.nmi_vector,
        irq_vector: c.irq_vector,
        is_apple1: c.is_apple1,
    }
}

impl MachineConfig {
    fn standard(
        family: CpuFamily,
        label: &str,
        description: &str,
        quirks: CpuQuirks,
        memory_size: usize,
        start_address: u16,
    ) -> (r: Self)
        ensures
            preset(r, family, quirks, memory_size, start_address, false),
            r.label@ == label@,
            r.description@ == description@,
    {
        MachineConfig {
            family,
            label: label.to_owned(),
            description: description.to_owned(),
            quirks,
            memory: MemoryConfig { size: memory_size, bank_switching: false, num_banks: 1 },
            start_address,
            reset_vector: 0xFFFC,
            nmi_vector: 0xFFFA,
            irq_vector: 0xFFFE,
            is_apple1: false,
        }
    }

    pub fn nmos6502() -> (r: Self)
        ensures
            preset(r, CpuFamily::Nmos6502, nmos_quirks(), 65536, 0x8000, false),
            r.label@ == "MOS 6502 (NMOS)"@,
            r.description@ == "Oryginalny NMOS 6502, 1975. JMP indirect bug, KIL, RMW 2 writes"@,
    {
        Self::standard(
            CpuFamily::Nmos6502,
            "MOS 6502 (NMOS)",
            "Oryginalny NMOS 6502, 1975. JMP indirect bug, KIL, RMW 2 writes",
            CpuQuirks::nmos(),
            65536,
            0x8000,
        )
    }

    pub fn ricoh2a03() -> (r: Self)
        ensures
            preset(r, CpuFamily::Ricoh2A03, ricoh_quirks(), 65536, 0x8000, false),
            r.label@ == "Ricoh 2A03 (NES)"@,
            r.description@ == "NMOS 6502 bez BCD, używany w Nintendo NES/Famicom"@,
    {
        Self::standard(
            CpuFamily::Ricoh2A03,
            "Ricoh 2A03 (NES)",
            "NMOS 6502 bez BCD, używany w Nintendo NES/Famicom",
            CpuQuirks::ricoh2a03(),
            65536,
            0x8000,
        )
    }

    pub fn w65c02() -> (r: Self)
        ensures
            preset(r, CpuFamily::W65C02, cmos_quirks(), 65536, 0x8000, false),
            r.label@ == "WDC W65C02 (CMOS)"@,
            r.description@ == "CMOS 6502: JMP fix, STP, WAI, BCD poprawny, RMW 2 reads"@,
    {
        Self::standard(
            CpuFamily::W65C02,
            "WDC W65C02 (CMOS)",
            "CMOS 6502: JMP fix, STP, WAI, BCD poprawny, RMW 2 reads",
            CpuQuirks::cmos(),
            65536,
            0x8000,
        )
    }

    pub fn r65c02() -> (r: Self)
        ensures
            preset(r, CpuFamily::R65C02, cmos_quirks(), 65536, 0x8000, false),
            r.label@ == "Rockwell R65C02"@,
            r.description@ == "CMOS 6502 z RMB/SMB/BBS/BBR, JMP fix"@,
    {
        Self::standard(
            CpuFamily::R65C02,
            "Rockwell R65C02",
            "CMOS 6502 z RMB/SMB/BBS/BBR, JMP fix",
            CpuQuirks::r65c02(),
            65536,
            0x8000,
        )
    }

    pub fn mos6510() -> (r: Self)
        ensures
            preset(r, CpuFamily::Nmos6510, nmos_quirks(), 65536, 0x8000, false),
            r.label@ == "MOS 6510 (C64)"@,
            r.description@ == "NMOS 6502 z I/O portem, używany w Commodore 64"@,
    {
        Self::standard(
            CpuFamily::Nmos6510,
            "MOS 6510 (C64)",
            "NMOS 6502 z I/O portem, używany w Commodore 64",
            CpuQuirks::nmos(),
            65536,
            0x8000,
        )
    }

    pub fn mos6507() -> (r: Self)
        ensures
            preset(r, CpuFamily::Nmos6507, nmos_quirks(), 8192, 0xF000, false),
            r.label@ == "MOS 6507 (Atari 2600)"@,
            r.description@ == "NMOS 6502 z 13-bitową szyną adresową (8KB przestrzeni)"@,
    {
        Self::standard(
            CpuFamily::Nmos6507,
            "MOS 6507 (Atari 2600)",
            "NMOS 6502 z 13-bitową szyną adresową (8KB przestrzeni)",
            CpuQuirks::nmos(),
            8192,
            0xF000,
        )
    }

    pub fn nmos() -> (r: Self)
        ensures
            preset(r, CpuFamily::Nmos6502, nmos_quirks(), 65536, 0x8000, false),
            r.label@ == "MOS 6502 (NMOS)"@,
            r.description@ == "Oryginalny NMOS 6502, 1975. JMP indirect bug, KIL, RMW 2 writes"@,
    {
        Self::nmos6502()
    }

    pub fn cmos() -> (r: Self)
        ensures
            preset(r, CpuFamily::W65C02, cmos_quirks(), 65536, 0x8000, false),
            r.label@ == "WDC W65C02 (CMOS)"@,
            r.description@ == "CMOS 6502: JMP fix, STP, WAI, BCD poprawny, RMW 2 reads"@,
    {
        Self::w65c02()
    }

    pub fn nes() -> (r: Self)
        ensures
            preset(r, CpuFamily::Ricoh2A03, ricoh_quirks(), 65536, 0x8000, false),
            r.label@ == "Ricoh 2A03 (NES)"@,
            r.description@ == "NMOS 6502 bez BCD, używany w Nintendo NES/Famicom"@,
    {
        Self::ricoh2a03()
    }

    pub fn c64() -> (r: Self)
        ensures
            preset(r, CpuFamily::Nmos6510, nmos_quirks(), 65536, 0x8000, false),
            r.label@ == "MOS 6510 (C64)"@,
            r.description@ == "NMOS 6502 z I/O portem, używany w Commodore 64"@,
    {
        Self::mos6510()
    }

    pub fn atari2600() -> (r: Self)
        ensures
            preset(r, CpuFamily::Nmos6507, nmos_quirks(), 8192, 0xF000, false),
            r.label@ == "MOS 6507 (Atari 2600)"@,
            r.description@ == "NMOS 6502 z 13-bitową szyną adresową (8KB przestrzeni)"@,
    {
        Self::mos6507()
    }

    pub fn apple2() -> (r: Self)
        ensures
            preset(r, CpuFamily::Nmos6502, nmos_quirks(), 65536, 0x8000, false),
            r.label@ == "MOS 6502 (NMOS)"@,
            r.description@ == "Oryginalny NMOS 6502, 1975. JMP indirect bug, KIL, RMW 2 writes"@,
    {
        Self::nmos6502()
    }

    pub fn apple1() -> (r: Self)
        ensures
            preset(r, CpuFamily::Nmos6502, nmos_quirks(), 65536, 0x8000, true),
            r.label@ == "Apple 1"@,
            r.description@ == "Apple 1 — 6502 + PIA 6821 + terminal"@,
    {
        let base = Self::nmos6502();
        MachineConfig {
            label: "Apple 1".to_owned(),
            description: "Apple 1 — 6502 + PIA 6821 + terminal".to_owned(),
            is_apple1: true,
            ..base
        }
    }

    pub fn has_jmp_indirect_bug(&self) -> (r: bool)
        ensures
            r == self.quirks.jmp_indirect_bug,
    {
        self.quirks.jmp_indirect_bug
    }

    pub fn supports_bcd(&self) -> (r: bool)
        ensures
            r == self.quirks.bcd_available,
    {
        self.quirks.bcd_available
    }

    pub fn rmw_behavior(&self) -> (r: RmwBehavior)
        ensures
            r == self.quirks.rmw,
    {
        self.quirks.rmw
    }

    pub fn has_undocumented_ops(&self) -> (r: bool)
        ensures
            r == self.quirks.undocumented_ops,
    {
        self.quirks.undocumented_ops
    }

    pub fn has_stp(&self) -> (r: bool)
        ensures
            r == self.quirks.stp_available,
    {
        self.quirks.stp_available
    }

    pub fn has_wai(&self) -> (r: bool)
        ensures
            r == self.quirks.wai_available,
    {
        self.quirks.wai_available
    }

    pub fn kil_halts(&self) -> (r: bool)
        ensures
            r == self.quirks.kil_halts,
    {
        self.quirks.kil_halts
    }
}

impl Default for MachineConfig {
    fn default() -> (r: Self)
        ensures
            preset(r, CpuFamily::Nmos6502, nmos_quirks(), 65536, 0x8000, false),
            r.label@ == "MOS 6502 (NMOS)"@,
            r.description@ == "Oryginalny NMOS 6502, 1975. JMP indirect bug, KIL, RMW 2 writes"@,
    {
        Self::nmos6502()
    }
}

} // verus!
