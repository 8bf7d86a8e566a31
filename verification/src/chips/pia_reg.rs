//! Bits of the 6520/6821 PIA control registers (CRA, CRB).
//!
//! Layout: bit 0 C1 active transition (1 = rising), bit 1 C2 control,
//! bit 2 data-direction select, bits 3-5 C2 mode, bit 6 IRQ 1 flag,
//! bit 7 IRQ 2 flag. Bits 0-5 are writable, the flags are read-only.

use vstd::prelude::*;

verus! {

pub const CRA_WRITE_MASK: u8 = 0x3F;
pub const CRB_WRITE_MASK: u8 = 0x3F;
pub const CRA_FLAG_MASK: u8 = 0xC0;
pub const CRB_FLAG_MASK: u8 = 0xC0;

pub const CRA_CA1_ACTIVE: u8 = 0x01;
pub const CRA_CA2_CTL: u8 = 0x02;
pub const CRA_DDR_SEL: u8 = 0x04;
pub const CRA_CA2_MODE_LO: u8 = 0x08;
pub const CRA_CA2_MODE_MID: u8 = 0x10;
pub const CRA_CA2_MODE_HI: u8 = 0x20;
pub const CRA_IRQ_A1: u8 = 0x40;
pub const CRA_IRQ_A2: u8 = 0x80;

pub const CRB_CB1_ACTIVE: u8 = 0x01;
pub const CRB_CB2_CTL: u8 = 0x02;
pub const CRB_DDR_SEL: u8 = 0x04;
pub const CRB_CB2_MODE_LO: u8 = 0x08;
pub const CRB_CB2_MODE_MID: u8 = 0x10;
pub const CRB_CB2_MODE_HI: u8 = 0x20;
pub const CRB_IRQ_B1: u8 = 0x40;
pub const CRB_IRQ_B2: u8 = 0x80;

pub const IRQ_A1_MASK: u8 = 0x40;
pub const IRQ_A2_MASK: u8 = 0x80;
pub const IRQ_B1_MASK: u8 = 0x40;
pub const IRQ_B2_MASK: u8 = 0x80;

/// Whether data accesses of port A reach the output register (else the DDR).
#[verifier::allow_in_spec]
pub fn cra_ddr_sel(cra: u8) -> bool
    returns
        cra & CRA_DDR_SEL != 0,
{
    cra & CRA_DDR_SEL != 0
}

/// Whether data accesses of port B reach the output register (else the DDR).
#[verifier::allow_in_spec]
pub fn crb_ddr_sel(crb: u8) -> bool
    returns
        crb & CRB_DDR_SEL != 0,
{
    crb & CRB_DDR_SEL != 0
}

/// Whether CA1's active transition is the rising one.
#[verifier::allow_in_spec]
pub fn cra_ca1_active(cra: u8) -> bool
    returns
        cra & CRA_CA1_ACTIVE != 0,
{
    cra & CRA_CA1_ACTIVE != 0
}

/// Whether CB1's active transition is the rising one.
#[verifier::allow_in_spec]
pub fn crb_cb1_active(crb: u8) -> bool
    returns
        crb & CRB_CB1_ACTIVE != 0,
{
    crb & CRB_CB1_ACTIVE != 0
}

/// Whether CA2's control bit is set.
#[verifier::allow_in_spec]
pub fn cra_ca2_active(cra: u8) -> bool
    returns
        cra & CRA_CA2_CTL != 0,
{
    cra & CRA_CA2_CTL != 0
}

/// Whether CB2's control bit is set.
#[verifier::allow_in_spec]
pub fn crb_cb2_active(crb: u8) -> bool
    returns
        crb & CRB_CB2_CTL != 0,
{
    crb & CRB_CB2_CTL != 0
}

/// CA2's control bit (its level in manual output mode).
#[verifier::allow_in_spec]
pub fn cra_ca2_bit(cra: u8) -> bool
    returns
        cra & CRA_CA2_CTL != 0,
{
    cra & CRA_CA2_CTL != 0
}

/// CB2's control bit (its level in manual output mode).
#[verifier::allow_in_spec]
pub fn crb_cb2_bit(crb: u8) -> bool
    returns
        crb & CRB_CB2_CTL != 0,
{
    crb & CRB_CB2_CTL != 0
}

/// CA2 mode: bits 5..3 of CRA.
#[verifier::allow_in_spec]
pub fn ca2_mode(cra: u8) -> u8
    returns
        (cra >> 3u8) & 0x07,
{
    (cra >> 3) & 0x07
}

/// CB2 mode: bits 5..3 of CRB.
#[verifier::allow_in_spec]
pub fn cb2_mode(crb: u8) -> u8
    returns
        (crb >> 3u8) & 0x07,
{
    (crb >> 3) & 0x07
}

/// CA2 is an output in modes 2 and up.
#[verifier::allow_in_spec]
pub fn ca2_is_output(cra: u8) -> bool
    returns
        ca2_mode(cra) >= 2,
{
    let m = ca2_mode(cra);
    m >= 0b010
}

/// CB2 is an output in modes 2 and up.
#[verifier::allow_in_spec]
pub fn cb2_is_output(crb: u8) -> bool
    returns
        cb2_mode(crb) >= 2,
{
    let m = cb2_mode(crb);
    m >= 0b010
}

/// IRQ A1 is enabled when CRA bit 0 enables interrupt generation.
#[verifier::allow_in_spec]
pub fn cra_irq_a1_enabled(cra: u8) -> bool
    returns
        cra & 0x01 != 0,
{
    cra & 0x01 != 0
}

/// IRQ A2 has no separate enable: its flag, once set by a transition,
/// drives IRQ until the data register is read.
#[verifier::allow_in_spec]
pub fn cra_irq_a2_enabled(cra: u8) -> bool
    returns
        true,
{
    true
}

#[verifier::allow_in_spec]
pub fn crb_irq_b1_enabled(crb: u8) -> bool
    returns
        true,
{
    true
}

#[verifier::allow_in_spec]
pub fn crb_irq_b2_enabled(crb: u8) -> bool
    returns
        true,
{
    true
}

} // verus!
