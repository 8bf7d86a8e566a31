//! Bits and modes of the 6522 VIA peripheral control register (PCR).
//!
//! Bit 0: CA1 active edge (1 = rising). Bits 3..1: CA2 mode. Bit 4: CB1
//! active edge. Bits 7..5: CB2 mode. Modes: 000 input, 001 independent
//! interrupt input, 100 pulse output, 101 manual low, 110 manual high,
//! 111 handshake output.

use vstd::prelude::*;

verus! {

pub const PCR_CA1_ACTIVE: u8 = 0x01;
pub const PCR_CA2_MODE: u8 = 0x0E;
pub const PCR_CA2_INPUT: u8 = 0x00;
pub const PCR_CA2_IND: u8 = 0x02;
pub const PCR_CA2_PULSE: u8 = 0x08;
pub const PCR_CA2_MAN_L: u8 = 0x0A;
pub const PCR_CA2_MAN_H: u8 = 0x0C;
pub const PCR_CA2_HS: u8 = 0x0E;

pub const PCR_CB1_ACTIVE: u8 = 0x10;
pub const PCR_CB2_MODE: u8 = 0xE0;
pub const PCR_CB2_INPUT: u8 = 0x00;
pub const PCR_CB2_IND: u8 = 0x20;
pub const PCR_CB2_PULSE: u8 = 0x80;
pub const PCR_CB2_MAN_L: u8 = 0xA0;
pub const PCR_CB2_MAN_H: u8 = 0xC0;
pub const PCR_CB2_HS: u8 = 0xE0;

/// Whether CA1's active edge is the rising one.
#[verifier::allow_in_spec]
pub fn ca1_rising(pcr: u8) -> bool
    returns
        pcr & PCR_CA1_ACTIVE != 0,
{
    pcr & PCR_CA1_ACTIVE != 0
}

/// Whether CB1's active edge is the rising one.
#[verifier::allow_in_spec]
pub fn cb1_rising(pcr: u8) -> bool
    returns
        pcr & PCR_CB1_ACTIVE != 0,
{
    pcr & PCR_CB1_ACTIVE != 0
}

/// Whether CA2 is an input (modes 000 and 001).
#[verifier::allow_in_spec]
pub fn ca2_is_input(pcr: u8) -> bool
    returns
        (pcr & PCR_CA2_MODE) <= PCR_CA2_IND,
{
    (pcr & PCR_CA2_MODE) <= PCR_CA2_IND
}

/// Whether CB2 is an input (modes 000 and 001).
#[verifier::allow_in_spec]
pub fn cb2_is_input(pcr: u8) -> bool
    returns
        (pcr & PCR_CB2_MODE) <= PCR_CB2_IND,
{
    (pcr & PCR_CB2_MODE) <= PCR_CB2_IND
}

/// CA2's level in manual mode: low only in manual-low mode.
#[verifier::allow_in_spec]
pub fn ca2_manual_level(pcr: u8) -> bool
    returns
        (pcr & PCR_CA2_MODE) != PCR_CA2_MAN_L,
{
    let m = pcr & PCR_CA2_MODE;
    if m == PCR_CA2_MAN_H {
        true
    } else if m == PCR_CA2_MAN_L {
        false
    } else {
        true
    }
}

/// CB2's level in manual mode: low only in manual-low mode.
#[verifier::allow_in_spec]
pub fn cb2_manual_level(pcr: u8) -> bool
    returns
        (pcr & PCR_CB2_MODE) != PCR_CB2_MAN_L,
{
    let m = pcr & PCR_CB2_MODE;
    if m == PCR_CB2_MAN_H {
        true
    } else if m == PCR_CB2_MAN_L {
        false
    } else {
        true
    }
}

/// Whether CA2 is a handshake output.
#[verifier::allow_in_spec]
pub fn ca2_is_handshake(pcr: u8) -> bool
    returns
        (pcr & PCR_CA2_MODE) == PCR_CA2_HS,
{
    (pcr & PCR_CA2_MODE) == PCR_CA2_HS
}

/// Whether CB2 is a handshake output.
#[verifier::allow_in_spec]
pub fn cb2_is_handshake(pcr: u8) -> bool
    returns
        (pcr & PCR_CB2_MODE) == PCR_CB2_HS,
{
    (pcr & PCR_CB2_MODE) == PCR_CB2_HS
}

/// Whether CA2 is a pulse output.
#[verifier::allow_in_spec]
pub fn ca2_is_pulse(pcr: u8) -> bool
    returns
        (pcr & PCR_CA2_MODE) == PCR_CA2_PULSE,
{
    (pcr & PCR_CA2_MODE) == PCR_CA2_PULSE
}

/// Whether CB2 is a pulse output.
#[verifier::allow_in_spec]
pub fn cb2_is_pulse(pcr: u8) -> bool
    returns
        (pcr & PCR_CB2_MODE) == PCR_CB2_PULSE,
{
    (pcr & PCR_CB2_MODE) == PCR_CB2_PULSE
}

} // verus!
