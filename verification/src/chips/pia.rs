//! The 6520/6821 PIA (peripheral interface adapter): two 8-bit ports with
//! data direction registers, and two control registers.
//!
//! Register map (address modulo 4): 0 port A data, 1 port A control,
//! 2 port B data, 3 port B control. A data read gives the output register
//! on bits whose direction is output (1) and the pins on input bits (0).

use vstd::prelude::*;

verus! {

/// A 6821 PIA.
pub struct Pia6821 {
    /// Output registers.
    pub ora: u8,
    pub orb: u8,
    /// Data direction registers (1 = output).
    pub ddra: u8,
    pub ddrb: u8,
    /// Control registers.
    pub cra: u8,
    pub crb: u8,
    /// Latched pin values.
    pub input_a: u8,
    pub input_b: u8,
}

/// A port as read: output bits from the output register, input bits from the pins.
pub open spec fn port_value(output: u8, ddr: u8, pins: u8) -> u8 {
    (output & ddr) | (pins & !ddr)
}

/// The byte a register read gives: the data registers show the output
/// latch on output bits and the pins on input bits.
pub open spec fn read_spec(p: Pia6821, addr: u16, port_a_input: u8, port_b_input: u8) -> u8 {
    let reg = addr & 3;
    if reg == 0 {
        port_value(p.ora, p.ddra, port_a_input)
    } else if reg == 1 {
        p.cra
    } else if reg == 2 {
        port_value(p.orb, p.ddrb, port_b_input)
    } else {
        p.crb
    }
}

/// The chip after a register write.
pub open spec fn write_spec(p: Pia6821, addr: u16, val: u8) -> Pia6821 {
    let reg = addr & 3;
    if reg == 0 {
        Pia6821 { ora: val, ..p }
    } else if reg == 1 {
        Pia6821 { cra: val, ..p }
    } else if reg == 2 {
        Pia6821 { orb: val, ..p }
    } else {
        Pia6821 { crb: val, ..p }
    }
}

impl Pia6821 {
    /// The state after reset: all registers zero.
    pub open spec fn new_spec() -> Pia6821 {
        Pia6821 { ora: 0, orb: 0, ddra: 0, ddrb: 0, cra: 0, crb: 0, input_a: 0, input_b: 0 }
    }

    /// All registers zero: every pin an input.
    pub fn new() -> (r: Self)
        ensures
            r == Self::new_spec(),
    {
        Pia6821 { ora: 0, orb: 0, ddra: 0, ddrb: 0, cra: 0, crb: 0, input_a: 0, input_b: 0 }
    }

    /// Reads a register; `port_a_input` and `port_b_input` are the pin
    /// values that input bits show.
    pub fn read(&self, addr: u16, port_a_input: u8, port_b_input: u8) -> (r: u8)
        ensures
            r == read_spec(*self, addr, port_a_input, port_b_input),
            addr & 3 == 0 ==> r == port_value(self.ora, self.ddra, port_a_input),
            addr & 3 == 1 ==> r == self.cra,
            addr & 3 == 2 ==> r == port_value(self.orb, self.ddrb, port_b_input),
            addr & 3 == 3 ==> r == self.crb,
    {
        let reg = addr & 3;
        if reg == 0 {
            (self.ora & self.ddra) | (port_a_input & !self.ddra)
        } else if reg == 1 {
            self.cra
        } else if reg == 2 {
            (self.orb & self.ddrb) | (port_b_input & !self.ddrb)
        } else {
            proof {
                crate::bits::lemma_low_bits(addr);
            }
            self.crb
        }
    }

    /// Writes a register: an output register or a control register.
    pub fn write(&mut self, addr: u16, val: u8)
        ensures
            *final(self) == write_spec(*old(self), addr, val),
            addr & 3 == 0 ==> *final(self) == (Pia6821 { ora: val, ..*old(self) }),
            addr & 3 == 1 ==> *final(self) == (Pia6821 { cra: val, ..*old(self) }),
            addr & 3 == 2 ==> *final(self) == (Pia6821 { orb: val, ..*old(self) }),
            addr & 3 == 3 ==> *final(self) == (Pia6821 { crb: val, ..*old(self) }),
    {
        let reg = addr & 3;
        if reg == 0 {
            self.ora = val;
        } else if reg == 1 {
            self.cra = val;
        } else if reg == 2 {
            self.orb = val;
        } else {
            proof {
                crate::bits::lemma_low_bits(addr);
            }
            self.crb = val;
        }
    }

    /// Latches the pin values of port A.
    pub fn set_input_a(&mut self, val: u8)
        ensures
            *final(self) == (Pia6821 { input_a: val, ..*old(self) }),
    {
        self.input_a = val;
    }

    /// Latches the pin values of port B.
    pub fn set_input_b(&mut self, val: u8)
        ensures
            *final(self) == (Pia6821 { input_b: val, ..*old(self) }),
    {
        self.input_b = val;
    }

    /// The value driven on port A's output pins.
    pub fn output_a(&self) -> (r: u8)
        ensures
            r == self.ora & self.ddra,
    {
        self.ora & self.ddra
    }

    /// The value driven on port B's output pins.
    pub fn output_b(&self) -> (r: u8)
        ensures
            r == self.orb & self.ddrb,
    {
        self.orb & self.ddrb
    }
}

/// What a read gives back of a write to the same register: a control
/// register gives the written value; a data register gives the written
/// value on its output bits (DDR bits set) and the pins on its input bits.
pub proof fn lemma_write_then_read(p: Pia6821, addr: u16, val: u8, pins: u8)
    ensures
        ({
            let q = write_spec(p, addr, val);
            let reg = addr & 3;
            let ddr = if reg == 0 { p.ddra } else { p.ddrb };
            let r = read_spec(q, addr, pins, pins);
            &&& (reg == 1 || reg == 3) ==> r == val
            &&& (reg == 0 || reg == 2) ==> r & ddr == val & ddr && r & !ddr == pins & !ddr
        }),
{
    let d = if addr & 3 == 0 { p.ddra } else { p.ddrb };
    assert(((val & d) | (pins & !d)) & d == val & d && ((val & d) | (pins & !d)) & !d == pins & !d) by (bit_vector);
}

} // verus!
