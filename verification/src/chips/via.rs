//! The 6522 VIA (versatile interface adapter): two ports with data
//! direction registers, two 16-bit timers, a shift register, the CA/CB
//! control lines, and the interrupt flag and enable registers.
//!
//! Register map (address modulo 16): 0 ORB, 1 ORA (with handshake),
//! 2 DDRB, 3 DDRA, 4/5 T1 counter low/high, 6/7 T1 latch low/high,
//! 8/9 T2 low/high, 10 shift register, 11 ACR, 12 PCR, 13 IFR, 14 IER,
//! 15 ORA (no handshake).

use vstd::prelude::*;
use crate::chips::via_reg::{
    ca1_rising, cb1_rising, ca2_is_input, cb2_is_input, ca2_manual_level, cb2_manual_level,
    ca2_is_handshake, cb2_is_handshake, ca2_is_pulse, cb2_is_pulse,
};

verus! {

pub const IRQ_CA2: u8 = 0x01;
pub const IRQ_CA1: u8 = 0x02;
pub const IRQ_SR: u8 = 0x04;
pub const IRQ_CB2: u8 = 0x08;
pub const IRQ_CB1: u8 = 0x10;
pub const IRQ_T2: u8 = 0x20;
pub const IRQ_T1: u8 = 0x40;
pub const IRQ_ALL: u8 = 0x7F;

/// A 6522 VIA.
pub struct Via6522 {
    /// Port output registers.
    pub ora: u8,
    pub orb: u8,
    /// Data direction registers (1 = output).
    pub ddra: u8,
    pub ddrb: u8,
    /// Auxiliary and peripheral control registers.
    pub acr: u8,
    pub pcr: u8,
    /// Interrupt flag and enable registers.
    pub ifr: u8,
    pub ier: u8,
    /// Shift register.
    pub sr: u8,
    /// Pin values of the ports.
    pub input_a: u8,
    pub input_b: u8,
    pub t1_counter: u16,
    pub t1_latch: u16,
    /// The PB7 level that timer 1 drives.
    pub t1_pb7: bool,
    pub t2_counter: u16,
    pub t2_latch: u16,
    /// Timer 2 counts PB6 pulses instead of cycles.
    pub t2_pb6_count: bool,
    /// Control line levels, and the levels driven on CA2/CB2.
    pub ca1: bool,
    pub ca2: bool,
    pub ca2_out: bool,
    pub cb1: bool,
    pub cb2: bool,
    pub cb2_out: bool,
    pub sr_bits: u8,
    pub sr_count: u8,
    /// The interrupt line.
    pub irq: bool,
}

// ───────────────────────── the model ─────────────────────────

/// IFR bit 7 and the IRQ line set from whether an enabled flag is pending.
pub open spec fn refresh_irq(v: Via6522) -> Via6522 {
    if v.ifr & v.ier & IRQ_ALL != 0 {
        Via6522 { ifr: v.ifr | 0x80, irq: true, ..v }
    } else {
        Via6522 { ifr: v.ifr & 0x7F, irq: false, ..v }
    }
}

/// Interrupt flags `bits` raised.
pub open spec fn flags_set(v: Via6522, bits: u8) -> Via6522 {
    refresh_irq(Via6522 { ifr: v.ifr | (bits & IRQ_ALL), ..v })
}

/// Interrupt flags `bits` cleared.
pub open spec fn flags_cleared(v: Via6522, bits: u8) -> Via6522 {
    refresh_irq(Via6522 { ifr: v.ifr & !(bits & IRQ_ALL), ..v })
}

/// CA2 pulled low when it is a handshake or pulse output.
pub open spec fn ca2_strobed(v: Via6522) -> Via6522 {
    if ca2_is_handshake(v.pcr) || ca2_is_pulse(v.pcr) {
        Via6522 { ca2_out: false, ..v }
    } else {
        v
    }
}

/// CB2 pulled low when it is a handshake or pulse output.
pub open spec fn cb2_strobed(v: Via6522) -> Via6522 {
    if cb2_is_handshake(v.pcr) || cb2_is_pulse(v.pcr) {
        Via6522 { cb2_out: false, ..v }
    } else {
        v
    }
}

/// CA2 back high when it is a handshake or pulse output.
pub open spec fn ca2_restored(v: Via6522) -> Via6522 {
    if ca2_is_handshake(v.pcr) || ca2_is_pulse(v.pcr) {
        Via6522 { ca2_out: true, ..v }
    } else {
        v
    }
}

/// CB2 back high when it is a handshake or pulse output.
pub open spec fn cb2_restored(v: Via6522) -> Via6522 {
    if cb2_is_handshake(v.pcr) || cb2_is_pulse(v.pcr) {
        Via6522 { cb2_out: true, ..v }
    } else {
        v
    }
}

/// A port as read: output bits from the output register, input bits from the pins.
pub open spec fn port_value(output: u8, ddr: u8, pins: u8) -> u8 {
    (output & ddr) | (pins & !ddr)
}

/// A port A data access: in handshake mode (and when the access
/// handshakes), the CA1 flag is cleared and CA2 strobed.
pub open spec fn porta_accessed(v: Via6522, handshake: bool) -> Via6522 {
    if handshake && ca2_is_handshake(v.pcr) {
        ca2_strobed(flags_cleared(v, IRQ_CA1))
    } else {
        v
    }
}

/// A port B data access: in handshake mode the CB1 flag is cleared and CB2 strobed.
pub open spec fn portb_accessed(v: Via6522) -> Via6522 {
    if cb2_is_handshake(v.pcr) {
        cb2_strobed(flags_cleared(v, IRQ_CB1))
    } else {
        v
    }
}

/// The level a control line C2 rests at for a PCR: high as an input or a
/// handshake/pulse output, else the manual level.
pub open spec fn ca2_level(pcr: u8) -> bool {
    if ca2_is_input(pcr) || ca2_is_handshake(pcr) || ca2_is_pulse(pcr) {
        true
    } else {
        ca2_manual_level(pcr)
    }
}

pub open spec fn cb2_level(pcr: u8) -> bool {
    if cb2_is_input(pcr) || cb2_is_handshake(pcr) || cb2_is_pulse(pcr) {
        true
    } else {
        cb2_manual_level(pcr)
    }
}

/// The byte a register read returns, and the chip after the read.
pub open spec fn read_spec(v: Via6522, addr: u16) -> (u8, Via6522) {
    let reg = addr & 0x0F;
    if reg == 0 {
        let v1 = portb_accessed(v);
        (port_value(v1.orb, v1.ddrb, v1.input_b), v1)
    } else if reg == 1 || reg == 15 {
        let v1 = porta_accessed(v, reg == 1);
        (port_value(v1.ora, v1.ddra, v1.input_a), v1)
    } else if reg == 2 {
        (v.ddrb, v)
    } else if reg == 3 {
        (v.ddra, v)
    } else if reg == 4 {
        ((v.t1_counter & 0xFF) as u8, v)
    } else if reg == 5 {
        ((v.t1_counter >> 8u16) as u8, flags_cleared(v, IRQ_T1))
    } else if reg == 6 {
        ((v.t1_latch & 0xFF) as u8, v)
    } else if reg == 7 {
        ((v.t1_latch >> 8u16) as u8, v)
    } else if reg == 8 {
        ((v.t2_counter & 0xFF) as u8, v)
    } else if reg == 9 {
        ((v.t2_counter >> 8u16) as u8, flags_cleared(v, IRQ_T2))
    } else if reg == 10 {
        (v.sr, flags_cleared(v, IRQ_SR))
    } else if reg == 11 {
        (v.acr, v)
    } else if reg == 12 {
        (v.pcr, v)
    } else if reg == 13 {
        (v.ifr, v)
    } else {
        (v.ier | 0x80, v)
    }
}

/// The low byte of a 16-bit latch replaced.
pub open spec fn with_low(w: u16, b: u8) -> u16 {
    (w & 0xFF00) | (b as u16)
}

/// The high byte of a 16-bit latch replaced.
pub open spec fn with_high(w: u16, b: u8) -> u16 {
    (w & 0x00FF) | ((b as u16) << 8u16)
}

/// The chip after a register write.
pub open spec fn write_spec(v: Via6522, addr: u16, val: u8) -> Via6522 {
    let reg = addr & 0x0F;
    if reg == 0 {
        portb_accessed(Via6522 { orb: val, ..v })
    } else if reg == 1 || reg == 15 {
        porta_accessed(Via6522 { ora: val, ..v }, true)
    } else if reg == 2 {
        Via6522 { ddrb: val, ..v }
    } else if reg == 3 {
        Via6522 { ddra: val, ..v }
    } else if reg == 4 || reg == 6 {
        Via6522 { t1_latch: with_low(v.t1_latch, val), ..v }
    } else if reg == 5 {
        let latch = with_high(v.t1_latch, val);
        Via6522 { t1_pb7: false, ..flags_cleared(Via6522 { t1_latch: latch, t1_counter: latch, ..v }, IRQ_T1) }
    } else if reg == 7 {
        Via6522 { t1_latch: with_high(v.t1_latch, val), ..v }
    } else if reg == 8 {
        Via6522 { t2_latch: with_low(v.t2_latch, val), ..v }
    } else if reg == 9 {
        let latch = with_high(v.t2_latch, val);
        Via6522 {
            t2_pb6_count: v.acr & 0x20 != 0,
            ..flags_cleared(Via6522 { t2_latch: latch, t2_counter: latch, ..v }, IRQ_T2)
        }
    } else if reg == 10 {
        flags_cleared(Via6522 { sr: val, sr_bits: 0, sr_count: 0, ..v }, IRQ_SR)
    } else if reg == 11 {
        Via6522 { acr: val, ..v }
    } else if reg == 12 {
        Via6522 { pcr: val, ca2_out: ca2_level(val), cb2_out: cb2_level(val), ..v }
    } else if reg == 13 {
        refresh_irq(Via6522 { ifr: v.ifr & !(val & IRQ_ALL), ..v })
    } else {
        let ier = if val & 0x80 != 0 { v.ier | (val & IRQ_ALL) } else { v.ier & !(val & IRQ_ALL) };
        refresh_irq(Via6522 { ier, ..v })
    }
}

/// The chip after the CA1 input goes to `level`: on a change to the active
/// edge, the CA1 flag is raised and a CA2 handshake/pulse output restored.
pub open spec fn ca1_input(v: Via6522, level: bool) -> Via6522 {
    if level == v.ca1 {
        v
    } else {
        let v1 = if level == ca1_rising(v.pcr) { ca2_restored(flags_set(v, IRQ_CA1)) } else { v };
        Via6522 { ca1: level, ..v1 }
    }
}

/// The chip after the CB1 input goes to `level`.
pub open spec fn cb1_input(v: Via6522, level: bool) -> Via6522 {
    if level == v.cb1 {
        v
    } else {
        let v1 = if level == cb1_rising(v.pcr) { cb2_restored(flags_set(v, IRQ_CB1)) } else { v };
        Via6522 { cb1: level, ..v1 }
    }
}

/// The chip after the CA2 input goes to `level`: as an input, a rise
/// raises the CA2 flag.
pub open spec fn ca2_input(v: Via6522, level: bool) -> Via6522 {
    if ca2_is_input(v.pcr) {
        if level == v.ca2 {
            v
        } else {
            let v1 = if level { flags_set(v, IRQ_CA2) } else { v };
            Via6522 { ca2: level, ..v1 }
        }
    } else {
        Via6522 { ca2: level, ..v }
    }
}

/// The chip after the CB2 input goes to `level`.
pub open spec fn cb2_input(v: Via6522, level: bool) -> Via6522 {
    if cb2_is_input(v.pcr) {
        if level == v.cb2 {
            v
        } else {
            let v1 = if level { flags_set(v, IRQ_CB2) } else { v };
            Via6522 { cb2: level, ..v1 }
        }
    } else {
        Via6522 { cb2: level, ..v }
    }
}

/// One cycle: a running timer 1 counts down, and on reaching zero raises
/// its flag, toggles PB7 and (free-running) reloads from the latch; timer 2
/// in timed mode counts down and raises its flag on reaching zero.
pub open spec fn cycle(v: Via6522, t1_free: bool) -> Via6522 {
    timer2_cycle_spec(timer1_cycle_spec(v, t1_free))
}

/// Timer 1's part of a cycle.
pub open spec fn timer1_cycle_spec(v: Via6522, t1_free: bool) -> Via6522 {
    if v.t1_counter > 0 {
        let c = (v.t1_counter - 1) as u16;
        if c == 0 {
            let v2 = flags_set(Via6522 { t1_counter: 0, ..v }, IRQ_T1);
            Via6522 { t1_pb7: !v2.t1_pb7, t1_counter: if t1_free { v2.t1_latch } else { 0 }, ..v2 }
        } else {
            Via6522 { t1_counter: c, ..v }
        }
    } else {
        v
    }
}

/// Timer 2's part of a cycle (in timed mode).
pub open spec fn timer2_cycle_spec(v1: Via6522) -> Via6522 {
    if !v1.t2_pb6_count && v1.t2_counter > 0 {
        let c = (v1.t2_counter - 1) as u16;
        if c == 0 {
            flags_set(Via6522 { t2_counter: 0, ..v1 }, IRQ_T2)
        } else {
            Via6522 { t2_counter: c, ..v1 }
        }
    } else {
        v1
    }
}

/// `n` cycles.
pub open spec fn cycles(v: Via6522, t1_free: bool, n: nat) -> Via6522
    decreases n,
{
    if n == 0 {
        v
    } else {
        cycle(cycles(v, t1_free, (n - 1) as nat), t1_free)
    }
}

impl Via6522 {
    /// The IRQ line, and IFR bit 7, show whether an enabled flag is pending.
    pub open spec fn inv(&self) -> bool {
        &&& self.irq == (self.ifr & self.ier & IRQ_ALL != 0)
        &&& (self.ifr & 0x80 != 0) == self.irq
    }

    /// The state after reset.
    pub open spec fn new_spec() -> Via6522 {
        Via6522 {
                ora: 0,
                orb: 0,
                ddra: 0,
                ddrb: 0,
                acr: 0,
                pcr: 0,
                ifr: 0,
                ier: 0,
                sr: 0,
                input_a: 0,
                input_b: 0,
                t1_counter: 0,
                t1_latch: 0xFFFF,
                t1_pb7: false,
                t2_counter: 0,
                t2_latch: 0xFFFF,
                t2_pb6_count: false,
                ca1: false,
                ca2: false,
                ca2_out: true,
                cb1: false,
                cb2: false,
                cb2_out: true,
                sr_bits: 0,
                sr_count: 0,
                irq: false,
            }
    }

    /// Every register zero, latches all ones, CA2/CB2 outputs high.
    pub fn new() -> (r: Self)
        ensures
            r == Self::new_spec(),
            r.inv(),
    {
        let r = Via6522 {
            ora: 0,
            orb: 0,
            ddra: 0,
            ddrb: 0,
            acr: 0,
            pcr: 0,
            ifr: 0,
            ier: 0,
            sr: 0,
            input_a: 0,
            input_b: 0,
            t1_counter: 0,
            t1_latch: 0xFFFF,
            t1_pb7: false,
            t2_counter: 0,
            t2_latch: 0xFFFF,
            t2_pb6_count: false,
            ca1: false,
            ca2: false,
            ca2_out: true,
            cb1: false,
            cb2: false,
            cb2_out: true,
            sr_bits: 0,
            sr_count: 0,
            irq: false,
        };
        assert(0u8 & 0u8 & 0x7Fu8 == 0 && 0u8 & 0x80u8 == 0) by (bit_vector);
        r
    }

    /// The value driven on port A's output pins.
    pub fn port_a_output(&self) -> (r: u8)
        ensures
            r == self.ora & self.ddra,
    {
        self.ora & self.ddra
    }

    /// The value driven on port B's output pins.
    pub fn port_b_output(&self) -> (r: u8)
        ensures
            r == self.orb & self.ddrb,
    {
        self.orb & self.ddrb
    }

    /// Sets the pin values of port A.
    pub fn set_input_a(&mut self, val: u8)
        ensures
            *final(self) == (Via6522 { input_a: val, ..*old(self) }),
    {
        self.input_a = val;
    }

    /// Sets the pin values of port B.
    pub fn set_input_b(&mut self, val: u8)
        ensures
            *final(self) == (Via6522 { input_b: val, ..*old(self) }),
    {
        self.input_b = val;
    }

    fn update_irq(&mut self)
        ensures
            *final(self) == refresh_irq(*old(self)),
            final(self).inv(),
    {
        let ghost f = self.ifr;
        let ghost e = self.ier;
        assert(((f | 0x80) & e & 0x7F) == (f & e & 0x7F) && (f | 0x80) & 0x80 != 0 && ((f & 0x7F) & e & 0x7F) == (f
            & e & 0x7F) && (f & 0x7F) & 0x80 == 0) by (bit_vector);
        let pending = self.ifr & self.ier & IRQ_ALL;
        if pending != 0 {
            self.ifr = self.ifr | 0x80;
            self.irq = true;
        } else {
            self.ifr = self.ifr & 0x7F;
            self.irq = false;
        }
    }

    /// Raises interrupt flags (bit 7 of `bits` is ignored).
    pub fn ifr_set(&mut self, bits: u8)
        ensures
            *final(self) == flags_set(*old(self), bits),
            final(self).inv(),
    {
        self.ifr = self.ifr | (bits & IRQ_ALL);
        self.update_irq();
    }

    /// Clears interrupt flags (bit 7 of `bits` is ignored).
    pub fn ifr_clear(&mut self, bits: u8)
        ensures
            *final(self) == flags_cleared(*old(self), bits),
            final(self).inv(),
    {
        self.ifr = self.ifr & !(bits & IRQ_ALL);
        self.update_irq();
    }

    fn ca2_handshake_strobe(&mut self)
        ensures
            *final(self) == ca2_strobed(*old(self)),
    {
        if ca2_is_handshake(self.pcr) || ca2_is_pulse(self.pcr) {
            self.ca2_out = false;
        }
    }

    fn cb2_handshake_strobe(&mut self)
        ensures
            *final(self) == cb2_strobed(*old(self)),
    {
        if cb2_is_handshake(self.pcr) || cb2_is_pulse(self.pcr) {
            self.cb2_out = false;
        }
    }

    fn ca2_handshake_restore(&mut self)
        ensures
            *final(self) == ca2_restored(*old(self)),
    {
        if ca2_is_handshake(self.pcr) {
            self.ca2_out = true;
        }
        if ca2_is_pulse(self.pcr) {
            self.ca2_out = true;
        }
    }

    fn cb2_handshake_restore(&mut self)
        ensures
            *final(self) == cb2_restored(*old(self)),
    {
        if cb2_is_handshake(self.pcr) {
            self.cb2_out = true;
        }
        if cb2_is_pulse(self.pcr) {
            self.cb2_out = true;
        }
    }

    /// The CA1 input goes to `level`.
    pub fn set_ca1(&mut self, level: bool)
        ensures
            *final(self) == ca1_input(*old(self), level),
            old(self).inv() ==> final(self).inv(),
    {
        if level == self.ca1 {
            return;
        }
        let edge = level;
        if edge == ca1_rising(self.pcr) {
            self.ifr_set(IRQ_CA1);
            self.ca2_handshake_restore();
        }
        self.ca1 = level;
    }

    /// The CA2 input goes to `level`.
    pub fn set_ca2(&mut self, level: bool)
        ensures
            *final(self) == ca2_input(*old(self), level),
            old(self).inv() ==> final(self).inv(),
    {
        if ca2_is_input(self.pcr) {
            if level == self.ca2 {
                return;
            }
            if level {
                self.ifr_set(IRQ_CA2);
            }
        }
        self.ca2 = level;
    }

    /// The CB1 input goes to `level`.
    pub fn set_cb1(&mut self, level: bool)
        ensures
            *final(self) == cb1_input(*old(self), level),
            old(self).inv() ==> final(self).inv(),
    {
        if level == self.cb1 {
            return;
        }
        let edge = level;
        if edge == cb1_rising(self.pcr) {
            self.ifr_set(IRQ_CB1);
            self.cb2_handshake_restore();
        }
        self.cb1 = level;
    }

    /// The CB2 input goes to `level`.
    pub fn set_cb2(&mut self, level: bool)
        ensures
            *final(self) == cb2_input(*old(self), level),
            old(self).inv() ==> final(self).inv(),
    {
        if cb2_is_input(self.pcr) {
            if level == self.cb2 {
                return;
            }
            if level {
                self.ifr_set(IRQ_CB2);
            }
        }
        self.cb2 = level;
    }

    /// A pulse on CA1: up, then down.
    pub fn trigger_ca1(&mut self)
        ensures
            *final(self) == ca1_input(ca1_input(*old(self), true), false),
            old(self).inv() ==> final(self).inv(),
    {
        self.set_ca1(true);
        self.set_ca1(false);
    }

    /// A pulse on CB1: up, then down.
    pub fn trigger_cb1(&mut self)
        ensures
            *final(self) == cb1_input(cb1_input(*old(self), true), false),
            old(self).inv() ==> final(self).inv(),
    {
        self.set_cb1(true);
        self.set_cb1(false);
    }

    /// The level driven on CA2.
    pub fn ca2_output(&self) -> (r: bool)
        ensures
            r == self.ca2_out,
    {
        self.ca2_out
    }

    /// The level driven on CB2.
    pub fn cb2_output(&self) -> (r: bool)
        ensures
            r == self.cb2_out,
    {
        self.cb2_out
    }

    fn read_porta(&mut self, no_handshake: bool) -> (r: u8)
        ensures
            *final(self) == porta_accessed(*old(self), !no_handshake),
            r == port_value(final(self).ora, final(self).ddra, final(self).input_a),
            old(self).inv() ==> final(self).inv(),
    {
        if !no_handshake && ca2_is_handshake(self.pcr) {
            self.ifr_clear(IRQ_CA1);
            self.ca2_handshake_strobe();
        }
        (self.ora & self.ddra) | (self.input_a & !self.ddra)
    }

    fn read_portb(&mut self) -> (r: u8)
        ensures
            *final(self) == portb_accessed(*old(self)),
            r == port_value(final(self).orb, final(self).ddrb, final(self).input_b),
            old(self).inv() ==> final(self).inv(),
    {
        if cb2_is_handshake(self.pcr) {
            self.ifr_clear(IRQ_CB1);
            self.cb2_handshake_strobe();
        }
        (self.orb & self.ddrb) | (self.input_b & !self.ddrb)
    }

    /// Reads a register (address modulo 16).
    pub fn read(&mut self, addr: u16) -> (r: u8)
        ensures
            (r, *final(self)) == read_spec(*old(self), addr),
            old(self).inv() ==> final(self).inv(),
    {
        let reg = addr & 0x0F;
        proof {
            crate::bits::lemma_low_bits(addr);
        }
        if reg == 0 {
            self.read_portb()
        } else if reg == 1 {
            self.read_porta(false)
        } else if reg == 2 {
            self.ddrb
        } else if reg == 3 {
            self.ddra
        } else if reg == 4 {
            (self.t1_counter & 0xFF) as u8
        } else if reg == 5 {
            let h = (self.t1_counter >> 8) as u8;
            self.ifr_clear(IRQ_T1);
            h
        } else if reg == 6 {
            (self.t1_latch & 0xFF) as u8
        } else if reg == 7 {
            (self.t1_latch >> 8) as u8
        } else if reg == 8 {
            (self.t2_counter & 0xFF) as u8
        } else if reg == 9 {
            let h = (self.t2_counter >> 8) as u8;
            self.ifr_clear(IRQ_T2);
            h
        } else if reg == 10 {
            self.ifr_clear(IRQ_SR);
            self.sr
        } else if reg == 11 {
            self.acr
        } else if reg == 12 {
            self.pcr
        } else if reg == 13 {
            self.ifr
        } else if reg == 14 {
            self.ier | 0x80
        } else {
            self.read_porta(true)
        }
    }

    fn write_portb(&mut self, val: u8)
        ensures
            *final(self) == portb_accessed(Via6522 { orb: val, ..*old(self) }),
            old(self).inv() ==> final(self).inv(),
    {
        self.orb = val;
        if cb2_is_handshake(self.pcr) {
            self.ifr_clear(IRQ_CB1);
            self.cb2_handshake_strobe();
        }
    }

    fn write_porta(&mut self, val: u8)
        ensures
            *final(self) == porta_accessed(Via6522 { ora: val, ..*old(self) }, true),
            old(self).inv() ==> final(self).inv(),
    {
        self.ora = val;
        if ca2_is_handshake(self.pcr) {
            self.ifr_clear(IRQ_CA1);
            self.ca2_handshake_strobe();
        }
    }

    fn t1_write_hi(&mut self, val: u8)
        ensures
            ({
                let latch = with_high(old(self).t1_latch, val);
                *final(self) == (Via6522 {
                    t1_pb7: false,
                    ..flags_cleared(Via6522 { t1_latch: latch, t1_counter: latch, ..*old(self) }, IRQ_T1)
                })
            }),
            final(self).inv(),
    {
        self.t1_latch = (self.t1_latch & 0x00FF) | ((val as u16) << 8);
        self.t1_counter = self.t1_latch;
        self.ifr_clear(IRQ_T1);
        self.t1_pb7 = false;
    }

    fn t2_write_hi(&mut self, val: u8)
        ensures
            ({
                let latch = with_high(old(self).t2_latch, val);
                *final(self) == (Via6522 {
                    t2_pb6_count: old(self).acr & 0x20 != 0,
                    ..flags_cleared(Via6522 { t2_latch: latch, t2_counter: latch, ..*old(self) }, IRQ_T2)
                })
            }),
            final(self).inv(),
    {
        self.t2_latch = (self.t2_latch & 0x00FF) | ((val as u16) << 8);
        self.t2_counter = self.t2_latch;
        self.ifr_clear(IRQ_T2);
        self.t2_pb6_count = (self.acr & 0x20) != 0;
    }

    fn sr_write(&mut self, val: u8)
        ensures
            *final(self) == flags_cleared(Via6522 { sr: val, sr_bits: 0, sr_count: 0, ..*old(self) }, IRQ_SR),
            final(self).inv(),
    {
        self.sr = val;
        self.sr_bits = 0;
        self.sr_count = 0;
        self.ifr_clear(IRQ_SR);
    }

    fn ifr_write(&mut self, val: u8)
        ensures
            *final(self) == refresh_irq(Via6522 { ifr: old(self).ifr & !(val & IRQ_ALL), ..*old(self) }),
            final(self).inv(),
    {
        self.ifr = self.ifr & !(val & IRQ_ALL);
        self.update_irq();
    }

    fn ier_write(&mut self, val: u8)
        ensures
            ({
                let ier = if val & 0x80 != 0 { old(self).ier | (val & IRQ_ALL) } else { old(self).ier & !(val & IRQ_ALL) };
                *final(self) == refresh_irq(Via6522 { ier, ..*old(self) })
            }),
            final(self).inv(),
    {
        if val & 0x80 != 0 {
            self.ier = self.ier | (val & IRQ_ALL);
        } else {
            self.ier = self.ier & !(val & IRQ_ALL);
        }
        self.update_irq();
    }

    /// Writes a register (address modulo 16).
    pub fn write(&mut self, addr: u16, val: u8)
        ensures
            *final(self) == write_spec(*old(self), addr, val),
            old(self).inv() ==> final(self).inv(),
    {
        let reg = addr & 0x0F;
        proof {
            crate::bits::lemma_low_bits(addr);
        }
        if reg == 0 {
            self.write_portb(val);
        } else if reg == 1 || reg == 15 {
            self.write_porta(val);
        } else if reg == 2 {
            self.ddrb = val;
        } else if reg == 3 {
            self.ddra = val;
        } else if reg == 4 || reg == 6 {
            self.t1_latch = (self.t1_latch & 0xFF00) | val as u16;
        } else if reg == 5 {
            self.t1_write_hi(val);
        } else if reg == 7 {
            self.t1_latch = (self.t1_latch & 0x00FF) | ((val as u16) << 8);
        } else if reg == 8 {
            self.t2_latch = (self.t2_latch & 0xFF00) | val as u16;
        } else if reg == 9 {
            self.t2_write_hi(val);
        } else if reg == 10 {
            self.sr_write(val);
        } else if reg == 11 {
            self.acr = val;
        } else if reg == 12 {
            self.pcr = val;
            self.apply_pcr();
        } else if reg == 13 {
            self.ifr_write(val);
        } else {
            self.ier_write(val);
        }
    }

    fn apply_pcr(&mut self)
        ensures
            *final(self) == (Via6522 {
                ca2_out: ca2_level(old(self).pcr),
                cb2_out: cb2_level(old(self).pcr),
                ..*old(self)
            }),
    {
        if ca2_is_input(self.pcr) {
            self.ca2_out = true;
        } else if ca2_is_handshake(self.pcr) {
            self.ca2_out = true;
        } else if ca2_is_pulse(self.pcr) {
            self.ca2_out = true;
        } else {
            self.ca2_out = ca2_manual_level(self.pcr);
        }
        if cb2_is_input(self.pcr) {
            self.cb2_out = true;
        } else if cb2_is_handshake(self.pcr) {
            self.cb2_out = true;
        } else if cb2_is_pulse(self.pcr) {
            self.cb2_out = true;
        } else {
            self.cb2_out = cb2_manual_level(self.pcr);
        }
    }

    /// A pulse on PB6: in pulse-counting mode timer 2 counts down, raising
    /// its flag on reaching zero.
    pub fn set_pb6(&mut self, level: bool)
        ensures
            !old(self).t2_pb6_count || old(self).t2_counter == 0 ==> *final(self) == *old(self),
            old(self).t2_pb6_count && old(self).t2_counter > 0 ==> *final(self) == (if old(self).t2_counter == 1 {
                flags_set(Via6522 { t2_counter: 0, ..*old(self) }, IRQ_T2)
            } else {
                Via6522 { t2_counter: (old(self).t2_counter - 1) as u16, ..*old(self) }
            }),
            old(self).inv() ==> final(self).inv(),
    {
        if !self.t2_pb6_count {
            return;
        }
        if self.t2_counter > 0 {
            self.t2_counter = self.t2_counter - 1;
            if self.t2_counter == 0 {
                self.ifr_set(IRQ_T2);
            }
        }
    }

    #[verifier::rlimit(40)]
    fn timer1_cycle(&mut self, t1_free: bool)
        ensures
            *final(self) == timer1_cycle_spec(*old(self), t1_free),
            old(self).inv() ==> final(self).inv(),
    {
        if self.t1_counter > 0 {
            self.t1_counter = self.t1_counter - 1;
            if self.t1_counter == 0 {
                let ghost before = *self;
                self.ifr_set(IRQ_T1);
                assert(*self == flags_set(before, IRQ_T1));
                self.t1_pb7 = !self.t1_pb7;
                if t1_free {
                    self.t1_counter = self.t1_latch;
                }
            }
        }
    }

    fn timer2_cycle(&mut self)
        ensures
            *final(self) == timer2_cycle_spec(*old(self)),
            old(self).inv() ==> final(self).inv(),
    {
        if !self.t2_pb6_count && self.t2_counter > 0 {
            self.t2_counter = self.t2_counter - 1;
            if self.t2_counter == 0 {
                self.ifr_set(IRQ_T2);
            }
        }
    }

    fn cycle_once(&mut self, t1_free: bool)
        ensures
            *final(self) == cycle(*old(self), t1_free),
            old(self).inv() ==> final(self).inv(),
    {
        self.timer1_cycle(t1_free);
        self.timer2_cycle();
    }

    /// Runs the timers for `n` cycles (timer 1 free-running when ACR bit 7
    /// is set); returns the IRQ line.
    pub fn tick(&mut self, n: u64) -> (r: bool)
        ensures
            *final(self) == cycles(*old(self), old(self).acr & 0x80 != 0, n as nat),
            r == final(self).irq,
            old(self).inv() ==> final(self).inv(),
    {
        let t1_free = (self.acr & 0x80) != 0;
        let mut i: u64 = 0;
        while i < n
            invariant
                i <= n,
                t1_free == (old(self).acr & 0x80 != 0),
                *self == cycles(*old(self), t1_free, i as nat),
                old(self).inv() ==> self.inv(),
            decreases n - i,
        {
            self.cycle_once(t1_free);
            i = i + 1;
        }
        self.irq
    }

    /// PB7: timer 1's output when ACR bit 7 is set, else ORB bit 7 where DDRB makes it an output.
    pub fn pb7_output(&self) -> (r: bool)
        ensures
            r == if self.acr & 0x80 != 0 { self.t1_pb7 } else { self.orb & self.ddrb & 0x80 != 0 },
    {
        if self.acr & 0x80 != 0 {
            self.t1_pb7
        } else {
            (self.orb & self.ddrb & 0x80) != 0
        }
    }
}

/// What a read gives back of a write to the same register: DDRB, DDRA, ACR
/// and PCR give the written value; ORB and ORA give the written value on
/// output bits (DDR bits set) and the pins on input bits.
pub proof fn lemma_write_then_read(v: Via6522, addr: u16, val: u8)
    ensures
        ({
            let reg = addr & 0x0F;
            let r = read_spec(write_spec(v, addr, val), addr).0;
            &&& (reg == 2 || reg == 3 || reg == 11 || reg == 12) ==> r == val
            &&& reg == 0 ==> r & v.ddrb == val & v.ddrb && r & !v.ddrb == v.input_b & !v.ddrb
            &&& (reg == 1 || reg == 15) ==> r & v.ddra == val & v.ddra && r & !v.ddra == v.input_a & !v.ddra
        }),
{
    let reg = addr & 0x0F;
    let d = if reg == 0 { v.ddrb } else { v.ddra };
    let pins = if reg == 0 { v.input_b } else { v.input_a };
    assert(((val & d) | (pins & !d)) & d == val & d && ((val & d) | (pins & !d)) & !d == pins & !d) by (bit_vector);
}

/// Registers 4 and 5 read the low and high bytes of the running timer 1
/// counter, registers 6 and 7 those of its latch.
pub proof fn lemma_read_timer1(v: Via6522, addr: u16)
    ensures
        addr & 0x0F == 4 ==> read_spec(v, addr).0 as int == v.t1_counter as int % 256,
        addr & 0x0F == 5 ==> read_spec(v, addr).0 as int == v.t1_counter as int / 256,
        addr & 0x0F == 6 ==> read_spec(v, addr).0 as int == v.t1_latch as int % 256,
        addr & 0x0F == 7 ==> read_spec(v, addr).0 as int == v.t1_latch as int / 256,
{
    let c = v.t1_counter;
    let l = v.t1_latch;
    assert(((c & 0xFF) as u8) as int == (c as int) % 256 && ((c >> 8u16) as u8) as int == (c as int) / 256
        && ((l & 0xFF) as u8) as int == (l as int) % 256 && ((l >> 8u16) as u8) as int == (l as int) / 256)
        by (bit_vector);
}

/// While it stays above zero, timer 1 counts down by one each cycle and
/// its latch stays as it is.
proof fn lemma_timer1_counts(v: Via6522, t1_free: bool, n: nat)
    requires
        n < v.t1_counter,
    ensures
        cycles(v, t1_free, n).t1_counter == v.t1_counter - n,
        cycles(v, t1_free, n).t1_latch == v.t1_latch,
    decreases n,
{
    if n > 0 {
        lemma_timer1_counts(v, t1_free, (n - 1) as nat);
    }
}

/// Writing the low byte of L to register 4 and then its high byte to
/// register 5 loads timer 1 with L; n cycles later, while n < L, the
/// counter holds L - n, which registers 4 and 5 read as its low and high
/// bytes, and the latch (registers 6 and 7) still reads L.
pub proof fn lemma_timer1_load_and_count(v: Via6522, lo: u8, hi: u8, t1_free: bool, n: nat)
    requires
        n < hi as int * 256 + lo as int,
    ensures
        ({
            let l = hi as int * 256 + lo as int;
            let v2 = cycles(write_spec(write_spec(v, 4, lo), 5, hi), t1_free, n);
            &&& v2.t1_counter == l - n
            &&& read_spec(v2, 4).0 as int == (l - n) % 256
            &&& read_spec(v2, 5).0 as int == (l - n) / 256
            &&& read_spec(v2, 6).0 == lo
            &&& read_spec(v2, 7).0 == hi
        }),
{
    let w = v.t1_latch;
    assert(4u16 & 0x0F == 4 && 5u16 & 0x0F == 5 && 6u16 & 0x0F == 6 && 7u16 & 0x0F == 7
        && with_high(with_low(w, lo), hi) as int == (hi as int) * 256 + (lo as int)) by (bit_vector);
    let v1 = write_spec(write_spec(v, 4, lo), 5, hi);
    assert(v1.t1_counter as int == hi as int * 256 + lo as int);
    assert(v1.t1_latch as int == hi as int * 256 + lo as int);
    lemma_timer1_counts(v1, t1_free, n);
    let v2 = cycles(v1, t1_free, n);
    lemma_read_timer1(v2, 4);
    lemma_read_timer1(v2, 5);
    lemma_read_timer1(v2, 6);
    lemma_read_timer1(v2, 7);
}

} // verus!
