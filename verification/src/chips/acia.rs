//! The 6551 ACIA (asynchronous serial interface): data, status, command and
//! control registers, with receive, transmit and interrupt logic.

use vstd::prelude::*;

verus! {

/// Status bit: interrupt pending.
pub const SR_IRQ: u8 = 0x80;
/// Status bit: data set ready (active).
pub const SR_DSR: u8 = 0x40;
/// Status bit: data carrier detect (active).
pub const SR_DCD: u8 = 0x20;
/// Status bit: transmit data register empty.
pub const SR_TX_EMPTY: u8 = 0x10;
/// Status bit: receive data register full.
pub const SR_RX_FULL: u8 = 0x08;
/// Status bit: a received byte was overwritten before it was read.
pub const SR_OVERRUN: u8 = 0x04;
/// Status bit: framing error.
pub const SR_FRAMING: u8 = 0x02;
/// Status bit: parity error.
pub const SR_PARITY: u8 = 0x01;

/// Command bits: parity mode.
pub const CMD_PARITY: u8 = 0xC0;
/// Command bit: parity type.
pub const CMD_PARITY_TYPE: u8 = 0x20;
/// Command bit: echo.
pub const CMD_ECHO: u8 = 0x10;
/// Command bit: interrupt when the transmit register is empty.
pub const CMD_IRQ_TX: u8 = 0x08;
/// Command bit: interrupt when the receive register is full.
pub const CMD_IRQ_RX: u8 = 0x04;
/// Command bits: operating mode.
pub const CMD_MODE: u8 = 0x03;
/// Mode: normal.
pub const CMD_MODE_NORMAL: u8 = 0;
/// Mode: echo (a written byte is received, nothing is sent).
pub const CMD_MODE_ECHO: u8 = 1;
/// Mode: loopback (a written byte is both sent and received).
pub const CMD_MODE_LOOPBACK: u8 = 2;
/// Mode: remote.
pub const CMD_MODE_REMOTE: u8 = 3;

/// The status register after reset: transmit register empty, DSR and DCD active.
pub const RESET_STATUS: u8 = 0x70;

/// A 6551 ACIA.
pub struct Acia6551 {
    pub status: u8,
    pub command: u8,
    pub control: u8,
    pub rx_data: u8,
    /// A received byte waits to be read.
    pub rx_pending: bool,
    /// A written byte is being sent.
    pub tx_pending: bool,
    /// The last byte put on the serial line.
    pub tx_output: Option<u8>,
    /// The interrupt line.
    pub irq: bool,
}

/// Whether an enabled interrupt condition holds: transmit register empty
/// with Tx interrupts on, or receive register full with Rx interrupts on.
pub open spec fn irq_condition(command: u8, status: u8) -> bool {
    (command & CMD_IRQ_TX != 0 && status & SR_TX_EMPTY != 0) || (command & CMD_IRQ_RX != 0 && status
        & SR_RX_FULL != 0)
}

/// The status with its IRQ bit set from the interrupt condition.
pub open spec fn with_irq_bit(command: u8, status: u8) -> u8 {
    if irq_condition(command, status) {
        status | SR_IRQ
    } else {
        status & !SR_IRQ
    }
}

/// Whether a received byte fails the (simplified) parity check of the
/// command's parity mode: in odd mode (1) bit 7 must be 1, in even mode (2)
/// bit 7 must be 0; other modes check nothing.
pub open spec fn parity_error(command: u8, data: u8) -> bool {
    let mode = (command >> 6u8) & 3;
    (mode == 1 && data >> 7u8 != 1) || (mode == 2 && data >> 7u8 != 0)
}

/// The status after a byte is received: receive register full, the parity
/// bit set on a parity error, and the IRQ bit brought up to date.
pub open spec fn received_status(command: u8, status: u8, data: u8) -> u8 {
    let s1 = status | SR_RX_FULL;
    let s2 = if parity_error(command, data) { s1 | SR_PARITY } else { s1 };
    with_irq_bit(command, s2)
}

/// The byte a register read returns (address modulo 4), and the chip after it.
pub open spec fn read_spec(a: Acia6551, addr: u16) -> (u8, Acia6551) {
    let reg = addr & 3;
    if reg == 0 {
        let s = a.status & !SR_RX_FULL & !SR_OVERRUN;
        (a.rx_data, Acia6551 {
            status: with_irq_bit(a.command, s),
            irq: irq_condition(a.command, s),
            rx_pending: false,
            ..a
        })
    } else if reg == 1 {
        (a.status, a)
    } else if reg == 2 {
        (a.command, a)
    } else {
        (a.control, a)
    }
}

/// The chip after a register write (address modulo 4).
pub open spec fn write_spec(a: Acia6551, addr: u16, val: u8) -> Acia6551 {
    let reg = addr & 3;
    if reg == 0 {
        let mode = a.command & CMD_MODE;
        let received = mode == CMD_MODE_ECHO || mode == CMD_MODE_LOOPBACK;
        let s = if received { received_status(a.command, a.status, val) } else { a.status };
        let s2 = s & !SR_TX_EMPTY;
        Acia6551 {
            status: with_irq_bit(a.command, s2),
            irq: irq_condition(a.command, s2),
            rx_data: if received { val } else { a.rx_data },
            rx_pending: received || a.rx_pending,
            tx_output: if mode == CMD_MODE_ECHO { a.tx_output } else { Some(val) },
            tx_pending: true,
            ..a
        }
    } else if reg == 1 {
        Acia6551 {
            status: RESET_STATUS,
            command: 0,
            control: 0,
            rx_data: a.rx_data,
            rx_pending: false,
            tx_pending: false,
            tx_output: None,
            irq: false,
        }
    } else if reg == 2 {
        Acia6551 { command: val, status: with_irq_bit(val, a.status), irq: irq_condition(val, a.status), ..a }
    } else {
        Acia6551 { control: val, ..a }
    }
}

/// The end of a transmission: whether a byte was being sent, and the chip after it.
pub open spec fn tx_complete_spec(a: Acia6551) -> (bool, Acia6551) {
    if a.tx_pending {
        (true, Acia6551 {
            tx_pending: false,
            status: with_irq_bit(a.command, a.status | SR_TX_EMPTY),
            irq: irq_condition(a.command, a.status | SR_TX_EMPTY),
            ..a
        })
    } else {
        (false, a)
    }
}

/// Status bits that the modem pins and the interrupt bit touch: setting or
/// clearing IRQ, DSR or DCD leaves the interrupt condition as it was, DSR
/// and DCD leave the IRQ bit alone, and the reset status raises no interrupt.
proof fn lemma_status_bits(c: u8, s: u8)
    by (bit_vector)
    ensures
        0x10u8 | 0x40u8 | 0x20u8 == 0x70u8,
        0x70u8 & 0x80u8 == 0,
        !irq_condition(0, 0x70),
        0u16 & 3 == 0,
        irq_condition(c, s | SR_IRQ) == irq_condition(c, s),
        (s | SR_IRQ) & SR_IRQ != 0,
        irq_condition(c, s & !SR_IRQ) == irq_condition(c, s),
        (s & !SR_IRQ) & SR_IRQ == 0,
        irq_condition(c, s | SR_DSR) == irq_condition(c, s),
        ((s | SR_DSR) & SR_IRQ) == (s & SR_IRQ),
        irq_condition(c, s & !SR_DSR) == irq_condition(c, s),
        ((s & !SR_DSR) & SR_IRQ) == (s & SR_IRQ),
        irq_condition(c, s | SR_DCD) == irq_condition(c, s),
        ((s | SR_DCD) & SR_IRQ) == (s & SR_IRQ),
        irq_condition(c, s & !SR_DCD) == irq_condition(c, s),
        ((s & !SR_DCD) & SR_IRQ) == (s & SR_IRQ),
        (s | SR_IRQ) & SR_RX_FULL == s & SR_RX_FULL,
        (s & !SR_IRQ) & SR_RX_FULL == s & SR_RX_FULL,
        (s | SR_DSR) & SR_RX_FULL == s & SR_RX_FULL,
        (s & !SR_DSR) & SR_RX_FULL == s & SR_RX_FULL,
        (s | SR_DCD) & SR_RX_FULL == s & SR_RX_FULL,
        (s & !SR_DCD) & SR_RX_FULL == s & SR_RX_FULL,
        (s | SR_TX_EMPTY) & SR_RX_FULL == s & SR_RX_FULL,
        (s & !SR_TX_EMPTY) & SR_RX_FULL == s & SR_RX_FULL,
        (s | SR_OVERRUN) & SR_RX_FULL == s & SR_RX_FULL,
        (s | SR_RX_FULL) & SR_RX_FULL != 0,
        ((s | SR_RX_FULL) | SR_PARITY) & SR_RX_FULL != 0,
        (s & !SR_RX_FULL & !SR_OVERRUN) & SR_RX_FULL == 0,
        0x70u8 & SR_RX_FULL == 0,
{
}

/// Setting the IRQ bit from the interrupt condition leaves RX full alone.
proof fn lemma_irq_bit_keeps_rx_full(c: u8, s: u8)
    ensures
        with_irq_bit(c, s) & SR_RX_FULL == s & SR_RX_FULL,
{
    lemma_status_bits(c, s);
}

/// The chip after a byte arrives on the serial line: overrun flagged if
/// the previous byte was not read, the byte latched, RX full and the
/// interrupt line updated.
pub open spec fn received_spec(a: Acia6551, data: u8) -> Acia6551 {
    let s = if a.rx_pending { a.status | SR_OVERRUN } else { a.status };
    Acia6551 {
        status: received_status(a.command, s, data),
        irq: irq_condition(a.command, received_status(a.command, s, data)),
        rx_data: data,
        rx_pending: true,
        ..a
    }
}

impl Acia6551 {
    /// The state after reset.
    pub open spec fn new_spec() -> Acia6551 {
        Acia6551 {
            status: RESET_STATUS,
            command: 0,
            control: 0,
            rx_data: 0,
            rx_pending: false,
            tx_pending: false,
            tx_output: None,
            irq: false,
        }
    }

    /// The IRQ line and the IRQ status bit both show whether an enabled
    /// interrupt condition holds, and RX full shows whether a received byte
    /// waits to be read.
    pub open spec fn inv(&self) -> bool {
        &&& self.irq == irq_condition(self.command, self.status)
        &&& (self.status & SR_IRQ != 0) == self.irq
        &&& self.rx_pending == (self.status & SR_RX_FULL != 0)
    }

    /// The state after reset.
    pub fn new() -> (r: Self)
        ensures
            r == Self::new_spec(),
            r.status == RESET_STATUS,
            r.command == 0,
            r.control == 0,
            r.rx_data == 0,
            !r.rx_pending,
            !r.tx_pending,
            r.tx_output is None,
            !r.irq,
            r.inv(),
    {
        let r = Acia6551 {
            status: SR_TX_EMPTY | SR_DSR | SR_DCD,
            command: 0,
            control: 0,
            rx_data: 0,
            rx_pending: false,
            tx_pending: false,
            tx_output: None,
            irq: false,
        };
        proof {
            lemma_status_bits(0, 0);
        }
        r
    }

    fn update_irq(&mut self)
        ensures
            final(self).irq == irq_condition(old(self).command, old(self).status),
            final(self).status == with_irq_bit(old(self).command, old(self).status),
            final(self).command == old(self).command,
            final(self).control == old(self).control,
            final(self).rx_data == old(self).rx_data,
            final(self).rx_pending == old(self).rx_pending,
            final(self).tx_pending == old(self).tx_pending,
            final(self).tx_output == old(self).tx_output,
            old(self).rx_pending == (old(self).status & SR_RX_FULL != 0) ==> final(self).inv(),
    {
        let irq_tx = (self.command & CMD_IRQ_TX != 0) && (self.status & SR_TX_EMPTY != 0);
        let irq_rx = (self.command & CMD_IRQ_RX != 0) && (self.status & SR_RX_FULL != 0);
        let irq = irq_tx || irq_rx;
        self.irq = irq;
        let ghost s = old(self).status;
        let ghost c = old(self).command;
        proof {
            lemma_status_bits(c, s);
        }
        if irq {
            self.status = self.status | SR_IRQ;
        } else {
            self.status = self.status & !SR_IRQ;
        }
    }

    fn read_data(&mut self) -> (r: u8)
        ensures
            r == old(self).rx_data,
            final(self).status == with_irq_bit(old(self).command, old(self).status & !SR_RX_FULL & !SR_OVERRUN),
            final(self).irq == irq_condition(old(self).command, old(self).status & !SR_RX_FULL & !SR_OVERRUN),
            !final(self).rx_pending,
            final(self).command == old(self).command,
            final(self).control == old(self).control,
            final(self).rx_data == old(self).rx_data,
            final(self).tx_pending == old(self).tx_pending,
            final(self).tx_output == old(self).tx_output,
            final(self).inv(),
    {
        proof {
            lemma_status_bits(self.command, self.status);
        }
        self.rx_pending = false;
        self.status = self.status & !SR_RX_FULL;
        self.status = self.status & !SR_OVERRUN;
        self.update_irq();
        self.rx_data
    }

    fn receive_byte(&mut self, data: u8)
        ensures
            final(self).rx_data == data,
            final(self).rx_pending,
            final(self).status == received_status(old(self).command, old(self).status, data),
            final(self).irq == irq_condition(
                old(self).command,
                received_status(old(self).command, old(self).status, data),
            ),
            final(self).command == old(self).command,
            final(self).control == old(self).control,
            final(self).tx_pending == old(self).tx_pending,
            final(self).tx_output == old(self).tx_output,
            final(self).inv(),
    {
        proof {
            lemma_status_bits(self.command, self.status);
            lemma_status_bits(self.command, self.status | SR_RX_FULL);
        }
        self.rx_data = data;
        self.rx_pending = true;
        self.status = self.status | SR_RX_FULL;
        let parity_mode = (self.command >> 6) & 3;
        if parity_mode == 1 || parity_mode == 2 {
            let expected_parity = self.rx_data >> 7;
            let computed = if parity_mode == 1 { 1 } else { 0 };
            if expected_parity != computed {
                self.status = self.status | SR_PARITY;
            }
        }
        let ghost s = self.status;
        self.update_irq();
        assert(with_irq_bit(self.command, s) == received_status(old(self).command, old(self).status, data));
    }

    fn write_data(&mut self, val: u8)
        ensures
            ({
                let mode = old(self).command & CMD_MODE;
                let received = mode == CMD_MODE_ECHO || mode == CMD_MODE_LOOPBACK;
                let s = if received { received_status(old(self).command, old(self).status, val) } else { old(self).status };
                &&& final(self).status == with_irq_bit(old(self).command, s & !SR_TX_EMPTY)
                &&& final(self).rx_data == (if received { val } else { old(self).rx_data })
                &&& final(self).rx_pending == (received || old(self).rx_pending)
                &&& final(self).tx_output == (if mode == CMD_MODE_ECHO { old(self).tx_output } else { Some(val) })
            }),
            final(self).tx_pending,
            final(self).command == old(self).command,
            final(self).control == old(self).control,
            *final(self) == write_spec(*old(self), 0, val),
            old(self).inv() ==> final(self).inv(),
    {
        proof {
            lemma_status_bits(0, 0);
        }
        let mode = self.command & CMD_MODE;
        if mode == CMD_MODE_ECHO {
            self.receive_byte(val);
        } else if mode == CMD_MODE_LOOPBACK {
            self.receive_byte(val);
            self.tx_output = Some(val);
        } else if mode == CMD_MODE_REMOTE {
            self.tx_output = Some(val);
        } else {
            self.tx_output = Some(val);
        }
        proof {
            lemma_status_bits(self.command, self.status);
        }
        self.status = self.status & !SR_TX_EMPTY;
        self.tx_pending = true;
        self.update_irq();
    }

    fn reset(&mut self)
        ensures
            final(self).status == RESET_STATUS,
            final(self).command == 0,
            final(self).control == 0,
            final(self).rx_data == old(self).rx_data,
            !final(self).rx_pending,
            !final(self).tx_pending,
            final(self).tx_output is None,
            !final(self).irq,
            final(self).inv(),
    {
        self.status = SR_TX_EMPTY | SR_DSR | SR_DCD;
        self.command = 0;
        self.control = 0;
        self.rx_pending = false;
        self.tx_pending = false;
        self.tx_output = None;
        self.irq = false;
        proof {
            lemma_status_bits(0, 0);
        }
    }

    /// Reads a register (address modulo 4): 0 the received byte (which
    /// clears receive-full and overrun), 1 status, 2 command, 3 control.
    pub fn read(&mut self, addr: u16) -> (r: u8)
        ensures
            addr & 3 == 0 ==> r == old(self).rx_data && *final(self) == (Acia6551 {
                status: with_irq_bit(old(self).command, old(self).status & !SR_RX_FULL & !SR_OVERRUN),
                irq: irq_condition(old(self).command, old(self).status & !SR_RX_FULL & !SR_OVERRUN),
                rx_pending: false,
                ..*old(self)
            }),
            addr & 3 == 1 ==> r == old(self).status && *final(self) == *old(self),
            addr & 3 == 2 ==> r == old(self).command && *final(self) == *old(self),
            addr & 3 == 3 ==> r == old(self).control && *final(self) == *old(self),
            (r, *final(self)) == read_spec(*old(self), addr),
            old(self).inv() ==> final(self).inv(),
    {
        proof {
            crate::bits::lemma_low_bits(addr);
        }
        let reg = (addr & 3) as u8;
        if reg == 0 {
            self.read_data()
        } else if reg == 1 {
            self.status
        } else if reg == 2 {
            self.command
        } else {
            self.control
        }
    }

    /// Writes a register (address modulo 4): 0 sends a byte, 1 resets the
    /// chip, 2 sets the command (and the IRQ from it), 3 sets the control.
    pub fn write(&mut self, addr: u16, val: u8)
        ensures
            addr & 3 == 0 ==> ({
                let mode = old(self).command & CMD_MODE;
                let received = mode == CMD_MODE_ECHO || mode == CMD_MODE_LOOPBACK;
                let s = if received { received_status(old(self).command, old(self).status, val) } else { old(self).status };
                &&& final(self).status == with_irq_bit(old(self).command, s & !SR_TX_EMPTY)
                &&& final(self).rx_data == (if received { val } else { old(self).rx_data })
                &&& final(self).rx_pending == (received || old(self).rx_pending)
                &&& final(self).tx_output == (if mode == CMD_MODE_ECHO { old(self).tx_output } else { Some(val) })
                &&& final(self).tx_pending
                &&& final(self).command == old(self).command
                &&& final(self).control == old(self).control
            }),
            addr & 3 == 1 ==> *final(self) == (Acia6551 {
                status: RESET_STATUS,
                command: 0,
                control: 0,
                rx_data: old(self).rx_data,
                rx_pending: false,
                tx_pending: false,
                tx_output: None,
                irq: false,
            }),
            addr & 3 == 2 ==> *final(self) == (Acia6551 {
                command: val,
                status: with_irq_bit(val, old(self).status),
                irq: irq_condition(val, old(self).status),
                ..*old(self)
            }),
            addr & 3 == 3 ==> *final(self) == (Acia6551 { control: val, ..*old(self) }),
            *final(self) == write_spec(*old(self), addr, val),
            (addr & 3 == 1) || old(self).inv() ==> final(self).inv(),
    {
        proof {
            crate::bits::lemma_low_bits(addr);
        }
        let reg = (addr & 3) as u8;
        if reg == 0 {
            self.write_data(val);
            proof {
                lemma_status_bits(0, 0);
            }
            assert(addr & 3 == 0);
            assert(write_spec(*old(self), addr, val) == write_spec(*old(self), 0, val));
        } else if reg == 1 {
            self.reset();
            assert(*self == write_spec(*old(self), addr, val));
        } else if reg == 2 {
            proof {
                lemma_status_bits(val, self.status);
            }
            self.command = val;
            self.update_irq();
            assert(*self == write_spec(*old(self), addr, val));
        } else {
            self.control = val;
        }
    }

    /// Drives the DSR input (status bit 6).
    pub fn set_dsr(&mut self, level: bool)
        ensures
            *final(self) == (Acia6551 {
                status: if level { old(self).status | SR_DSR } else { old(self).status & !SR_DSR },
                ..*old(self)
            }),
            old(self).inv() ==> final(self).inv(),
    {
        let ghost s = self.status;
        let ghost c = self.command;
        proof {
            lemma_status_bits(c, s);
        }
        if level {
            self.status = self.status | SR_DSR;
        } else {
            self.status = self.status & !SR_DSR;
        }
    }

    /// Drives the DCD input (status bit 5).
    pub fn set_dcd(&mut self, level: bool)
        ensures
            *final(self) == (Acia6551 {
                status: if level { old(self).status | SR_DCD } else { old(self).status & !SR_DCD },
                ..*old(self)
            }),
            old(self).inv() ==> final(self).inv(),
    {
        let ghost s = self.status;
        let ghost c = self.command;
        proof {
            lemma_status_bits(c, s);
        }
        if level {
            self.status = self.status | SR_DCD;
        } else {
            self.status = self.status & !SR_DCD;
        }
    }

    /// A byte arrives on the serial line; if the previous one was not read,
    /// the overrun bit is set first.
    pub fn receive(&mut self, data: u8)
        ensures
            *final(self) == received_spec(*old(self), data),
            ({
                let s = if old(self).rx_pending { old(self).status | SR_OVERRUN } else { old(self).status };
                &&& final(self).status == received_status(old(self).command, s, data)
                &&& final(self).irq == irq_condition(old(self).command, received_status(old(self).command, s, data))
            }),
            final(self).rx_data == data,
            final(self).rx_pending,
            final(self).command == old(self).command,
            final(self).control == old(self).control,
            final(self).tx_pending == old(self).tx_pending,
            final(self).tx_output == old(self).tx_output,
            final(self).inv(),
    {
        if self.rx_pending {
            self.status = self.status | SR_OVERRUN;
        }
        self.receive_byte(data);
    }

    /// The byte being sent has gone out: the transmit register is empty
    /// again. Returns whether a byte was being sent.
    pub fn tx_complete(&mut self) -> (r: bool)
        ensures
            r == old(self).tx_pending,
            r ==> *final(self) == (Acia6551 {
                tx_pending: false,
                status: with_irq_bit(old(self).command, old(self).status | SR_TX_EMPTY),
                irq: irq_condition(old(self).command, old(self).status | SR_TX_EMPTY),
                ..*old(self)
            }),
            !r ==> *final(self) == *old(self),
            (r, *final(self)) == tx_complete_spec(*old(self)),
            old(self).inv() ==> final(self).inv(),
    {
        if self.tx_pending {
            proof {
                lemma_status_bits(self.command, self.status);
            }
            self.tx_pending = false;
            self.status = self.status | SR_TX_EMPTY;
            self.update_irq();
            return true;
        }
        false
    }

    pub fn status(&self) -> (r: u8)
        ensures
            r == self.status,
    {
        self.status
    }

    pub fn command_reg(&self) -> (r: u8)
        ensures
            r == self.command,
    {
        self.command
    }

    pub fn control_reg(&self) -> (r: u8)
        ensures
            r == self.control,
    {
        self.control
    }

    pub fn rx_data(&self) -> (r: u8)
        ensures
            r == self.rx_data,
    {
        self.rx_data
    }
}

/// What a read gives back: the command and control registers read back
/// what was written to them; a received byte is read from the data
/// register, after which no byte waits and RX full is clear; and in normal
/// mode a byte written to the data register is the byte sent.
pub proof fn lemma_write_then_read(a: Acia6551, val: u8)
    ensures
        read_spec(write_spec(a, 2, val), 2).0 == val,
        read_spec(write_spec(a, 3, val), 3).0 == val,
        read_spec(received_spec(a, val), 0).0 == val,
        !read_spec(received_spec(a, val), 0).1.rx_pending,
        read_spec(received_spec(a, val), 0).1.status & SR_RX_FULL == 0,
        a.command & CMD_MODE == CMD_MODE_NORMAL ==> write_spec(a, 0, val).tx_output == Some(val),
{
    let st = received_spec(a, val).status;
    assert(2u16 & 3 == 2 && 3u16 & 3 == 3 && 0u16 & 3 == 0 && ((st & !SR_RX_FULL & !SR_OVERRUN) | SR_IRQ)
        & SR_RX_FULL == 0 && ((st & !SR_RX_FULL & !SR_OVERRUN) & !SR_IRQ) & SR_RX_FULL == 0) by (bit_vector);
}

} // verus!
