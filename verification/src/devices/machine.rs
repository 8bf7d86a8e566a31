//! The interface of a CPU-based machine, for tools that drive any of them.

use vstd::prelude::*;

verus! {

/// A machine with a processor: one instruction at a time, and its registers.
pub trait Machine {
    /// Whether the next instruction can be run.
    spec fn can_tick(&self) -> bool;

    /// Runs one instruction.
    fn tick(&mut self)
        requires
            old(self).can_tick(),
    ;

    /// Program counter.
    fn pc(&self) -> u16;

    /// Stack pointer.
    fn sp(&self) -> u8;

    /// Accumulator.
    fn a(&self) -> u8;

    /// X index register.
    fn x(&self) -> u8;

    /// Y index register.
    fn y(&self) -> u8;

    /// Status register.
    fn p(&self) -> u8;

    /// Cycles run.
    fn cycles(&self) -> u64;

    /// Instructions run.
    fn instructions(&self) -> u64;
}

/// A machine with a serial port.
pub trait SerialMachine: Machine {
    /// A byte from the host to the machine.
    fn serial_send(&mut self, byte: u8);

    /// The next byte from the machine to the host, if any.
    fn serial_recv(&mut self) -> Option<u8>;

    /// Whether the machine's receive register is free for another byte.
    fn serial_send_ready(&mut self) -> bool;
}

} // verus!
