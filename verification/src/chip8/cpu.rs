//! The CHIP-8 processor: sixteen 8-bit registers V0..VF, the index register
//! I, the program counter, a sixteen-entry call stack, two timers, and a
//! small pseudo-random generator for CXNN.

use vstd::prelude::*;

verus! {

/// The CHIP-8 registers.
pub struct Cpu {
    pub v: [u8; 16],
    pub i: u16,
    pub pc: u16,
    pub sp: u8,
    pub stack: [u16; 16],
    pub delay: u8,
    pub sound: u8,
    pub halted: bool,
    pub halt_reg: u8,
    /// State of the linear congruential generator behind CXNN.
    pub rng_seed: u16,
}

/// The registers as plain values.
pub struct Chip8View {
    pub v: Seq<u8>,
    pub i: u16,
    pub pc: u16,
    pub sp: u8,
    pub stack: Seq<u16>,
    pub delay: u8,
    pub sound: u8,
    pub halted: bool,
    pub halt_reg: u8,
    pub rng_seed: u16,
}

impl View for Cpu {
    type V = Chip8View;

    open spec fn view(&self) -> Chip8View {
        Chip8View {
            v: self.v@,
            i: self.i,
            pc: self.pc,
            sp: self.sp,
            stack: self.stack@,
            delay: self.delay,
            sound: self.sound,
            halted: self.halted,
            halt_reg: self.halt_reg,
            rng_seed: self.rng_seed,
        }
    }
}

/// The seed the generator starts from.
pub const RNG_START: u16 = 0xACE1;

/// The next generator state: seed * 75 + 74, modulo 2^16.
pub open spec fn next_seed(seed: u16) -> u16 {
    seed.wrapping_mul(75).wrapping_add(74)
}

impl Cpu {
    /// The power-on (and reset) state.
    pub open spec fn is_reset(&self) -> bool {
        &&& self.v@ == Seq::new(16, |k: int| 0u8)
        &&& self.i == 0
        &&& self.pc == 0x200
        &&& self.sp == 0
        &&& self.stack@ == Seq::new(16, |k: int| 0u16)
        &&& self.delay == 0
        &&& self.sound == 0
        &&& !self.halted
        &&& self.halt_reg == 0
        &&& self.rng_seed == RNG_START
    }

    /// Registers cleared, PC at 0x200.
    pub fn new() -> (r: Self)
        ensures
            r.is_reset(),
    {
        let r = Cpu {
            v: [0; 16],
            i: 0,
            pc: 0x200,
            sp: 0,
            stack: [0; 16],
            delay: 0,
            sound: 0,
            halted: false,
            halt_reg: 0,
            rng_seed: RNG_START,
        };
        assert(r.v@ =~= Seq::new(16, |k: int| 0u8));
        assert(r.stack@ =~= Seq::new(16, |k: int| 0u16));
        r
    }

    /// Back to the power-on state.
    pub fn reset(&mut self)
        ensures
            final(self).is_reset(),
    {
        self.v = [0; 16];
        self.i = 0;
        self.pc = 0x200;
        self.sp = 0;
        self.stack = [0; 16];
        self.delay = 0;
        self.sound = 0;
        self.halted = false;
        self.halt_reg = 0;
        self.rng_seed = RNG_START;
        assert(self.v@ =~= Seq::new(16, |k: int| 0u8));
        assert(self.stack@ =~= Seq::new(16, |k: int| 0u16));
    }

    /// Steps the generator and returns the high byte of its new state.
    pub fn rand_byte(&mut self) -> (r: u8)
        ensures
            final(self).rng_seed == next_seed(old(self).rng_seed),
            r == (next_seed(old(self).rng_seed) >> 8u16) as u8,
            *final(self) == (Cpu { rng_seed: next_seed(old(self).rng_seed), ..*old(self) }),
    {
        self.rng_seed = self.rng_seed.wrapping_mul(75).wrapping_add(74);
        (self.rng_seed >> 8) as u8
    }

    /// Counts both timers down by one, stopping at zero.
    pub fn tick_timers(&mut self)
        ensures
            final(self).delay == if old(self).delay > 0 { old(self).delay - 1 } else { 0 },
            final(self).sound == if old(self).sound > 0 { old(self).sound - 1 } else { 0 },
            *final(self) == (Cpu { delay: final(self).delay, sound: final(self).sound, ..*old(self) }),
    {
        if self.delay > 0 {
            self.delay = self.delay - 1;
        }
        if self.sound > 0 {
            self.sound = self.sound - 1;
        }
    }

    /// Pushes a return address; a full stack (sixteen entries) ignores the push.
    pub fn stack_push(&mut self, addr: u16)
        ensures
            old(self).sp < 16 ==> *final(self) == (Cpu {
                stack: final(self).stack,
                sp: (old(self).sp + 1) as u8,
                ..*old(self)
            }) && final(self).stack@ == old(self).stack@.update(old(self).sp as int, addr),
            old(self).sp >= 16 ==> *final(self) == *old(self),
    {
        if (self.sp as usize) < 16 {
            self.stack[self.sp as usize] = addr;
            self.sp = self.sp + 1;
        }
    }

    /// Pops a return address; an empty stack gives 0.
    pub fn stack_pop(&mut self) -> (r: u16)
        requires
            old(self).sp <= 16,
        ensures
            old(self).sp > 0 ==> r == old(self).stack@[old(self).sp - 1] && *final(self) == (Cpu {
                sp: (old(self).sp - 1) as u8,
                ..*old(self)
            }),
            old(self).sp == 0 ==> r == 0 && *final(self) == *old(self),
    {
        if self.sp > 0 {
            self.sp = self.sp - 1;
            self.stack[self.sp as usize]
        } else {
            0
        }
    }
}

/// A pushed address is the address popped next, and the stack pointer
/// returns to where it was (while the stack is not full).
pub proof fn lemma_push_pop(c: Cpu, addr: u16, pushed: Cpu)
    requires
        c.sp < 16,
        pushed == (Cpu { stack: pushed.stack, sp: (c.sp + 1) as u8, ..c }),
        pushed.stack@ == c.stack@.update(c.sp as int, addr),
    ensures
        pushed.sp > 0,
        pushed.stack@[pushed.sp - 1] == addr,
        (Cpu { sp: (pushed.sp - 1) as u8, ..pushed }) == (Cpu { stack: pushed.stack, ..c }),
{
}

} // verus!
