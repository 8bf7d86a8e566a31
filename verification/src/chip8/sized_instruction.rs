//! CHIP-8 instruction execution on memory of a chosen size. Every opcode
//! but DXYN behaves as in `chip8::instruction`, with addresses wrapping at
//! the end of memory; DXYN reads its sprite rows from I up to the end of
//! memory without wrapping.

use vstd::prelude::*;
use crate::bus::Bus;
use crate::chip8::cpu::{Cpu, Chip8View};
use crate::chip8::instruction::{Quirks, can_draw, draw_spec, draw_sprite, executable, execute_spec, set_v};
use crate::chip8::sized_memory::{Memory, SizedView};
use crate::devices::display::{Display, DisplayView};
use crate::devices::keyboard::Keyboard;

verus! {

/// The sprite that DXYN draws: `n` bytes from I (taken modulo the size)
/// on, cut off at the end of memory.
pub open spec fn sprite_at(m: SizedView, i: u16, n: nat) -> Seq<u8> {
    let start = i as int % m.size as int;
    let end = if start + n < m.size { start + n } else { m.size as int };
    m.data.subrange(start, end)
}

/// Whether an opcode is DXYN.
pub open spec fn is_draw(opcode: u16) -> bool {
    opcode & 0xF000 == 0xD000
}

/// The inputs on which an opcode runs: for DXYN a usable display and
/// sprite, for the others those of `chip8::instruction::executable`.
pub open spec fn sized_executable(
    opcode: u16,
    c: Chip8View,
    m: SizedView,
    d: DisplayView,
    keys: Seq<bool>,
    q: Quirks,
) -> bool {
    if is_draw(opcode) {
        d.wf() && can_draw(d, sprite_at(m, c.i, (opcode & 0x000F) as nat))
    } else {
        executable::<Memory>(opcode, c, m, d, keys, q)
    }
}

/// One instruction: the registers, the memory and the display after it.
pub open spec fn sized_execute_spec(
    opcode: u16,
    c: Chip8View,
    m: SizedView,
    d: DisplayView,
    keys: Seq<bool>,
    q: Quirks,
) -> (Chip8View, SizedView, DisplayView) {
    if is_draw(opcode) {
        let x = ((opcode & 0x0F00) >> 8u16) as int;
        let y = ((opcode & 0x00F0) >> 4u16) as int;
        let (d1, hit) = draw_spec(d, c.v[x], c.v[y], sprite_at(m, c.i, (opcode & 0x000F) as nat));
        (set_v(c, 15, if hit { 1 } else { 0 }), m, d1)
    } else {
        execute_spec::<Memory>(opcode, c, m, d, keys, q)
    }
}

/// Executes one CHIP-8 instruction (PC already advanced past it).
pub fn execute(
    opcode: u16,
    cpu: &mut Cpu,
    memory: &mut Memory,
    display: &mut Display,
    keyboard: &Keyboard,
    quirks: &Quirks,
)
    requires
        old(memory).wf(),
        sized_executable(opcode, old(cpu)@, old(memory)@, old(display)@, keyboard@, *quirks),
    ensures
        (final(cpu)@, final(memory)@, final(display)@) == sized_execute_spec(
            opcode,
            old(cpu)@,
            old(memory)@,
            old(display)@,
            keyboard@,
            *quirks,
        ),
        final(memory).wf(),
        old(display)@.wf() ==> final(display)@.wf(),
{
    if opcode & 0xF000 == 0xD000 {
        let x = ((opcode & 0x0F00) >> 8) as usize;
        let y = ((opcode & 0x00F0) >> 4) as usize;
        let n = (opcode & 0x000F) as u8;
        proof {
            crate::bits::lemma_opcode_fields(opcode);
        }
        let sprite = memory.read_slice(cpu.i, n as u16);
        let coll = draw_sprite(display, cpu.v[x], cpu.v[y], sprite);
        cpu.v[0xF] = if coll { 1 } else { 0 };
    } else {
        crate::chip8::instruction::execute(opcode, cpu, memory, display, keyboard, quirks);
    }
}

} // verus!
