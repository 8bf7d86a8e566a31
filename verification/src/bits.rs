//! Facts about masks and shifts of bytes and words that register decoders
//! rely on.

use vstd::prelude::*;

verus! {

/// A register number taken from the low bits of an address is in range.
pub proof fn lemma_low_bits(addr: u16)
    by (bit_vector)
    ensures
        addr & 3 < 4,
        addr & 0x0F < 16,
{
}

/// Both nibbles of a byte are below 16.
pub proof fn lemma_nibbles(v: u8)
    by (bit_vector)
    ensures
        v & 0x0F < 16,
        v >> 4 < 16,
{
}

/// The fields of a CHIP-8 opcode: X, Y and N are below 16, NNN is at most
/// 0xFFF, and the top nibble is one of the sixteen groups.
pub proof fn lemma_opcode_fields(opcode: u16)
    by (bit_vector)
    ensures
        ((opcode & 0x0F00) >> 8u16) < 16,
        ((opcode & 0x00F0) >> 4u16) < 16,
        (opcode & 0x000F) < 16,
        (opcode & 0x0FFF) <= 0x0FFF,
        ({
            let top = opcode & 0xF000;
            top == 0 || top == 0x1000 || top == 0x2000 || top == 0x3000 || top == 0x4000 || top == 0x5000
                || top == 0x6000 || top == 0x7000 || top == 0x8000 || top == 0x9000 || top == 0xA000
                || top == 0xB000 || top == 0xC000 || top == 0xD000 || top == 0xE000 || top == 0xF000
        }),
{
}

} // verus!
