//! The byte-addressed bus that a CPU core reads and writes through.
//!
//! A bus is described by three spec functions: the value a read of an
//! address returns, the state after such a read (a read can have side
//! effects on a device, such as clearing a "data ready" flag), and the
//! state after a write.

use vstd::prelude::*;

verus! {

pub trait Bus: View + Sized {
    /// The states in which the bus can be read and written.
    spec fn inv(s: Self::V) -> bool;

    /// The byte that a read of `addr` returns in state `s`.
    spec fn peek(s: Self::V, addr: u16) -> u8;

    /// The state after a read of `addr` in state `s`.
    spec fn after_read(s: Self::V, addr: u16) -> Self::V;

    /// The state after `value` is written at `addr` in state `s`.
    spec fn after_write(s: Self::V, addr: u16, value: u8) -> Self::V;

    /// Reads and writes keep the bus usable.
    proof fn lemma_inv(s: Self::V, addr: u16, value: u8)
        requires
            Self::inv(s),
        ensures
            Self::inv(Self::after_read(s, addr)),
            Self::inv(Self::after_write(s, addr, value)),
    ;

    fn read(&mut self, addr: u16) -> (r: u8)
        requires
            Self::inv(old(self)@),
        ensures
            r == Self::peek(old(self)@, addr),
            final(self)@ == Self::after_read(old(self)@, addr),
    ;

    fn write(&mut self, addr: u16, value: u8)
        requires
            Self::inv(old(self)@),
        ensures
            final(self)@ == Self::after_write(old(self)@, addr, value),
    ;

    /// Little-endian 16-bit read: the low byte from `addr`, then the high
    /// byte from `addr + 1` (wrapping at the top of the address space).
    fn read_u16(&mut self, addr: u16) -> (r: u16)
        requires
            Self::inv(old(self)@),
        ensures
            r == word_spec(
                Self::peek(old(self)@, addr),
                Self::peek(Self::after_read(old(self)@, addr), next_addr(addr)),
            ),
            final(self)@ == Self::after_read(Self::after_read(old(self)@, addr), next_addr(addr)),
    {
        proof {
            Self::lemma_inv(self@, addr, 0);
        }
        let lo = self.read(addr);
        let hi = self.read(addr.wrapping_add(1));
        word(lo, hi)
    }

    /// Little-endian 16-bit write: the low byte to `addr`, then the high byte
    /// to `addr + 1` (wrapping at the top of the address space).
    fn write_u16(&mut self, addr: u16, value: u16)
        requires
            Self::inv(old(self)@),
        ensures
            final(self)@ == Self::after_write(
                Self::after_write(old(self)@, addr, low_byte_spec(value)),
                next_addr(addr),
                high_byte_spec(value),
            ),
    {
        proof {
            Self::lemma_inv(self@, addr, low_byte(value));
        }
        self.write(addr, low_byte(value));
        self.write(addr.wrapping_add(1), high_byte(value));
    }
}

/// The 16-bit word whose low byte is `lo` and high byte is `hi`.
pub open spec fn word_spec(lo: u8, hi: u8) -> u16 {
    ((hi as u16) << 8) | (lo as u16)
}

#[verifier::when_used_as_spec(word_spec)]
pub fn word(lo: u8, hi: u8) -> (r: u16)
    ensures
        r == word_spec(lo, hi),
        r as int == hi as int * 256 + lo as int,
{
    assert((((hi as u16) << 8) | (lo as u16)) as int == hi as int * 256 + lo as int) by (bit_vector);
    ((hi as u16) << 8) | (lo as u16)
}

pub open spec fn low_byte_spec(w: u16) -> u8 {
    (w & 0xFF) as u8
}

#[verifier::when_used_as_spec(low_byte_spec)]
pub fn low_byte(w: u16) -> (r: u8)
    ensures
        r == low_byte_spec(w),
        r as int == w as int % 256,
{
    assert((w & 0xFF) as u8 as int == w as int % 256) by (bit_vector);
    (w & 0xFF) as u8
}

pub open spec fn high_byte_spec(w: u16) -> u8 {
    ((w >> 8) & 0xFF) as u8
}

#[verifier::when_used_as_spec(high_byte_spec)]
pub fn high_byte(w: u16) -> (r: u8)
    ensures
        r == high_byte_spec(w),
        r as int == w as int / 256,
{
    assert(((w >> 8) & 0xFF) as u8 as int == w as int / 256) by (bit_vector);
    ((w >> 8) & 0xFF) as u8
}

/// `addr + 1`, wrapping from 0xFFFF to 0.
pub open spec fn next_addr(addr: u16) -> u16 {
    if addr == 0xFFFF { 0 } else { (addr + 1) as u16 }
}

/// The value and final state of a little-endian 16-bit read.
pub open spec fn bus_read_u16<B: Bus>(b: B::V, addr: u16) -> (u16, B::V) {
    let lo = B::peek(b, addr);
    let b1 = B::after_read(b, addr);
    let hi = B::peek(b1, next_addr(addr));
    (word_spec(lo, hi), B::after_read(b1, next_addr(addr)))
}

/// The final state of a little-endian 16-bit write.
pub open spec fn bus_write_u16<B: Bus>(b: B::V, addr: u16, value: u16) -> B::V {
    B::after_write(B::after_write(b, addr, low_byte_spec(value)), next_addr(addr), high_byte_spec(value))
}

/// The two bytes of a word give the word back.
pub proof fn lemma_word_bytes(w: u16)
    ensures
        word_spec(low_byte_spec(w), high_byte_spec(w)) == w,
        low_byte_spec(word_spec(low_byte_spec(w), high_byte_spec(w))) == low_byte_spec(w),
{
    assert(((((w >> 8) & 0xFF) as u8 as u16) << 8) | ((w & 0xFF) as u8 as u16) == w) by (bit_vector);
}

/// The bytes of a word built from two bytes are those two bytes.
pub proof fn lemma_bytes_word(lo: u8, hi: u8)
    ensures
        low_byte_spec(word_spec(lo, hi)) == lo,
        high_byte_spec(word_spec(lo, hi)) == hi,
{
    assert(((((hi as u16) << 8) | (lo as u16)) & 0xFF) as u8 == lo && ((((((hi as u16) << 8) | (lo as u16)) >> 8)
        & 0xFF) as u8) == hi) by (bit_vector);
}

} // verus!
