//! A flat memory of `size` bytes, addressed modulo its size.

use vstd::prelude::*;
use crate::bus::{Bus, word, word_spec, low_byte, high_byte, low_byte_spec, high_byte_spec, next_addr};

verus! {

/// Flat memory, with no devices mapped into it.
pub struct Memory {
    data: Vec<u8>,
    size: usize,
}

/// A flat memory as plain values.
pub struct FlatView {
    pub data: Seq<u8>,
    pub size: usize,
}

impl View for Memory {
    type V = FlatView;

    closed spec fn view(&self) -> FlatView {
        FlatView { data: self.data@, size: self.size }
    }
}

impl FlatView {
    /// A memory can be read and written: it has at least one byte, and its
    /// data has its size.
    pub open spec fn wf(self) -> bool {
        self.size > 0 && self.data.len() == self.size
    }

    /// The cell an address falls on.
    pub open spec fn cell(self, addr: u16) -> int {
        (addr as nat % self.size as nat) as int
    }

    pub open spec fn read(self, addr: u16) -> u8 {
        self.data[self.cell(addr)]
    }

    pub open spec fn write(self, addr: u16, value: u8) -> FlatView {
        FlatView { data: self.data.update(self.cell(addr), value), ..self }
    }

    pub open spec fn read_u16(self, addr: u16) -> u16 {
        word_spec(self.read(addr), self.read(next_addr(addr)))
    }

    pub open spec fn write_u16(self, addr: u16, value: u16) -> FlatView {
        self.write(addr, low_byte_spec(value)).write(next_addr(addr), high_byte_spec(value))
    }

    /// The memory after the first `n` bytes of `data` are written from
    /// `offset` on (addresses wrapping at 0xFFFF).
    pub open spec fn load(self, data: Seq<u8>, offset: u16, n: nat) -> FlatView
        decreases n,
    {
        if n == 0 {
            self
        } else {
            let i = (n - 1) as nat;
            self.load(data, offset, i).write(offset.wrapping_add(i as u16), data[i as int])
        }
    }
}

pub proof fn lemma_write_wf(m: FlatView, addr: u16, value: u8)
    requires
        m.wf(),
    ensures
        m.write(addr, value).wf(),
        0 <= m.cell(addr) < m.size,
{
}

/// A loaded memory stays usable.
pub proof fn lemma_load_wf(m: FlatView, data: Seq<u8>, offset: u16, n: nat)
    requires
        m.wf(),
    ensures
        m.load(data, offset, n).wf(),
        m.load(data, offset, n).size == m.size,
    decreases n,
{
    if n > 0 {
        lemma_load_wf(m, data, offset, (n - 1) as nat);
    }
}

impl Memory {
    /// `size` zero bytes.
    pub fn new(size: usize) -> (r: Self)
        ensures
            r@.size == size,
            r@.data == Seq::new(size as nat, |i: int| 0u8),
    {
        Memory { data: vec![0; size], size }
    }

    /// The byte at `addr` modulo the size.
    pub fn read(&self, addr: u16) -> (r: u8)
        requires
            self@.wf(),
        ensures
            r == self@.read(addr),
    {
        self.data[(addr as usize) % self.size]
    }

    /// Writes the byte at `addr` modulo the size.
    pub fn write(&mut self, addr: u16, value: u8)
        requires
            old(self)@.wf(),
        ensures
            final(self)@ == old(self)@.write(addr, value),
            final(self)@.wf(),
    {
        let i = (addr as usize) % self.size;
        self.data.set(i, value);
    }

    /// The little-endian word at `addr` (the high byte from `addr + 1`, wrapping).
    pub fn read_u16(&self, addr: u16) -> (r: u16)
        requires
            self@.wf(),
        ensures
            r == self@.read_u16(addr),
    {
        let lo = self.read(addr);
        let hi = self.read(addr.wrapping_add(1));
        word(lo, hi)
    }

    /// Writes a little-endian word.
    pub fn write_u16(&mut self, addr: u16, value: u16)
        requires
            old(self)@.wf(),
        ensures
            final(self)@ == old(self)@.write_u16(addr, value),
            final(self)@.wf(),
    {
        self.write(addr, low_byte(value));
        self.write(addr.wrapping_add(1), high_byte(value));
    }

    /// Writes `data` byte by byte from `offset` on, addresses wrapping.
    pub fn load(&mut self, data: &[u8], offset: u16)
        requires
            old(self)@.wf(),
        ensures
            final(self)@ == old(self)@.load(data@, offset, data@.len()),
            final(self)@.wf(),
    {
        let mut i: usize = 0;
        while i < data.len()
            invariant
                i <= data@.len(),
                self@ == old(self)@.load(data@, offset, i as nat),
                self@.wf(),
            decreases data.len() - i,
        {
            let addr = offset.wrapping_add(i as u16);
            self.write(addr, data[i]);
            i = i + 1;
        }
    }

    /// The bytes, borrowed.
    pub fn as_slice(&self) -> (r: &[u8])
        ensures
            r@ == self@.data,
    {
        self.data.as_slice()
    }

    /// The bytes, borrowed for writing; the size stays as it is.
    pub fn as_mut_slice(&mut self) -> (r: &mut [u8])
        ensures
            r@ == old(self)@.data,
            final(self)@.data == final(r)@,
            final(self)@.size == old(self)@.size,
    {
        self.data.as_mut_slice()
    }

    /// The size.
    pub fn len(&self) -> (r: usize)
        ensures
            r == self@.size,
    {
        self.size
    }

    /// Every byte back to zero.
    pub fn clear(&mut self)
        ensures
            final(self)@ == (FlatView { data: Seq::new(old(self)@.data.len(), |i: int| 0u8), ..old(self)@ }),
    {
        let n = self.data.len();
        let mut data = Vec::new();
        let mut i: usize = 0;
        while i < n
            invariant
                i <= n,
                data@ == Seq::new(i as nat, |k: int| 0u8),
            decreases n - i,
        {
            data.push(0u8);
            i = i + 1;
            assert(data@ =~= Seq::new(i as nat, |k: int| 0u8));
        }
        self.data = data;
    }
}

impl Bus for Memory {
    open spec fn inv(s: FlatView) -> bool {
        s.wf()
    }

    open spec fn peek(s: FlatView, addr: u16) -> u8 {
        s.read(addr)
    }

    open spec fn after_read(s: FlatView, addr: u16) -> FlatView {
        s
    }

    open spec fn after_write(s: FlatView, addr: u16, value: u8) -> FlatView {
        s.write(addr, value)
    }

    proof fn lemma_inv(s: FlatView, addr: u16, value: u8) {
        lemma_write_wf(s, addr, value);
        assert(<Memory as Bus>::after_write(s, addr, value) == s.write(addr, value));
    }

    fn read(&mut self, addr: u16) -> (r: u8) {
        Memory::read(self, addr)
    }

    fn write(&mut self, addr: u16, value: u8) {
        Memory::write(self, addr, value)
    }
}

/// Memory that can be read and written by address.
pub trait MemoryAccess: View + Sized {
    /// Whether reads and writes can be made.
    spec fn accessible(s: Self::V) -> bool;

    /// The byte a read of `addr` gives.
    spec fn byte_at(s: Self::V, addr: u16) -> u8;

    fn read(&self, addr: u16) -> (r: u8)
        requires
            Self::accessible(self@),
        ensures
            r == Self::byte_at(self@, addr),
    ;

    fn write(&mut self, addr: u16, value: u8)
        requires
            Self::accessible(old(self)@),
        ensures
            Self::accessible(final(self)@),
            Self::byte_at(final(self)@, addr) == value,
    ;

    fn read_u16(&self, addr: u16) -> (r: u16)
        requires
            Self::accessible(self@),
        ensures
            r == word_spec(Self::byte_at(self@, addr), Self::byte_at(self@, next_addr(addr))),
    ;

    fn write_u16(&mut self, addr: u16, value: u16)
        requires
            Self::accessible(old(self)@),
        ensures
            Self::accessible(final(self)@),
    ;
}

impl MemoryAccess for Memory {
    open spec fn accessible(s: FlatView) -> bool {
        s.wf()
    }

    open spec fn byte_at(s: FlatView, addr: u16) -> u8 {
        s.read(addr)
    }

    fn read(&self, addr: u16) -> (r: u8) {
        Memory::read(self, addr)
    }

    fn write(&mut self, addr: u16, value: u8) {
        Memory::write(self, addr, value)
    }

    fn read_u16(&self, addr: u16) -> (r: u16) {
        Memory::read_u16(self, addr)
    }

    fn write_u16(&mut self, addr: u16, value: u16)
        ensures
            final(self)@ == old(self)@.write_u16(addr, value),
    {
        Memory::write_u16(self, addr, value)
    }
}

/// A byte written reads back, and a word written reads back when its two
/// bytes fall on different cells.
pub proof fn lemma_write_then_read(m: FlatView, addr: u16, value: u8, w: u16)
    requires
        m.wf(),
    ensures
        m.write(addr, value).read(addr) == value,
        m.cell(addr) != m.cell(next_addr(addr)) ==> m.write_u16(addr, w).read_u16(addr) == w,
{
    crate::bus::lemma_word_bytes(w);
}

} // verus!
