//! CHIP-8 memory of a chosen size, with the font and programs copied in
//! without wrapping (cut off at the end of memory).

use vstd::prelude::*;
use crate::bus::Bus;
use crate::chip8::memory::FONT;

verus! {

/// The default memory size.
pub const DEFAULT_SIZE: usize = 4096;

/// Memory of `size` bytes.
pub struct Memory {
    pub data: Vec<u8>,
    pub size: usize,
}

/// The memory as plain values: its bytes and its size.
pub struct SizedView {
    pub data: Seq<u8>,
    pub size: usize,
}

impl View for Memory {
    type V = SizedView;

    open spec fn view(&self) -> SizedView {
        SizedView { data: self.data@, size: self.size }
    }
}

/// `src` copied over `dst` from `start` on, cut off at the end of `dst`.
pub open spec fn copy_in(dst: Seq<u8>, start: int, src: Seq<u8>) -> Seq<u8> {
    Seq::new(
        dst.len(),
        |k: int| if start <= k < start + src.len() { src[k - start] } else { dst[k] },
    )
}

fn copy_into(data: &mut Vec<u8>, start: usize, src: &[u8])
    requires
        start <= old(data)@.len(),
    ensures
        final(data)@ == copy_in(old(data)@, start as int, src@),
{
    let size = data.len();
    let end = if src.len() < size - start { start + src.len() } else { size };
    let mut k: usize = start;
    while k < end
        invariant
            start <= k <= end <= size,
            size == data@.len(),
            end == (if src@.len() < size - start { start + src@.len() } else { size as int }),
            forall|j: int| 0 <= j < size ==> #[trigger] data@[j] == if start <= j < k { src@[j - start] } else { old(data)@[j] },
        decreases end - k,
    {
        data.set(k, src[k - start]);
        k = k + 1;
    }
    assert(data@ =~= copy_in(old(data)@, start as int, src@));
}

impl Memory {
    /// Whether reads and writes can be made: the size is positive and is the data's length.
    pub open spec fn wf(&self) -> bool {
        self.size > 0 && self@.data.len() == self.size
    }

    /// 4 KiB with the font at 0x050.
    pub fn new() -> (r: Self)
        ensures
            r.size == DEFAULT_SIZE,
            r@.data == copy_in(Seq::new(4096, |i: int| 0u8), 0x050, FONT@),
            r.wf(),
    {
        Memory::with_size_and_font(DEFAULT_SIZE, 0x050)
    }

    /// 4 KiB with the font at `font_offset`.
    pub fn with_font_offset(font_offset: u16) -> (r: Self)
        requires
            font_offset <= DEFAULT_SIZE,
        ensures
            r.size == DEFAULT_SIZE,
            r@.data == copy_in(Seq::new(4096, |i: int| 0u8), font_offset as int, FONT@),
            r.wf(),
    {
        Memory::with_size_and_font(DEFAULT_SIZE, font_offset)
    }

    /// `size` zero bytes with the font copied in at `font_offset`.
    pub fn with_size_and_font(size: usize, font_offset: u16) -> (r: Self)
        requires
            font_offset <= size,
        ensures
            r.size == size,
            r@.data == copy_in(Seq::new(size as nat, |i: int| 0u8), font_offset as int, FONT@),
    {
        let mut data = vec![0u8; size];
        let font = FONT;
        copy_into(&mut data, font_offset as usize, &font);
        Memory { data, size }
    }

    /// Copies a program in at `offset`, cut off at the end of memory.
    pub fn load_rom(&mut self, rom: &[u8], offset: u16)
        requires
            old(self).wf(),
            offset <= old(self).size,
        ensures
            final(self)@.data == copy_in(old(self)@.data, offset as int, rom@),
            final(self).size == old(self).size,
            final(self).wf(),
    {
        copy_into(&mut self.data, offset as usize, rom);
    }

    /// The byte at `addr` modulo the size.
    pub fn read(&self, addr: u16) -> (r: u8)
        requires
            self.wf(),
        ensures
            r == self@.data[addr as int % self.size as int],
    {
        self.data[addr as usize % self.size]
    }

    /// Writes the byte at `addr` modulo the size.
    pub fn write(&mut self, addr: u16, val: u8)
        requires
            old(self).wf(),
        ensures
            final(self)@.data == old(self)@.data.update(addr as int % old(self).size as int, val),
            final(self).size == old(self).size,
            final(self).wf(),
    {
        let i = addr as usize % self.size;
        self.data.set(i, val);
    }

    /// Up to `len` bytes from `addr` (modulo the size) on, stopping at the end.
    pub fn read_slice(&self, addr: u16, len: u16) -> (r: &[u8])
        requires
            self.wf(),
        ensures
            ({
                let start = addr as int % self.size as int;
                let end = if start + len < self.size { start + len } else { self.size as int };
                r@ == self@.data.subrange(start, end)
            }),
    {
        let start = addr as usize % self.size;
        let end = if (len as usize) < self.size - start { start + len as usize } else { self.size };
        vstd::slice::slice_subrange(self.data.as_slice(), start, end)
    }
}

impl Bus for Memory {
    /// The size is positive and is the number of bytes.
    open spec fn inv(s: SizedView) -> bool {
        s.size > 0 && s.data.len() == s.size
    }

    /// Addresses wrap modulo the size.
    open spec fn peek(s: SizedView, addr: u16) -> u8 {
        s.data[addr as int % s.size as int]
    }

    open spec fn after_read(s: SizedView, addr: u16) -> SizedView {
        s
    }

    open spec fn after_write(s: SizedView, addr: u16, value: u8) -> SizedView {
        SizedView { data: s.data.update(addr as int % s.size as int, value), ..s }
    }

    proof fn lemma_inv(s: SizedView, addr: u16, value: u8) {
        assert(<Memory as Bus>::after_write(s, addr, value).data.len() == s.data.len());
    }

    fn read(&mut self, addr: u16) -> (r: u8) {
        self.data[addr as usize % self.size]
    }

    fn write(&mut self, addr: u16, value: u8) {
        let i = addr as usize % self.size;
        self.data.set(i, value);
    }
}

} // verus!
