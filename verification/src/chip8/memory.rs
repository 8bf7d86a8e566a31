//! CHIP-8 memory: 4 KiB, addressed modulo its size, with the hexadecimal
//! digit font loaded at a configurable offset.

use vstd::prelude::*;
use crate::bus::Bus;
use crate::devices::flat_memory::{Memory as FlatMemory, FlatView, lemma_load_wf, lemma_write_wf};

verus! {

/// The sixteen hexadecimal digits, five rows of four pixels each.
pub const FONT: [u8; 80] = [
    0xF0, 0x90, 0x90, 0x90, 0xF0, 0x20, 0x60, 0x20, 0x20, 0x70,
    0xF0, 0x10, 0xF0, 0x80, 0xF0, 0xF0, 0x10, 0xF0, 0x10, 0xF0,
    0x90, 0x90, 0xF0, 0x10, 0x10, 0xF0, 0x80, 0xF0, 0x10, 0xF0,
    0xF0, 0x80, 0xF0, 0x90, 0xF0, 0xF0, 0x10, 0x20, 0x40, 0x40,
    0xF0, 0x90, 0xF0, 0x90, 0xF0, 0xF0, 0x90, 0xF0, 0x10, 0xF0,
    0xF0, 0x90, 0xF0, 0x90, 0x90, 0xE0, 0x90, 0xE0, 0x90, 0xE0,
    0xF0, 0x80, 0x80, 0x80, 0xF0, 0xE0, 0x90, 0x90, 0x90, 0xE0,
    0xF0, 0x80, 0xF0, 0x80, 0xF0, 0xF0, 0x80, 0xF0, 0x80, 0x80,
];

/// The memory size.
pub const MEM_SIZE: usize = 4096;

/// CHIP-8 memory.
pub struct Memory {
    inner: FlatMemory,
}

impl View for Memory {
    type V = FlatView;

    closed spec fn view(&self) -> FlatView {
        self.inner@
    }
}

/// Fresh memory: zeros with the font written from `font_offset` (wrapping).
pub open spec fn fresh(font_offset: u16) -> FlatView {
    FlatView { data: Seq::new(4096, |i: int| 0u8), size: 4096 }.load(FONT@, font_offset, 80)
}

impl Memory {
    /// The memory is 4 KiB.
    pub open spec fn wf(self) -> bool {
        self@.wf() && self@.size == 4096
    }

    /// Fresh memory with the font at 0x050.
    pub fn new() -> (r: Self)
        ensures
            r@ == fresh(0x050),
            r.wf(),
    {
        Memory::with_font_offset(0x050)
    }

    /// Fresh memory with the font at `font_offset`.
    pub fn with_font_offset(font_offset: u16) -> (r: Self)
        ensures
            r@ == fresh(font_offset),
            r.wf(),
    {
        let mut inner = FlatMemory::new(MEM_SIZE);
        let font = FONT;
        inner.load(&font, font_offset);
        proof {
            lemma_load_wf(FlatView { data: Seq::new(4096, |i: int| 0u8), size: 4096 }, FONT@, font_offset, 80);
        }
        Memory { inner }
    }

    /// Writes a program from `offset` on (addresses wrapping).
    pub fn load_rom(&mut self, rom: &[u8], offset: u16)
        requires
            old(self).wf(),
        ensures
            final(self)@ == old(self)@.load(rom@, offset, rom@.len()),
            final(self).wf(),
    {
        self.inner.load(rom, offset);
        proof {
            lemma_load_wf(old(self)@, rom@, offset, rom@.len());
        }
    }

    pub fn read(&self, addr: u16) -> (r: u8)
        requires
            self.wf(),
        ensures
            r == self@.read(addr),
    {
        self.inner.read(addr)
    }

    pub fn write(&mut self, addr: u16, val: u8)
        requires
            old(self).wf(),
        ensures
            final(self)@ == old(self)@.write(addr, val),
            final(self).wf(),
    {
        self.inner.write(addr, val);
    }

    /// Up to `len` bytes from `addr` (modulo the size) on, stopping at the end of memory.
    pub fn read_slice(&self, addr: u16, len: u16) -> (r: &[u8])
        requires
            self.wf(),
        ensures
            ({
                let start = addr as int % 4096;
                let end = if start + len < 4096 { start + len } else { 4096 };
                r@ == self@.data.subrange(start, end)
            }),
    {
        let data = self.inner.as_slice();
        let start = addr as usize % MEM_SIZE;
        let end = if start + (len as usize) < MEM_SIZE { start + len as usize } else { MEM_SIZE };
        vstd::slice::slice_subrange(data, start, end)
    }
}

impl Bus for Memory {
    open spec fn inv(s: FlatView) -> bool {
        s.wf() && s.size == 4096
    }

    open spec fn peek(s: FlatView, addr: u16) -> u8 {
        s.read(addr)
    }

    open spec fn after_read(s: FlatView, addr: u16) -> FlatView {
        s
    }

    open spec fn after_write(s: FlatView, addr: u16, value: u8) -> FlatView {
        s.write(addr, value)
    }

    proof fn lemma_inv(s: FlatView, addr: u16, value: u8) {
        lemma_write_wf(s, addr, value);
        assert(<Memory as Bus>::after_write(s, addr, value) == s.write(addr, value));
        assert(s.write(addr, value).size == s.size);
    }

    fn read(&mut self, addr: u16) -> (r: u8) {
        self.inner.read(addr)
    }

    fn write(&mut self, addr: u16, value: u8) {
        self.inner.write(addr, value);
    }
}

} // verus!
