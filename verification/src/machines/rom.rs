//! A small 6502 assembler, and the serial monitor ROM of the Eater 6502
//! built with it: it prints `>`, then echoes every byte it receives,
//! answering a carriage return with a line feed and a new `>`.

use vstd::prelude::*;
use crate::bus::{low_byte, high_byte, low_byte_spec, high_byte_spec};

verus! {

/// An assembler: the code so far (to be placed at 0x8000), the labels
/// defined (a later definition of a name hides an earlier one), and the
/// branches whose offsets still have to be filled in.
pub struct Asm {
    buf: Vec<u8>,
    labels: Vec<(String, u16)>,
    pending: Vec<(String, u16)>,
}

/// An assembler as plain values.
pub struct AsmView {
    pub buf: Seq<u8>,
    pub labels: Seq<(Seq<char>, u16)>,
    pub pending: Seq<(Seq<char>, u16)>,
}

pub open spec fn names(s: Seq<(String, u16)>) -> Seq<(Seq<char>, u16)> {
    s.map_values(|p: (String, u16)| (p.0@, p.1))
}

impl View for Asm {
    type V = AsmView;

    closed spec fn view(&self) -> AsmView {
        AsmView { buf: self.buf@, labels: names(self.labels@), pending: names(self.pending@) }
    }
}

/// The address of a label: its latest definition.
pub open spec fn lookup(labels: Seq<(Seq<char>, u16)>, name: Seq<char>) -> Option<u16>
    decreases labels.len(),
{
    if labels.len() == 0 {
        None
    } else if labels.last().0 == name {
        Some(labels.last().1)
    } else {
        lookup(labels.drop_last(), name)
    }
}

/// The address the next byte goes to.
pub open spec fn pos_of(buf: Seq<u8>) -> u16 {
    ((buf.len() as u16) + 0x8000) as u16
}

/// Whether the next byte's address can be computed (the code, modulo
/// 0x10000, is shorter than 0x8000).
pub open spec fn pos_ok(buf: Seq<u8>) -> bool {
    (buf.len() as u16) < 0x8000
}

/// The code after the first `n` pending branches are filled in: the byte
/// after each branch opcode at `at` becomes the offset from `at + 2` to
/// its label.
pub open spec fn resolved(buf: Seq<u8>, labels: Seq<(Seq<char>, u16)>, pending: Seq<(Seq<char>, u16)>, n: nat) -> Seq<u8>
    decreases n,
{
    if n == 0 {
        buf
    } else {
        let b = resolved(buf, labels, pending, (n - 1) as nat);
        let (name, at) = pending[n - 1];
        let target = lookup(labels, name)->0;
        b.update(at - 0x8000 + 1, (target.wrapping_sub((at + 2) as u16)) as u8)
    }
}

/// Whether every pending branch can be filled in: its label is defined,
/// and its operand byte lies in the code.
pub open spec fn resolvable(v: AsmView) -> bool {
    forall|k: int| 0 <= k < v.pending.len() ==> {
        let (name, at) = #[trigger] v.pending[k];
        &&& lookup(v.labels, name) is Some
        &&& 0x8000 <= at <= 0xFFFD
        &&& at - 0x8000 + 1 < v.buf.len()
    }
}

/// A 32 KiB ROM image: 0xFF, with `code` from `rom_offset` and the reset,
/// NMI and IRQ vectors all pointing at `rom_offset`.
pub open spec fn rom_image(code: Seq<u8>, rom_offset: u16) -> Seq<u8> {
    let start = rom_offset - 0x8000;
    Seq::new(
        0x8000,
        |i: int|
            if i == 0x7FFA || i == 0x7FFC || i == 0x7FFE {
                low_byte_spec(rom_offset)
            } else if i == 0x7FFB || i == 0x7FFD || i == 0x7FFF {
                high_byte_spec(rom_offset)
            } else if start <= i < start + code.len() {
                code[i - start]
            } else {
                0xFFu8
            },
    )
}

impl Asm {
    /// An empty program.
    pub fn new() -> (r: Self)
        ensures
            r@.buf == Seq::<u8>::empty(),
            r@.labels == Seq::<(Seq<char>, u16)>::empty(),
            r@.pending == Seq::<(Seq<char>, u16)>::empty(),
    {
        let r = Asm { buf: Vec::new(), labels: Vec::new(), pending: Vec::new() };
        assert(r@.labels =~= Seq::<(Seq<char>, u16)>::empty());
        assert(r@.pending =~= Seq::<(Seq<char>, u16)>::empty());
        r
    }

    /// Sets the origin: the code always starts at 0x8000, so nothing changes.
    pub fn org(&mut self, addr: u16)
        ensures
            final(self)@ == old(self)@,
    {
    }

    /// The address the next byte goes to.
    pub fn pos(&self) -> (r: u16)
        requires
            pos_ok(self@.buf),
        ensures
            r == pos_of(self@.buf),
    {
        self.buf.len() as u16 + 0x8000
    }

    /// Defines a label at the current address.
    pub fn label(&mut self, name: &str)
        requires
            pos_ok(old(self)@.buf),
        ensures
            final(self)@ == (AsmView {
                labels: old(self)@.labels.push((name@, pos_of(old(self)@.buf))),
                ..old(self)@
            }),
    {
        let p = self.pos();
        self.labels.push((name.to_owned(), p));
        assert(self@.labels =~= old(self)@.labels.push((name@, p)));
    }

    /// Records a branch at `at` whose offset is filled in by `resolve`.
    pub fn patch_label(&mut self, name: &str, at: u16)
        ensures
            final(self)@ == (AsmView { pending: old(self)@.pending.push((name@, at)), ..old(self)@ }),
    {
        self.pending.push((name.to_owned(), at));
        assert(self@.pending =~= old(self)@.pending.push((name@, at)));
    }

    /// Appends a byte.
    pub fn byte(&mut self, b: u8)
        ensures
            final(self)@ == (AsmView { buf: old(self)@.buf.push(b), ..old(self)@ }),
    {
        self.buf.push(b);
    }

    /// Appends bytes.
    pub fn bytes(&mut self, bs: &[u8])
        ensures
            final(self)@ == (AsmView { buf: old(self)@.buf + bs@, ..old(self)@ }),
    {
        let mut i: usize = 0;
        while i < bs.len()
            invariant
                i <= bs@.len(),
                self@ == (AsmView { buf: old(self)@.buf + bs@.subrange(0, i as int), ..old(self)@ }),
            decreases bs.len() - i,
        {
            self.buf.push(bs[i]);
            i = i + 1;
            assert(self@.buf =~= old(self)@.buf + bs@.subrange(0, i as int));
        }
        assert(bs@.subrange(0, bs@.len() as int) =~= bs@);
    }

    /// Appends an immediate operand.
    pub fn imm(&mut self, b: u8)
        ensures
            final(self)@ == (AsmView { buf: old(self)@.buf.push(b), ..old(self)@ }),
    {
        self.buf.push(b);
    }

    /// Appends an address, low byte first.
    pub fn addr(&mut self, a: u16)
        ensures
            final(self)@ == (AsmView {
                buf: old(self)@.buf.push(low_byte_spec(a)).push(high_byte_spec(a)),
                ..old(self)@
            }),
    {
        self.buf.push(low_byte(a));
        self.buf.push(high_byte(a));
    }

    /// Appends the branch offset to `target` (from the address after this byte).
    pub fn reloc(&mut self, target: u16)
        requires
            pos_ok(old(self)@.buf),
            pos_of(old(self)@.buf) < 0xFFFF,
        ensures
            final(self)@ == (AsmView {
                buf: old(self)@.buf.push((target.wrapping_sub((pos_of(old(self)@.buf) + 1) as u16)) as u8),
                ..old(self)@
            }),
    {
        let offset = target.wrapping_sub(self.pos() + 1) as u8;
        self.byte(offset);
    }

    /// Fills in every pending branch offset.
    pub fn resolve(&mut self)
        requires
            resolvable(old(self)@),
        ensures
            final(self)@ == (AsmView {
                buf: resolved(old(self)@.buf, old(self)@.labels, old(self)@.pending, old(self)@.pending.len()),
                ..old(self)@
            }),
            final(self)@.buf.len() == old(self)@.buf.len(),
    {
        let mut k: usize = 0;
        while k < self.pending.len()
            invariant
                k <= self.pending@.len(),
                self@.labels == old(self)@.labels,
                self@.pending == old(self)@.pending,
                self.pending@.len() == old(self)@.pending.len(),
                self@.buf == resolved(old(self)@.buf, old(self)@.labels, old(self)@.pending, k as nat),
                self@.buf.len() == old(self)@.buf.len(),
                resolvable(old(self)@),
            decreases self.pending@.len() - k,
        {
            let at = self.pending[k].1;
            assert(old(self)@.pending[k as int] == (self.pending@[k as int].0@, at));
            let target = self.find_label(&self.pending[k].0);
            let offset = target.wrapping_sub(at + 2) as u8;
            let i = at as usize - 0x8000 + 1;
            self.buf.set(i, offset);
            k = k + 1;
        }
    }

    /// The latest address defined for `name`.
    fn find_label(&self, name: &String) -> (r: u16)
        requires
            lookup(self@.labels, name@) is Some,
        ensures
            r == lookup(self@.labels, name@)->0,
    {
        let mut i = self.labels.len();
        assert(self@.labels.subrange(0, i as int) =~= self@.labels);
        while i > 0
            invariant
                i <= self.labels@.len(),
                lookup(self@.labels, name@) == lookup(self@.labels.subrange(0, i as int), name@),
            decreases i,
        {
            assert(self@.labels.subrange(0, i as int).drop_last() =~= self@.labels.subrange(0, i - 1));
            assert(self@.labels[i - 1] == (self.labels@[i - 1].0@, self.labels@[i - 1].1));
            if self.labels[i - 1].0 == *name {
                return self.labels[i - 1].1;
            }
            i = i - 1;
        }
        assert(self@.labels.subrange(0, 0) =~= Seq::<(Seq<char>, u16)>::empty());
        0
    }

    /// Places the code at `rom_offset` in a 32 KiB ROM filled with 0xFF,
    /// with the three vectors pointing at `rom_offset`.
    pub fn finish(self, rom_offset: u16) -> (r: Vec<u8>)
        requires
            rom_offset >= 0x8000,
            rom_offset - 0x8000 + self@.buf.len() <= 0x8000,
        ensures
            r@ == rom_image(self@.buf, rom_offset),
    {
        let start = (rom_offset - 0x8000) as usize;
        let mut rom = vec![0xFFu8; 0x8000];
        let n = self.buf.len();
        let mut i: usize = 0;
        while i < n
            invariant
                i <= n,
                n == self@.buf.len(),
                start + n <= 0x8000,
                rom@.len() == 0x8000,
                forall|k: int| 0 <= k < 0x8000 ==> #[trigger] rom@[k] == if start <= k < start + i { self@.buf[k - start] } else { 0xFFu8 },
            decreases n - i,
        {
            rom.set(start + i, self.buf[i]);
            i = i + 1;
        }
        rom.set(0x7FFC, low_byte(rom_offset));
        rom.set(0x7FFD, high_byte(rom_offset));
        rom.set(0x7FFA, low_byte(rom_offset));
        rom.set(0x7FFB, high_byte(rom_offset));
        rom.set(0x7FFE, low_byte(rom_offset));
        rom.set(0x7FFF, high_byte(rom_offset));
        assert(rom@ =~= rom_image(self@.buf, rom_offset));
        rom
    }
}

/// Appends a loop that waits until `mask` is set in the register at
/// `sts_addr`: LDA sts_addr; AND #mask; BEQ back to the LDA.
fn wait_bit(a: &mut Asm, sts_addr: u16, mask: u8)
    requires
        old(a)@.buf.len() + 7 < 0x8000,
    ensures
        final(a)@ == (AsmView {
            buf: old(a)@.buf + seq![0xADu8, low_byte_spec(sts_addr), high_byte_spec(sts_addr), 0x29u8, mask, 0xF0u8, 0xF9u8],
            ..old(a)@
        }),
{
    let pos = a.pos();
    a.byte(0xAD);
    a.addr(sts_addr);
    a.byte(0x29);
    a.imm(mask);
    a.byte(0xF0);
    a.reloc(pos);
    assert(pos.wrapping_sub((pos + 7) as u16) as u8 == 0xF9u8) by (bit_vector)
        requires
            pos <= 0xFFF8,
    ;
    assert(a@.buf =~= old(a)@.buf + seq![0xADu8, low_byte_spec(sts_addr), high_byte_spec(sts_addr), 0x29u8, mask, 0xF0u8, 0xF9u8]);
}

/// Appends code that waits for the ACIA's transmitter, then sends `byte`.
fn send_byte(a: &mut Asm, byte: u8)
    requires
        old(a)@.buf.len() + 12 < 0x8000,
    ensures
        final(a)@ == (AsmView {
            buf: old(a)@.buf + seq![0xADu8, 0x01, 0x60, 0x29, 0x10, 0xF0, 0xF9, 0xA9, byte, 0x8D, 0x00, 0x60],
            ..old(a)@
        }),
{
    wait_bit(a, 0x6001, 0x10);
    a.byte(0xA9);
    a.imm(byte);
    a.byte(0x8D);
    a.addr(0x6000);
    assert(low_byte_spec(0x6001) == 0x01 && high_byte_spec(0x6001) == 0x60 && low_byte_spec(0x6000) == 0x00
        && high_byte_spec(0x6000) == 0x60) by (bit_vector);
    assert(a@.buf =~= old(a)@.buf + seq![0xADu8, 0x01, 0x60, 0x29, 0x10, 0xF0, 0xF9, 0xA9, byte, 0x8D, 0x00, 0x60]);
}

/// The machine code of the monitor, as it is placed at 0x8000.
pub open spec fn monitor_program() -> Seq<u8> {
    seq![
        0x78u8, 0xD8, 0xA2, 0xFF, 0x9A, 0xA9, 0x00, 0x8D, 0x01, 0x60, 0xA9, 0x0B, 0x8D, 0x02, 0x60,
        0xA9, 0x1F, 0x8D, 0x03, 0x60, 0xAD, 0x01, 0x60, 0x29, 0x10, 0xF0, 0xF9, 0xA9, 0x3E, 0x8D,
        0x00, 0x60, 0xAD, 0x01, 0x60, 0x29, 0x08, 0xF0, 0xF9, 0xAD, 0x00, 0x60, 0x85, 0x00, 0xAD,
        0x01, 0x60, 0x29, 0x10, 0xF0, 0xF9, 0xA5, 0x00, 0x8D, 0x00, 0x60, 0xC9, 0x0D, 0xD0, 0xE4,
        0xAD, 0x01, 0x60, 0x29, 0x10, 0xF0, 0xF9, 0xA9, 0x0A, 0x8D, 0x00, 0x60, 0xAD, 0x01, 0x60,
        0x29, 0x10, 0xF0, 0xF9, 0xA9, 0x3E, 0x8D, 0x00, 0x60, 0x4C, 0x20, 0x80,
    ]
}

/// The ROM of the serial monitor: initialise the stack and the ACIA
/// (reset, command 0x0B, control 0x1F), send `>`, then forever: wait for a
/// byte, store it at 0x00, send it back, and after a carriage return send
/// a line feed and `>`.
pub fn generate_monitor() -> (r: Vec<u8>)
    ensures
        r@ == rom_image(monitor_program(), 0x8000),
{
    let mut a = Asm::new();
    a.byte(0x78);
    a.byte(0xD8);
    a.byte(0xA2);
    a.imm(0xFF);
    a.byte(0x9A);
    a.byte(0xA9);
    a.imm(0x00);
    a.byte(0x8D);
    a.addr(0x6001);
    a.byte(0xA9);
    a.imm(0x0B);
    a.byte(0x8D);
    a.addr(0x6002);
    a.byte(0xA9);
    a.imm(0x1F);
    a.byte(0x8D);
    a.addr(0x6003);
    assert(low_byte_spec(0x6001) == 0x01 && high_byte_spec(0x6001) == 0x60 && low_byte_spec(0x6002) == 0x02
        && high_byte_spec(0x6002) == 0x60 && low_byte_spec(0x6003) == 0x03 && high_byte_spec(0x6003) == 0x60
        && low_byte_spec(0x6000) == 0x00 && high_byte_spec(0x6000) == 0x60 && low_byte_spec(0x8000) == 0x00
        && high_byte_spec(0x8000) == 0x80 && low_byte_spec(0x8020) == 0x20 && high_byte_spec(0x8020) == 0x80)
        by (bit_vector);
    let ghost init = a@.buf;
    assert(init =~= monitor_program().subrange(0, 20));
    send_byte(&mut a, 0x3E);
    assert(a@.buf =~= monitor_program().subrange(0, 32));
    a.label("main_loop");
    wait_bit(&mut a, 0x6001, 0x08);
    a.byte(0xAD);
    a.addr(0x6000);
    a.byte(0x85);
    a.imm(0x00);
    wait_bit(&mut a, 0x6001, 0x10);
    a.byte(0xA5);
    a.imm(0x00);
    a.byte(0x8D);
    a.addr(0x6000);
    a.byte(0xC9);
    a.imm(0x0D);
    assert(a@.buf =~= monitor_program().subrange(0, 58));
    let p = a.pos();
    a.patch_label("main_loop", p);
    a.byte(0xD0);
    a.reloc(0);
    send_byte(&mut a, 0x0A);
    send_byte(&mut a, 0x3E);
    a.byte(0x4C);
    a.addr(0x8000);
    let ghost before = a@;
    assert(before.buf.len() == 87);
    assert(before.labels == seq![("main_loop"@, 0x8020u16)]);
    assert(before.pending == seq![("main_loop"@, 0x803Au16)]);
    assert(resolvable(before));
    a.resolve();
    assert(lookup(before.labels, "main_loop"@) == Some(0x8020u16));
    proof {
        reveal_with_fuel(resolved, 2);
    }
    assert(a@.buf == before.buf.update(0x803A - 0x8000 + 1, 0x8020u16.wrapping_sub((0x803Au16 + 2) as u16) as u8));
    let target = a.find_label(&"main_loop".to_owned());
    let len = a.buf.len();
    a.buf.set(len - 2, low_byte(target));
    a.buf.set(len - 1, high_byte(target));
    assert(0x8020u16.wrapping_sub((0x803Au16 + 2) as u16) as u8 == 0xE4u8) by (bit_vector);
    assert(a@.buf =~= monitor_program());
    a.finish(0x8000)
}

} // verus!
