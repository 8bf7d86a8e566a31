//! A CHIP-8 screen with its pixels in a public buffer, drawn on by XOR.

use vstd::prelude::*;
use crate::devices::display::{DisplayView, lemma_pixel_index};
use crate::chip8::instruction::{draw_spec, draw_rows, draw_row, drawn_rows, can_draw};

verus! {

/// A `width` x `height` screen, one byte per pixel, row by row.
pub struct Display {
    pub buffer: Vec<u8>,
    pub width: u16,
    pub height: u16,
}

impl View for Display {
    type V = DisplayView;

    open spec fn view(&self) -> DisplayView {
        DisplayView { buffer: self.buffer@, width: self.width, height: self.height }
    }
}

impl Display {
    /// A blank 64x32 screen.
    pub fn new() -> (r: Self)
        ensures
            r.width == 64 && r.height == 32,
            r.buffer@ == Seq::new(2048, |i: int| 0u8),
    {
        Display::with_size(64, 32)
    }

    /// A blank screen of the given size.
    pub fn with_size(width: u16, height: u16) -> (r: Self)
        ensures
            r.width == width,
            r.height == height,
            r.buffer@ == Seq::new((width * height) as nat, |i: int| 0u8),
    {
        assert((width as usize) * (height as usize) <= 0xFFFF * 0xFFFF) by (nonlinear_arith);
        Display { buffer: vec![0u8; (width as usize) * (height as usize)], width, height }
    }

    /// Every pixel off.
    pub fn clear(&mut self)
        ensures
            final(self).buffer@ == Seq::new(old(self).buffer@.len(), |i: int| 0u8),
            final(self).width == old(self).width,
            final(self).height == old(self).height,
    {
        let n = self.buffer.len();
        let mut i: usize = 0;
        while i < n
            invariant
                i <= n,
                n == self.buffer@.len(),
                self.width == old(self).width,
                self.height == old(self).height,
                forall|k: int| 0 <= k < i ==> self.buffer@[k] == 0,
            decreases n - i,
        {
            self.buffer.set(i, 0);
            i = i + 1;
        }
        assert(self.buffer@ =~= Seq::new(old(self).buffer@.len(), |i: int| 0u8));
    }

    /// Draws a sprite at (x, y) by XOR, wrapping at the edges; returns
    /// whether a lit pixel was turned off.
    pub fn draw(&mut self, x: u8, y: u8, sprite: &[u8]) -> (collision: bool)
        requires
            old(self)@.wf(),
            can_draw(old(self)@, sprite@),
        ensures
            (final(self)@, collision) == draw_spec(old(self)@, x, y, sprite@),
    {
        let mut collision = false;
        let w = self.width;
        let h = self.height;
        let ghost d0 = self@;
        let ghost wm = w as u8;
        let ghost hm = h as u8;
        let mut row: usize = 0;
        while row < sprite.len()
            invariant_except_break
                row <= sprite@.len(),
                row <= h,
                (self@, collision) == draw_rows(d0, x, y, sprite@, row as nat, wm, hm),
            invariant
                d0.wf(),
                d0.width == w,
                d0.height == h,
                wm == w as u8,
                hm == h as u8,
                can_draw(d0, sprite@),
                self@.wf(),
                self.width == w,
                self.height == h,
            ensures
                (self@, collision) == draw_rows(d0, x, y, sprite@, drawn_rows(d0, sprite@), wm, hm),
            decreases sprite.len() - row,
        {
            if row as u16 >= h {
                break;
            }
            let byte = sprite[row];
            let py = (y.wrapping_add(row as u8)) % (h as u8);
            let ghost d_row = self@;
            let mut row_collision = false;
            let mut bit: u8 = 0;
            while bit < 8
                invariant
                    bit <= 8,
                    row < sprite@.len(),
                    row < h,
                    byte == sprite@[row as int],
                    d_row.wf(),
                    d_row.width == w,
                    d_row.height == h,
                    wm == w as u8,
                    hm == h as u8,
                    py < hm,
                    hm <= h,
                    byte != 0 ==> wm != 0,
                    (self@, row_collision) == draw_row(d_row, x, py, byte, bit as nat, wm),
                    self@.wf(),
                    self.width == w,
                    self.height == h,
                decreases 8 - bit,
            {
                if byte & (0x80 >> bit) != 0 {
                    assert(byte != 0) by (bit_vector)
                        requires
                            byte & (0x80u8 >> bit) != 0,
                    ;
                    let px = (x.wrapping_add(bit)) % (w as u8);
                    let n = self.buffer.len();
                    proof {
                        lemma_pixel_index(w, h, px as int, py as int);
                        assert((py as int) * (w as int) + (px as int) < n);
                        assert((py as int) * (w as int) >= 0) by (nonlinear_arith);
                    }
                    let idx = (py as usize) * (w as usize) + (px as usize);
                    let old = self.buffer[idx];
                    if old != 0 {
                        row_collision = true;
                    }
                    self.buffer.set(idx, old ^ 1);
                }
                bit = bit + 1;
            }
            if row_collision {
                collision = true;
            }
            row = row + 1;
            proof {
                crate::chip8::instruction::lemma_draw_rows_wf(d0, x, y, sprite@, row as nat, wm, hm);
            }
        }
        collision
    }

    /// Whether pixel (x, y) is lit; false unless x and y are below the
    /// width and height taken modulo 256.
    pub fn get_pixel(&self, x: u8, y: u8) -> (r: bool)
        requires
            self@.wf(),
        ensures
            r == (x < self.width as u8 && y < self.height as u8 && self@.pixel(x as int, y as int) != 0),
    {
        if x >= self.width as u8 || y >= self.height as u8 {
            return false;
        }
        let n = self.buffer.len();
        proof {
            lemma_pixel_index(self.width, self.height, x as int, y as int);
            assert((y as int) * (self.width as int) + (x as int) < n);
            assert((y as int) * (self.width as int) >= 0) by (nonlinear_arith);
        }
        let idx = (y as usize) * (self.width as usize) + (x as usize);
        self.buffer[idx] != 0
    }

    /// A copy of the pixels.
    pub fn get_buffer(&self) -> (r: Vec<u8>)
        ensures
            r@ == self.buffer@,
    {
        self.buffer.clone()
    }

    pub fn buffer_len(&self) -> (r: usize)
        ensures
            r == self.buffer@.len(),
    {
        self.buffer.len()
    }
}

} // verus!
