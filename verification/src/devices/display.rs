//! A monochrome pixel display: a `width` x `height` grid of byte pixels,
//! row by row.

use vstd::prelude::*;

verus! {

/// A pixel grid.
pub struct Display {
    buffer: Vec<u8>,
    width: u16,
    height: u16,
}

/// A display as plain values.
pub struct DisplayView {
    pub buffer: Seq<u8>,
    pub width: u16,
    pub height: u16,
}

impl View for Display {
    type V = DisplayView;

    closed spec fn view(&self) -> DisplayView {
        DisplayView { buffer: self.buffer@, width: self.width, height: self.height }
    }
}

/// The index of pixel (x, y) in the buffer.
pub open spec fn pixel_index(width: u16, x: int, y: int) -> int {
    y * width + x
}

impl DisplayView {
    /// One byte per pixel.
    pub open spec fn wf(self) -> bool {
        self.buffer.len() == self.width * self.height
    }

    /// Whether (x, y) lies on the grid.
    pub open spec fn on_grid(self, x: int, y: int) -> bool {
        0 <= x < self.width && 0 <= y < self.height
    }

    /// The pixel at (x, y); 0 off the grid.
    pub open spec fn pixel(self, x: int, y: int) -> u8 {
        if self.on_grid(x, y) {
            self.buffer[pixel_index(self.width, x, y)]
        } else {
            0
        }
    }

    /// The display with pixel (x, y) set to `value` (no change off the grid).
    pub open spec fn set(self, x: int, y: int, value: u8) -> DisplayView {
        if self.on_grid(x, y) {
            DisplayView { buffer: self.buffer.update(pixel_index(self.width, x, y), value), ..self }
        } else {
            self
        }
    }
}

/// Every pixel on the grid has its own place in the buffer.
pub proof fn lemma_pixel_index(width: u16, height: u16, x: int, y: int)
    requires
        0 <= x < width,
        0 <= y < height,
    ensures
        0 <= pixel_index(width, x, y) < width * height,
{
    assert(0 <= y * width + x < width * height) by (nonlinear_arith)
        requires
            0 <= x < width,
            0 <= y < height,
    ;
}

/// Distinct pixels have distinct places in the buffer.
pub proof fn lemma_pixel_index_distinct(width: u16, x1: int, y1: int, x2: int, y2: int)
    requires
        0 <= x1 < width,
        0 <= x2 < width,
        0 <= y1,
        0 <= y2,
        x1 != x2 || y1 != y2,
    ensures
        pixel_index(width, x1, y1) != pixel_index(width, x2, y2),
{
    if y1 == y2 {
    } else if y1 < y2 {
        assert(y1 * width + width <= y2 * width) by (nonlinear_arith)
            requires
                y1 < y2,
        ;
    } else {
        assert(y2 * width + width <= y1 * width) by (nonlinear_arith)
            requires
                y2 < y1,
        ;
    }
}

impl Display {
    /// A blank grid of the given size.
    pub fn new(width: u16, height: u16) -> (r: Self)
        ensures
            r@.width == width,
            r@.height == height,
            r@.buffer == Seq::new((width * height) as nat, |i: int| 0u8),
            r@.wf(),
    {
        assert((width as usize) * (height as usize) <= 0xFFFF * 0xFFFF) by (nonlinear_arith);
        let n = (width as usize) * (height as usize);
        Display { buffer: vec![0u8; n], width, height }
    }

    pub fn width(&self) -> (r: u16)
        ensures
            r == self@.width,
    {
        self.width
    }

    pub fn height(&self) -> (r: u16)
        ensures
            r == self@.height,
    {
        self.height
    }

    /// Every pixel back to 0.
    pub fn clear(&mut self)
        ensures
            old(self)@.wf() ==> final(self)@.wf(),
            final(self)@ == (DisplayView {
                buffer: Seq::new(old(self)@.buffer.len(), |i: int| 0u8),
                ..old(self)@
            }),
    {
        let n = self.buffer.len();
        let mut buffer = Vec::new();
        let mut i: usize = 0;
        while i < n
            invariant
                i <= n,
                buffer@ == Seq::new(i as nat, |k: int| 0u8),
            decreases n - i,
        {
            buffer.push(0u8);
            i = i + 1;
            assert(buffer@ =~= Seq::new(i as nat, |k: int| 0u8));
        }
        self.buffer = buffer;
    }

    /// Sets pixel (x, y); nothing happens off the grid.
    pub fn set_pixel(&mut self, x: u8, y: u8, value: u8)
        requires
            old(self)@.wf(),
        ensures
            final(self)@ == old(self)@.set(x as int, y as int, value),
            final(self)@.wf(),
    {
        if (x as u16) < self.width && (y as u16) < self.height {
            let n = self.buffer.len();
            proof {
                lemma_pixel_index(self.width, self.height, x as int, y as int);
                assert((y as int) * (self.width as int) + (x as int) < n);
                assert((y as int) * (self.width as int) >= 0) by (nonlinear_arith);
            }
            let idx = (y as usize) * (self.width as usize) + (x as usize);
            self.buffer.set(idx, value);
        }
    }

    /// The pixel at (x, y); 0 off the grid.
    pub fn get_pixel(&self, x: u8, y: u8) -> (r: u8)
        requires
            self@.wf(),
        ensures
            r == self@.pixel(x as int, y as int),
    {
        if (x as u16) < self.width && (y as u16) < self.height {
            let n = self.buffer.len();
            proof {
                lemma_pixel_index(self.width, self.height, x as int, y as int);
                assert((y as int) * (self.width as int) + (x as int) < n);
                assert((y as int) * (self.width as int) >= 0) by (nonlinear_arith);
            }
            let idx = (y as usize) * (self.width as usize) + (x as usize);
            self.buffer[idx]
        } else {
            0
        }
    }

    /// A copy of the pixels, row by row.
    pub fn get_buffer(&self) -> (r: Vec<u8>)
        ensures
            r@ == self@.buffer,
    {
        self.buffer.clone()
    }

    /// The number of pixels.
    pub fn buffer_len(&self) -> (r: usize)
        ensures
            r == self@.buffer.len(),
    {
        self.buffer.len()
    }

    /// The pixels, row by row, borrowed.
    pub fn buffer(&self) -> (r: &[u8])
        ensures
            r@ == self@.buffer,
    {
        self.buffer.as_slice()
    }
}

/// A pixel written reads back; other pixels keep their values.
pub proof fn lemma_set_then_get(d: DisplayView, x: int, y: int, value: u8, x2: int, y2: int)
    requires
        d.wf(),
        d.on_grid(x, y),
    ensures
        d.set(x, y, value).pixel(x, y) == value,
        (x2 != x || y2 != y) ==> d.set(x, y, value).pixel(x2, y2) == d.pixel(x2, y2),
{
    lemma_pixel_index(d.width, d.height, x, y);
    if d.on_grid(x2, y2) && (x2 != x || y2 != y) {
        lemma_pixel_index(d.width, d.height, x2, y2);
        lemma_pixel_index_distinct(d.width, x, y, x2, y2);
    }
}

} // verus!
