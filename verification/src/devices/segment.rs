//! Seven-segment digits: the segment patterns of the hexadecimal digits,
//! and rendering a digit into a pixel buffer.
//!
//! Segment bits: bit 0 A (top), 1 B (upper right), 2 C (lower right),
//! 3 D (bottom), 4 E (lower left), 5 F (upper left), 6 G (middle).

use vstd::prelude::*;

verus! {

/// Segment patterns of the digits 0..F.
pub const HEX_PATTERNS: [u8; 16] = [
    0x3F, 0x06, 0x5B, 0x4F, 0x66, 0x6D, 0x7D, 0x07, 0x7F, 0x6F, 0x77, 0x7C, 0x39, 0x5E, 0x79, 0x71,
];

/// All segments off.
pub const BLANK: u8 = 0x00;
/// A minus sign (segment G).
pub const MINUS: u8 = 0x40;
/// A degree sign (segments A, B, F, G).
pub const DEGREE: u8 = 0x63;

/// The pixel value of a segment: 1 when its bit is set in the pattern.
pub open spec fn seg_on(segments: u8, bit: u8) -> u8 {
    if segments & (1u8 << bit) != 0 { 1 } else { 0 }
}

/// Pixels `start + x0 .. start + x1` set to `v`.
pub open spec fn hline(b: Seq<u8>, start: int, x0: int, x1: int, v: u8) -> Seq<u8> {
    Seq::new(b.len(), |k: int| if start + x0 <= k < start + x1 { v } else { b[k] })
}

/// For each of the `n` rows from `y0` on, in order: columns 0 and 1 set to
/// `lv`, columns `gap_r` and `gap_r + 1` set to `rv`.
pub open spec fn side_rows(b: Seq<u8>, stride: int, y0: int, n: nat, gap_r: int, lv: u8, rv: u8) -> Seq<u8>
    decreases n,
{
    if n == 0 {
        b
    } else {
        let b1 = side_rows(b, stride, y0, (n - 1) as nat, gap_r, lv, rv);
        let base = (y0 + n - 1) * stride;
        b1.update(base, lv).update(base + 1, lv).update(base + gap_r, rv).update(base + gap_r + 1, rv)
    }
}

/// A digit of `w` x `h` pixels rendered into `b` (row `y` at `y * stride`):
/// A across the top, F and B down the upper half, G across the middle row
/// `h / 2`, E and C down the lower half, D across the bottom, each segment
/// 1 when lit and 0 when not; the horizontal segments span columns 2 to
/// `w - 4`, the vertical ones take columns 0-1 and `w - 3`..`w - 2`.
/// Digits smaller than 5 x 7 leave the buffer as it is.
pub open spec fn render_spec(segments: u8, b: Seq<u8>, stride: int, w: int, h: int) -> Seq<u8> {
    if w < 5 || h < 7 {
        b
    } else {
        let mid = h / 2;
        let gap_r = w - 3;
        let b1 = hline(b, 0, 2, gap_r, seg_on(segments, 0));
        let b2 = side_rows(b1, stride, 1, (mid - 1) as nat, gap_r, seg_on(segments, 5), seg_on(segments, 1));
        let b3 = hline(b2, mid * stride, 2, gap_r, seg_on(segments, 6));
        let b4 = side_rows(b3, stride, mid + 1, (h - 2 - mid) as nat, gap_r, seg_on(segments, 4), seg_on(segments, 2));
        hline(b4, (h - 1) * stride, 2, gap_r, seg_on(segments, 3))
    }
}

/// The buffer sizes a digit fits in: every pixel it writes is in the buffer.
pub open spec fn fits(len: int, stride: int, w: int, h: int) -> bool {
    w < 5 || h < 7 || (h - 1) * stride + w - 2 < len
}

proof fn lemma_row_bound(y: int, h: int, stride: int)
    requires
        0 <= y < h,
        stride >= 0,
    ensures
        y * stride <= (h - 1) * stride,
        y * stride >= 0,
{
    assert(y * stride <= (h - 1) * stride) by (nonlinear_arith)
        requires
            0 <= y < h,
            stride >= 0,
    ;
    assert(y * stride >= 0) by (nonlinear_arith)
        requires
            0 <= y,
            stride >= 0,
    ;
}

fn on(segments: u8, bit: u8) -> (r: u8)
    requires
        bit < 8,
    ensures
        r == seg_on(segments, bit),
{
    if segments & (1 << bit) != 0 { 1 } else { 0 }
}

fn fill_row(buf: &mut [u8], start: usize, x0: usize, x1: usize, v: u8)
    requires
        x0 <= x1,
        start + x1 <= old(buf)@.len(),
    ensures
        final(buf)@ == hline(old(buf)@, start as int, x0 as int, x1 as int, v),
        final(buf)@.len() == old(buf)@.len(),
{
    let n = buf.len();
    let mut x = x0;
    while x < x1
        invariant
            start + x1 <= buf@.len(),
            buf@.len() == old(buf)@.len(),
            n == buf@.len(),
            x0 <= x <= x1,
            forall|k: int| 0 <= k < buf@.len() ==> #[trigger] buf@[k] == if start + x0 <= k < start + x { v } else { old(buf)@[k] },
        decreases x1 - x,
    {
        buf[start + x] = v;
        x = x + 1;
    }
    assert(buf@ =~= hline(old(buf)@, start as int, x0 as int, x1 as int, v));
}

fn fill_sides(buf: &mut [u8], stride: usize, y0: usize, y1: usize, gap_r: usize, lv: u8, rv: u8, h: usize)
    requires
        y0 <= y1,
        y1 <= h,
        h >= 1,
        (h - 1) * stride + gap_r + 1 < old(buf)@.len(),
    ensures
        final(buf)@ == side_rows(old(buf)@, stride as int, y0 as int, (y1 - y0) as nat, gap_r as int, lv, rv),
        final(buf)@.len() == old(buf)@.len(),
{
    let n = buf.len();
    let mut y = y0;
    while y < y1
        invariant
            y0 <= y <= y1,
            y1 <= h,
            h >= 1,
            buf@.len() == old(buf)@.len(),
            n == buf@.len(),
            (h - 1) * stride + gap_r + 1 < buf@.len(),
            buf@ == side_rows(old(buf)@, stride as int, y0 as int, (y - y0) as nat, gap_r as int, lv, rv),
        decreases y1 - y,
    {
        proof {
            lemma_row_bound(y as int, h as int, stride as int);
        }
        let base = y * stride;
        buf[base] = lv;
        buf[base + 1] = lv;
        buf[base + gap_r] = rv;
        buf[base + gap_r + 1] = rv;
        y = y + 1;
    }
}

/// Renders a seven-segment pattern as a `digit_w` x `digit_h` digit into
/// `buf`, row `y` starting at `y * stride`.
pub fn render(segments: u8, buf: &mut [u8], stride: usize, digit_w: usize, digit_h: usize)
    requires
        fits(old(buf)@.len() as int, stride as int, digit_w as int, digit_h as int),
    ensures
        final(buf)@ == render_spec(segments, old(buf)@, stride as int, digit_w as int, digit_h as int),
{
    let w = digit_w;
    let h = digit_h;
    if w < 5 || h < 7 {
        return;
    }
    let n = buf.len();
    let mid = h / 2;
    let gap_l: usize = 2;
    let gap_r = w - 3;
    proof {
        lemma_row_bound(mid as int, h as int, stride as int);
        lemma_row_bound((h - 1) as int, h as int, stride as int);
    }
    fill_row(buf, 0, gap_l, gap_r, on(segments, 0));
    fill_sides(buf, stride, 1, mid, gap_r, on(segments, 5), on(segments, 1), h);
    fill_row(buf, mid * stride, gap_l, gap_r, on(segments, 6));
    fill_sides(buf, stride, mid + 1, h - 1, gap_r, on(segments, 4), on(segments, 2), h);
    fill_row(buf, (h - 1) * stride, gap_l, gap_r, on(segments, 3));
}

/// Renders the hexadecimal digit `digit & 0xF`.
pub fn render_hex(digit: u8, buf: &mut [u8], stride: usize, w: usize, h: usize)
    requires
        fits(old(buf)@.len() as int, stride as int, w as int, h as int),
    ensures
        final(buf)@ == render_spec(HEX_PATTERNS@[(digit & 0x0F) as int], old(buf)@, stride as int, w as int, h as int),
{
    proof {
        crate::bits::lemma_nibbles(digit);
    }
    let patterns = HEX_PATTERNS;
    let pattern = patterns[(digit & 0x0F) as usize];
    render(pattern, buf, stride, w, h);
}

/// The pixel in column `x` of row `y` of a buffer laid out `stride` pixels per row.
pub open spec fn pixel(b: Seq<u8>, stride: int, x: int, y: int) -> u8 {
    b[y * stride + x]
}

/// Rows `y < z` of `stride` pixels: row `y` ends before row `z` starts.
proof fn lemma_rows_apart(y: int, z: int, stride: int)
    requires
        0 <= y < z,
        stride >= 0,
    ensures
        (y + 1) * stride <= z * stride,
        (y + 1) * stride == y * stride + stride,
        0 <= y * stride,
{
    assert((y + 1) * stride == y * stride + stride) by (nonlinear_arith);
    assert((y + 1) * stride <= z * stride) by (nonlinear_arith)
        requires
            y < z,
            stride >= 0,
    ;
    assert(0 <= y * stride) by (nonlinear_arith)
        requires
            0 <= y,
            stride >= 0,
    ;
}

/// What `side_rows` does, when the rows do not overlap: on each of its rows,
/// columns 0-1 hold `lv` and columns `gap_r`..`gap_r + 1` hold `rv`; the
/// pixels before its first row are as they were.
proof fn lemma_side_rows(b: Seq<u8>, stride: int, y0: int, n: nat, gap_r: int, lv: u8, rv: u8)
    requires
        gap_r >= 2,
        stride >= gap_r + 2,
        y0 >= 0,
        n > 0 ==> (y0 + n - 1) * stride + gap_r + 1 < b.len(),
    ensures
        side_rows(b, stride, y0, n, gap_r, lv, rv).len() == b.len(),
        forall|y: int, x: int|
            y0 <= y < y0 + n && (x == 0 || x == 1 || x == gap_r || x == gap_r + 1) ==> #[trigger] pixel(
                side_rows(b, stride, y0, n, gap_r, lv, rv),
                stride,
                x,
                y,
            ) == if x < 2 { lv } else { rv },
        forall|k: int|
            0 <= k < y0 * stride ==> #[trigger] side_rows(b, stride, y0, n, gap_r, lv, rv)[k] == b[k],
    decreases n,
{
    if n > 0 {
        let m = (n - 1) as nat;
        if m > 0 {
            lemma_rows_apart(y0 + m - 1, y0 + m, stride);
        }
        lemma_side_rows(b, stride, y0, m, gap_r, lv, rv);
        let b1 = side_rows(b, stride, y0, m, gap_r, lv, rv);
        let r = side_rows(b, stride, y0, n, gap_r, lv, rv);
        let base = (y0 + n - 1) * stride;
        assert forall|y: int, x: int|
            y0 <= y < y0 + n && (x == 0 || x == 1 || x == gap_r || x == gap_r + 1) implies #[trigger] pixel(
            r,
            stride,
            x,
            y,
        ) == if x < 2 { lv } else { rv } by {
            if y < y0 + m {
                lemma_rows_apart(y, y0 + n - 1, stride);
                assert(pixel(b1, stride, x, y) == if x < 2 { lv } else { rv });
            }
        }
        assert forall|k: int| 0 <= k < y0 * stride implies #[trigger] r[k] == b[k] by {
            if y0 + n - 1 > y0 {
                lemma_rows_apart(y0, y0 + n - 1, stride);
            }
        }
    }
}

/// Which segment lights which pixels of a digit `w` x `h` (rows `stride`
/// pixels apart, which do not overlap when `stride >= w - 1`): columns 2 to
/// `w - 4` of the top row show segment A (bit 0), of the middle row `h / 2`
/// segment G (bit 6), of the bottom row segment D (bit 3); on the rows
/// between the top and the middle row, columns 0-1 show F (bit 5) and
/// columns `w - 3`..`w - 2` show B (bit 1); on the rows between the middle
/// and the bottom row, columns 0-1 show E (bit 4) and columns
/// `w - 3`..`w - 2` show C (bit 2). A pixel is 1 when its segment is lit and
/// 0 when not.
pub proof fn lemma_render_segments(segments: u8, b: Seq<u8>, stride: int, w: int, h: int)
    requires
        w >= 5,
        h >= 7,
        stride >= w - 1,
        fits(b.len() as int, stride, w, h),
    ensures
        ({
            let r = render_spec(segments, b, stride, w, h);
            let f = if segments & 0x20 != 0 { 1u8 } else { 0u8 };
            let bb = if segments & 0x02 != 0 { 1u8 } else { 0u8 };
            let e = if segments & 0x10 != 0 { 1u8 } else { 0u8 };
            let c = if segments & 0x04 != 0 { 1u8 } else { 0u8 };
            let a = if segments & 0x01 != 0 { 1u8 } else { 0u8 };
            let g = if segments & 0x40 != 0 { 1u8 } else { 0u8 };
            let d = if segments & 0x08 != 0 { 1u8 } else { 0u8 };
            &&& r.len() == b.len()
            &&& forall|x: int| 2 <= x < w - 3 ==> #[trigger] pixel(r, stride, x, 0) == a
            &&& forall|x: int| 2 <= x < w - 3 ==> #[trigger] pixel(r, stride, x, h / 2) == g
            &&& forall|x: int| 2 <= x < w - 3 ==> #[trigger] pixel(r, stride, x, h - 1) == d
            &&& forall|y: int| 1 <= y < h / 2 ==> #[trigger] pixel(r, stride, 0, y) == f && pixel(r, stride, 1, y) == f
            &&& forall|y: int| 1 <= y < h / 2 ==> #[trigger] pixel(r, stride, w - 3, y) == bb && pixel(r, stride, w - 2, y) == bb
            &&& forall|y: int| h / 2 + 1 <= y < h - 1 ==> #[trigger] pixel(r, stride, 0, y) == e && pixel(r, stride, 1, y) == e
            &&& forall|y: int| h / 2 + 1 <= y < h - 1 ==> #[trigger] pixel(r, stride, w - 3, y) == c && pixel(r, stride, w - 2, y) == c
        }),
{
    assert(seg_on(segments, 5) == (if segments & 0x20 != 0 { 1u8 } else { 0u8 })
        && seg_on(segments, 1) == (if segments & 0x02 != 0 { 1u8 } else { 0u8 })
        && seg_on(segments, 4) == (if segments & 0x10 != 0 { 1u8 } else { 0u8 })
        && seg_on(segments, 2) == (if segments & 0x04 != 0 { 1u8 } else { 0u8 })
        && seg_on(segments, 0) == (if segments & 0x01 != 0 { 1u8 } else { 0u8 })
        && seg_on(segments, 6) == (if segments & 0x40 != 0 { 1u8 } else { 0u8 })
        && seg_on(segments, 3) == (if segments & 0x08 != 0 { 1u8 } else { 0u8 })) by (bit_vector);
    let mid = h / 2;
    let gap_r = w - 3;
    let b1 = hline(b, 0, 2, gap_r, seg_on(segments, 0));
    let b2 = side_rows(b1, stride, 1, (mid - 1) as nat, gap_r, seg_on(segments, 5), seg_on(segments, 1));
    let b3 = hline(b2, mid * stride, 2, gap_r, seg_on(segments, 6));
    let b4 = side_rows(b3, stride, mid + 1, (h - 2 - mid) as nat, gap_r, seg_on(segments, 4), seg_on(segments, 2));
    let r = hline(b4, (h - 1) * stride, 2, gap_r, seg_on(segments, 3));
    lemma_rows_apart(mid - 1, h - 1, stride);
    lemma_rows_apart(h - 2, h - 1, stride);
    lemma_side_rows(b1, stride, 1, (mid - 1) as nat, gap_r, seg_on(segments, 5), seg_on(segments, 1));
    lemma_side_rows(b3, stride, mid + 1, (h - 2 - mid) as nat, gap_r, seg_on(segments, 4), seg_on(segments, 2));
    assert forall|y: int, x: int| 1 <= y < mid && (x == 0 || x == 1 || x == gap_r || x == gap_r + 1) implies
        #[trigger] pixel(r, stride, x, y) == pixel(b2, stride, x, y) by {
        lemma_rows_apart(y, mid, stride);
        lemma_rows_apart(mid, mid + 1, stride);
        lemma_rows_apart(mid + 1, h - 1, stride);
    }
    assert forall|y: int, x: int| mid + 1 <= y < h - 1 && (x == 0 || x == 1 || x == gap_r || x == gap_r + 1) implies
        #[trigger] pixel(r, stride, x, y) == pixel(b4, stride, x, y) by {
        lemma_rows_apart(y, h - 1, stride);
    }
    assert forall|x: int| 2 <= x < gap_r implies #[trigger] pixel(r, stride, x, 0) == seg_on(segments, 0) by {
        lemma_rows_apart(0, 1, stride);
        lemma_rows_apart(1, mid + 1, stride);
        lemma_rows_apart(1, mid, stride);
        assert(pixel(b2, stride, x, 0) == b1[x]);
    }
    assert forall|x: int| 2 <= x < gap_r implies #[trigger] pixel(r, stride, x, mid) == seg_on(segments, 6) by {
        lemma_rows_apart(mid, mid + 1, stride);
        lemma_rows_apart(mid, h - 1, stride);
    }
    assert forall|x: int| 2 <= x < gap_r implies #[trigger] pixel(r, stride, x, h - 1) == seg_on(segments, 3) by {
        lemma_rows_apart(h - 2, h - 1, stride);
    }
}

} // verus!
