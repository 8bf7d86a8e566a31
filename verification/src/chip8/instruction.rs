//! CHIP-8 instruction execution: sprite drawing and the thirty-five opcodes.

use vstd::prelude::*;
use crate::bus::Bus;
use crate::chip8::cpu::{Cpu, Chip8View, next_seed};
use crate::devices::display::{Display, DisplayView, pixel_index};
use crate::devices::keyboard::{Keyboard, first_pressed};

verus! {

/// One sprite row drawn at (x, py): for the first `bits` bits of `byte`,
/// from the most significant, each set bit toggles the pixel at column
/// (x + bit) modulo `wm`. Gives the display and whether a lit pixel was
/// turned off.
pub open spec fn draw_row(d: DisplayView, x: u8, py: u8, byte: u8, bits: nat, wm: u8) -> (DisplayView, bool)
    decreases bits,
{
    if bits == 0 {
        (d, false)
    } else {
        let (d1, c1) = draw_row(d, x, py, byte, (bits - 1) as nat, wm);
        let bit = (bits - 1) as u8;
        if byte & (0x80u8 >> bit) == 0 {
            (d1, c1)
        } else {
            let px = x.wrapping_add(bit) % wm;
            let old = d1.pixel(px as int, py as int);
            (d1.set(px as int, py as int, old ^ 1), c1 || old != 0)
        }
    }
}

/// The first `rows` rows of a sprite drawn from (x, y), row r on line
/// (y + r) modulo `hm`.
pub open spec fn draw_rows(d: DisplayView, x: u8, y: u8, sprite: Seq<u8>, rows: nat, wm: u8, hm: u8) -> (DisplayView, bool)
    decreases rows,
{
    if rows == 0 {
        (d, false)
    } else {
        let (d1, c1) = draw_rows(d, x, y, sprite, (rows - 1) as nat, wm, hm);
        let row = (rows - 1) as nat;
        let py = y.wrapping_add(row as u8) % hm;
        let (d2, c2) = draw_row(d1, x, py, sprite[row as int], 8, wm);
        (d2, c1 || c2)
    }
}

/// The number of sprite rows drawn: as many as the sprite has, but no more
/// than the display is high.
pub open spec fn drawn_rows(d: DisplayView, sprite: Seq<u8>) -> nat {
    if sprite.len() < d.height { sprite.len() } else { d.height as nat }
}

/// A sprite drawn at (x, y) by XOR, wrapping at the edges (the width and
/// height taken modulo 256): the display, and whether any lit pixel was
/// turned off (a collision).
pub open spec fn draw_spec(d: DisplayView, x: u8, y: u8, sprite: Seq<u8>) -> (DisplayView, bool) {
    draw_rows(d, x, y, sprite, drawn_rows(d, sprite), d.width as u8, d.height as u8)
}

/// The sizes a sprite can be drawn with: when a row is drawn the height
/// modulo 256 is not 0, and when a pixel is drawn the width modulo 256 is not 0.
pub open spec fn can_draw(d: DisplayView, sprite: Seq<u8>) -> bool {
    &&& drawn_rows(d, sprite) > 0 ==> d.height as u8 != 0
    &&& (exists|r: int| 0 <= r < drawn_rows(d, sprite) && sprite[r] != 0) ==> d.width as u8 != 0
}

proof fn lemma_draw_row_wf(d: DisplayView, x: u8, py: u8, byte: u8, bits: nat, wm: u8)
    requires
        d.wf(),
    ensures
        draw_row(d, x, py, byte, bits, wm).0.wf(),
        draw_row(d, x, py, byte, bits, wm).0.width == d.width,
        draw_row(d, x, py, byte, bits, wm).0.height == d.height,
    decreases bits,
{
    if bits > 0 {
        lemma_draw_row_wf(d, x, py, byte, (bits - 1) as nat, wm);
        let d1 = draw_row(d, x, py, byte, (bits - 1) as nat, wm).0;
        let px = x.wrapping_add((bits - 1) as u8) % wm;
        if d1.on_grid(px as int, py as int) {
            crate::devices::display::lemma_pixel_index(d1.width, d1.height, px as int, py as int);
        }
    }
}

pub proof fn lemma_draw_rows_wf(d: DisplayView, x: u8, y: u8, sprite: Seq<u8>, rows: nat, wm: u8, hm: u8)
    requires
        d.wf(),
    ensures
        draw_rows(d, x, y, sprite, rows, wm, hm).0.wf(),
        draw_rows(d, x, y, sprite, rows, wm, hm).0.width == d.width,
        draw_rows(d, x, y, sprite, rows, wm, hm).0.height == d.height,
    decreases rows,
{
    if rows > 0 {
        let row = (rows - 1) as nat;
        lemma_draw_rows_wf(d, x, y, sprite, row, wm, hm);
        let d1 = draw_rows(d, x, y, sprite, row, wm, hm).0;
        lemma_draw_row_wf(d1, x, y.wrapping_add(row as u8) % hm, sprite[row as int], 8, wm);
    }
}

/// Whether the first `bits` bits of a sprite row drawn at (x, py) toggle
/// pixel (a, b) an odd number of times.
pub open spec fn row_flips(x: u8, py: u8, byte: u8, bits: nat, wm: u8, a: int, b: int) -> bool
    decreases bits,
{
    if bits == 0 {
        false
    } else {
        let f = row_flips(x, py, byte, (bits - 1) as nat, wm, a, b);
        let bit = (bits - 1) as u8;
        if byte & (0x80u8 >> bit) == 0 {
            f
        } else if (x.wrapping_add(bit) % wm) as int == a && py as int == b {
            !f
        } else {
            f
        }
    }
}

/// Whether the first `rows` rows of a sprite drawn from (x, y) toggle pixel
/// (a, b) an odd number of times.
pub open spec fn rows_flip(x: u8, y: u8, sprite: Seq<u8>, rows: nat, wm: u8, hm: u8, a: int, b: int) -> bool
    decreases rows,
{
    if rows == 0 {
        false
    } else {
        let row = (rows - 1) as nat;
        let f = rows_flip(x, y, sprite, row, wm, hm, a, b);
        let py = y.wrapping_add(row as u8) % hm;
        if row_flips(x, py, sprite[row as int], 8, wm, a, b) { !f } else { f }
    }
}

/// A pixel toggled an odd number of times.
pub open spec fn flipped(v: u8, odd: bool) -> u8 {
    if odd { v ^ 1 } else { v }
}

proof fn lemma_xor_one_twice(v: u8)
    by (bit_vector)
    ensures
        (v ^ 1) ^ 1 == v,
{
}

proof fn lemma_draw_row_pixel(d: DisplayView, x: u8, py: u8, byte: u8, bits: nat, wm: u8, a: int, b: int)
    requires
        d.wf(),
        d.on_grid(a, b),
    ensures
        draw_row(d, x, py, byte, bits, wm).0.pixel(a, b) == flipped(d.pixel(a, b), row_flips(x, py, byte, bits, wm, a, b)),
    decreases bits,
{
    if bits > 0 {
        lemma_draw_row_pixel(d, x, py, byte, (bits - 1) as nat, wm, a, b);
        lemma_draw_row_wf(d, x, py, byte, (bits - 1) as nat, wm);
        let d1 = draw_row(d, x, py, byte, (bits - 1) as nat, wm).0;
        let bit = (bits - 1) as u8;
        let px = x.wrapping_add(bit) % wm;
        lemma_xor_one_twice(d.pixel(a, b));
        crate::devices::display::lemma_pixel_index(d1.width, d1.height, a, b);
        if d1.on_grid(px as int, py as int) {
            crate::devices::display::lemma_pixel_index(d1.width, d1.height, px as int, py as int);
            if px as int != a || py as int != b {
                crate::devices::display::lemma_pixel_index_distinct(d1.width, px as int, py as int, a, b);
            }
        }
    }
}

proof fn lemma_draw_rows_pixel(d: DisplayView, x: u8, y: u8, sprite: Seq<u8>, rows: nat, wm: u8, hm: u8, a: int, b: int)
    requires
        d.wf(),
        d.on_grid(a, b),
    ensures
        draw_rows(d, x, y, sprite, rows, wm, hm).0.pixel(a, b) == flipped(
            d.pixel(a, b),
            rows_flip(x, y, sprite, rows, wm, hm, a, b),
        ),
    decreases rows,
{
    if rows > 0 {
        let row = (rows - 1) as nat;
        lemma_draw_rows_pixel(d, x, y, sprite, row, wm, hm, a, b);
        lemma_draw_rows_wf(d, x, y, sprite, row, wm, hm);
        let d1 = draw_rows(d, x, y, sprite, row, wm, hm).0;
        let py = y.wrapping_add(row as u8) % hm;
        lemma_draw_row_pixel(d1, x, py, sprite[row as int], 8, wm, a, b);
        lemma_xor_one_twice(d.pixel(a, b));
    }
}

/// Every place in the buffer is the place of a pixel on the grid.
proof fn lemma_index_pixel(d: DisplayView, i: int)
    requires
        d.wf(),
        0 <= i < d.buffer.len(),
    ensures
        d.width > 0,
        d.on_grid(i % d.width as int, i / d.width as int),
        pixel_index(d.width, i % d.width as int, i / d.width as int) == i,
{
    let w = d.width as int;
    let h = d.height as int;
    assert(w > 0) by (nonlinear_arith)
        requires
            0 <= i < w * h,
            0 <= h,
            0 <= w,
    ;
    assert(0 <= i % w < w && 0 <= i / w < h && (i / w) * w + i % w == i) by (nonlinear_arith)
        requires
            0 <= i < w * h,
            w > 0,
    ;
}

/// Drawing the same sprite twice at the same place restores the display:
/// each pixel the first drawing toggles, the second toggles back.
pub proof fn lemma_draw_twice(d: DisplayView, x: u8, y: u8, sprite: Seq<u8>)
    requires
        d.wf(),
    ensures
        draw_spec(draw_spec(d, x, y, sprite).0, x, y, sprite).0 == d,
{
    let wm = d.width as u8;
    let hm = d.height as u8;
    let rows = drawn_rows(d, sprite);
    let d1 = draw_spec(d, x, y, sprite).0;
    lemma_draw_rows_wf(d, x, y, sprite, rows, wm, hm);
    lemma_draw_rows_wf(d1, x, y, sprite, rows, wm, hm);
    assert forall|a: int, b: int| d.on_grid(a, b) implies #[trigger] draw_spec(d1, x, y, sprite).0.pixel(a, b) == d.pixel(a, b) by {
        lemma_draw_rows_pixel(d, x, y, sprite, rows, wm, hm, a, b);
        lemma_draw_rows_pixel(d1, x, y, sprite, rows, wm, hm, a, b);
        lemma_xor_one_twice(d.pixel(a, b));
    }
    let d2 = draw_spec(d1, x, y, sprite).0;
    assert forall|i: int| 0 <= i < d.buffer.len() implies #[trigger] d2.buffer[i] == d.buffer[i] by {
        lemma_index_pixel(d, i);
        let a = i % d.width as int;
        let b = i / d.width as int;
        assert(d2.pixel(a, b) == d.pixel(a, b));
    }
    assert(d2.buffer =~= d.buffer);
}

/// The display sizes whose width and height divide 256 and hold a whole
/// sprite row: 8, 16, 32, 64 or 128.
pub open spec fn sprite_size(n: u16) -> bool {
    n == 8 || n == 16 || n == 32 || n == 64 || n == 128
}

/// The column of bit `k` of a sprite row drawn from column `x`.
pub open spec fn bit_column(x: u8, k: nat, wm: u8) -> u8 {
    x.wrapping_add(k as u8) % wm
}

/// The line of row `r` of a sprite drawn from line `y`.
pub open spec fn row_line(y: u8, r: nat, hm: u8) -> u8 {
    y.wrapping_add(r as u8) % hm
}

/// Offsets less than a size that divides 256 land on distinct places.
proof fn lemma_offsets_distinct(x: u8, k1: u8, k2: u8, w: u8)
    by (bit_vector)
    requires
        w == 8 || w == 16 || w == 32 || w == 64 || w == 128,
        k1 < k2,
        k2 - k1 < w,
    ensures
        x.wrapping_add(k1) % w != x.wrapping_add(k2) % w,
{
}

proof fn lemma_byte_bits(byte: u8)
    by (bit_vector)
    ensures
        0u8 ^ 1u8 == 1u8,
        byte == 0 ==> forall|k: u8| #![trigger (0x80u8 >> k)] k < 8 ==> byte & (0x80u8 >> k) == 0,
        byte != 0 ==> byte & (0x80u8 >> 0u8) != 0 || byte & (0x80u8 >> 1u8) != 0 || byte & (0x80u8 >> 2u8) != 0
            || byte & (0x80u8 >> 3u8) != 0 || byte & (0x80u8 >> 4u8) != 0 || byte & (0x80u8 >> 5u8) != 0
            || byte & (0x80u8 >> 6u8) != 0 || byte & (0x80u8 >> 7u8) != 0,
{
}

/// A row drawn on one line toggles nothing on another.
proof fn lemma_row_other_line(x: u8, py: u8, byte: u8, bits: nat, wm: u8, a: int, b: int)
    requires
        py as int != b,
    ensures
        !row_flips(x, py, byte, bits, wm, a, b),
    decreases bits,
{
    if bits > 0 {
        lemma_row_other_line(x, py, byte, (bits - 1) as nat, wm, a, b);
    }
}

/// The first `bits` bits of a row toggle the column of bit `k` (k >= bits) an
/// even number of times, and the first `bits` bits (bits > k) toggle it
/// exactly when bit `k` is set.
proof fn lemma_row_column(x: u8, py: u8, byte: u8, bits: nat, wm: u8, k: nat)
    requires
        wm == 8 || wm == 16 || wm == 32 || wm == 64 || wm == 128,
        k < 8,
        bits <= 8,
    ensures
        bits <= k ==> !row_flips(x, py, byte, bits, wm, bit_column(x, k, wm) as int, py as int),
        bits > k ==> row_flips(x, py, byte, bits, wm, bit_column(x, k, wm) as int, py as int) == (byte & (0x80u8
            >> (k as u8)) != 0),
    decreases bits,
{
    if bits > 0 {
        let bit = (bits - 1) as nat;
        lemma_row_column(x, py, byte, bit, wm, k);
        if bit != k {
            if bit < k {
                lemma_offsets_distinct(x, bit as u8, k as u8, wm);
            } else {
                lemma_offsets_distinct(x, k as u8, bit as u8, wm);
            }
        }
    }
}

/// Rows other than row `k` toggle nothing on row `k`'s line; all the rows
/// up to and past `k` toggle there what row `k` alone toggles.
proof fn lemma_rows_line(x: u8, y: u8, sprite: Seq<u8>, rows: nat, wm: u8, hm: u8, a: int, k: nat)
    requires
        hm == 8 || hm == 16 || hm == 32 || hm == 64 || hm == 128,
        k < hm,
        rows <= hm,
    ensures
        rows <= k ==> !rows_flip(x, y, sprite, rows, wm, hm, a, row_line(y, k, hm) as int),
        rows > k ==> rows_flip(x, y, sprite, rows, wm, hm, a, row_line(y, k, hm) as int) == row_flips(
            x,
            row_line(y, k, hm),
            sprite[k as int],
            8,
            wm,
            a,
            row_line(y, k, hm) as int,
        ),
    decreases rows,
{
    if rows > 0 {
        let row = (rows - 1) as nat;
        lemma_rows_line(x, y, sprite, row, wm, hm, a, k);
        if row != k {
            if row < k {
                lemma_offsets_distinct(y, row as u8, k as u8, hm);
            } else {
                lemma_offsets_distinct(y, k as u8, row as u8, hm);
            }
            lemma_row_other_line(x, row_line(y, row, hm), sprite[row as int], 8, wm, a, row_line(y, k, hm) as int);
        }
    }
}

/// A row drawn over pixels that are all dark turns no lit pixel off.
proof fn lemma_row_no_collision(d: DisplayView, x: u8, py: u8, byte: u8, bits: nat)
    requires
        d.wf(),
        sprite_size(d.width),
        py < d.height,
        bits <= 8,
        forall|k: nat| k < 8 ==> #[trigger] d.pixel(bit_column(x, k, d.width as u8) as int, py as int) == 0,
    ensures
        !draw_row(d, x, py, byte, bits, d.width as u8).1,
    decreases bits,
{
    let wm = d.width as u8;
    if bits > 0 {
        let bit = (bits - 1) as nat;
        lemma_row_no_collision(d, x, py, byte, bit);
        let px = bit_column(x, bit, wm);
        assert(d.pixel(px as int, py as int) == 0);
        lemma_draw_row_pixel(d, x, py, byte, bit, wm, px as int, py as int);
        lemma_row_column(x, py, byte, bit, wm, bit);
    }
}

/// Drawing on a blank display turns no lit pixel off.
proof fn lemma_rows_no_collision(d: DisplayView, x: u8, y: u8, sprite: Seq<u8>, rows: nat)
    requires
        d.wf(),
        sprite_size(d.width),
        sprite_size(d.height),
        rows <= d.height,
        forall|a: int, b: int| d.on_grid(a, b) ==> #[trigger] d.pixel(a, b) == 0,
    ensures
        !draw_rows(d, x, y, sprite, rows, d.width as u8, d.height as u8).1,
    decreases rows,
{
    let wm = d.width as u8;
    let hm = d.height as u8;
    if rows > 0 {
        let row = (rows - 1) as nat;
        lemma_rows_no_collision(d, x, y, sprite, row);
        lemma_draw_rows_wf(d, x, y, sprite, row, wm, hm);
        let dd = draw_rows(d, x, y, sprite, row, wm, hm).0;
        let py = row_line(y, row, hm);
        assert forall|k: nat| k < 8 implies #[trigger] dd.pixel(bit_column(x, k, wm) as int, py as int) == 0 by {
            lemma_draw_rows_pixel(d, x, y, sprite, row, wm, hm, bit_column(x, k, wm) as int, py as int);
            lemma_rows_line(x, y, sprite, row, wm, hm, bit_column(x, k, wm) as int, row);
        }
        lemma_row_no_collision(dd, x, py, sprite[row as int], 8);
    }
}

/// A row of a zero byte turns nothing off.
proof fn lemma_zero_row(d: DisplayView, x: u8, py: u8, bits: nat, wm: u8)
    requires
        bits <= 8,
    ensures
        !draw_row(d, x, py, 0, bits, wm).1,
    decreases bits,
{
    if bits > 0 {
        lemma_zero_row(d, x, py, (bits - 1) as nat, wm);
        lemma_byte_bits(0);
        assert(0u8 & (0x80u8 >> ((bits - 1) as u8)) == 0);
    }
}

/// Rows of zero bytes turn nothing off.
proof fn lemma_zero_rows(d: DisplayView, x: u8, y: u8, sprite: Seq<u8>, rows: nat, wm: u8, hm: u8)
    requires
        forall|r: int| 0 <= r < rows ==> #[trigger] sprite[r] == 0,
    ensures
        !draw_rows(d, x, y, sprite, rows, wm, hm).1,
    decreases rows,
{
    if rows > 0 {
        let row = (rows - 1) as nat;
        lemma_zero_rows(d, x, y, sprite, row, wm, hm);
        let dd = draw_rows(d, x, y, sprite, row, wm, hm).0;
        assert(sprite[row as int] == 0);
        lemma_zero_row(dd, x, y.wrapping_add(row as u8) % hm, 8, wm);
    }
}

/// A collision found by the first rows (or bits) stays found.
proof fn lemma_rows_collision_grows(d: DisplayView, x: u8, y: u8, sprite: Seq<u8>, m: nat, n: nat, wm: u8, hm: u8)
    requires
        m <= n,
        draw_rows(d, x, y, sprite, m, wm, hm).1,
    ensures
        draw_rows(d, x, y, sprite, n, wm, hm).1,
    decreases n,
{
    if n > m {
        lemma_rows_collision_grows(d, x, y, sprite, m, (n - 1) as nat, wm, hm);
    }
}

proof fn lemma_row_collision_grows(d: DisplayView, x: u8, py: u8, byte: u8, m: nat, n: nat, wm: u8)
    requires
        m <= n,
        draw_row(d, x, py, byte, m, wm).1,
    ensures
        draw_row(d, x, py, byte, n, wm).1,
    decreases n,
{
    if n > m {
        lemma_row_collision_grows(d, x, py, byte, m, (n - 1) as nat, wm);
    }
}

/// On a blank display whose width and height are each 8, 16, 32, 64 or 128
/// pixels, a sprite drawn once turns no lit pixel off; drawn again at the
/// same place, it reports a collision exactly when one of its drawn rows
/// (those within the display's height) has a pixel set.
pub proof fn lemma_draw_on_blank(d: DisplayView, x: u8, y: u8, sprite: Seq<u8>)
    requires
        d.wf(),
        sprite_size(d.width),
        sprite_size(d.height),
        forall|a: int, b: int| d.on_grid(a, b) ==> #[trigger] d.pixel(a, b) == 0,
    ensures
        !draw_spec(d, x, y, sprite).1,
        draw_spec(draw_spec(d, x, y, sprite).0, x, y, sprite).1 == exists|r: int|
            0 <= r < drawn_rows(d, sprite) && #[trigger] sprite[r] != 0,
{
    let wm = d.width as u8;
    let hm = d.height as u8;
    let n = drawn_rows(d, sprite);
    lemma_rows_no_collision(d, x, y, sprite, n);
    let d1 = draw_spec(d, x, y, sprite).0;
    lemma_draw_rows_wf(d, x, y, sprite, n, wm, hm);
    assert(drawn_rows(d1, sprite) == n);
    if exists|r: int| 0 <= r < n && #[trigger] sprite[r] != 0 {
        let r0 = choose|r: int| 0 <= r < n && #[trigger] sprite[r] != 0;
        let byte = sprite[r0];
        lemma_byte_bits(byte);
        let k0: nat = if byte & (0x80u8 >> 0u8) != 0 {
            0
        } else if byte & (0x80u8 >> 1u8) != 0 {
            1
        } else if byte & (0x80u8 >> 2u8) != 0 {
            2
        } else if byte & (0x80u8 >> 3u8) != 0 {
            3
        } else if byte & (0x80u8 >> 4u8) != 0 {
            4
        } else if byte & (0x80u8 >> 5u8) != 0 {
            5
        } else if byte & (0x80u8 >> 6u8) != 0 {
            6
        } else {
            7
        };
        assert(byte & (0x80u8 >> (k0 as u8)) != 0);
        let py = row_line(y, r0 as nat, hm);
        let px = bit_column(x, k0, wm);
        // In the first drawing, only bit k0 of row r0 toggles (px, py): it is lit after.
        lemma_draw_rows_pixel(d, x, y, sprite, n, wm, hm, px as int, py as int);
        lemma_rows_line(x, y, sprite, n, wm, hm, px as int, r0 as nat);
        lemma_row_column(x, py, byte, 8, wm, k0);
        lemma_byte_bits(0);
        assert(d1.pixel(px as int, py as int) == 1);
        // In the second, it is still lit when bit k0 of row r0 reaches it.
        lemma_draw_rows_wf(d1, x, y, sprite, r0 as nat, wm, hm);
        let dd = draw_rows(d1, x, y, sprite, r0 as nat, wm, hm).0;
        lemma_draw_rows_pixel(d1, x, y, sprite, r0 as nat, wm, hm, px as int, py as int);
        lemma_rows_line(x, y, sprite, r0 as nat, wm, hm, px as int, r0 as nat);
        assert(dd.pixel(px as int, py as int) == 1);
        lemma_draw_row_pixel(dd, x, py, byte, k0, wm, px as int, py as int);
        lemma_row_column(x, py, byte, k0, wm, k0);
        assert(draw_row(dd, x, py, byte, k0 + 1, wm).1);
        lemma_row_collision_grows(dd, x, py, byte, k0 + 1, 8, wm);
        assert(draw_rows(d1, x, y, sprite, (r0 + 1) as nat, wm, hm).1);
        lemma_rows_collision_grows(d1, x, y, sprite, (r0 + 1) as nat, n, wm, hm);
    } else {
        lemma_zero_rows(d1, x, y, sprite, n, wm, hm);
    }
}

/// Draws a sprite at (x, y) by XOR, wrapping at the edges; returns whether
/// a lit pixel was turned off.
pub fn draw_sprite(display: &mut Display, x: u8, y: u8, sprite: &[u8]) -> (collision: bool)
    requires
        old(display)@.wf(),
        can_draw(old(display)@, sprite@),
    ensures
        (final(display)@, collision) == draw_spec(old(display)@, x, y, sprite@),
        final(display)@.wf(),
{
    let mut collision = false;
    let w = display.width();
    let h = display.height();
    let ghost d0 = display@;
    let ghost wm = w as u8;
    let ghost hm = h as u8;
    let mut row: usize = 0;
    while row < sprite.len()
        invariant_except_break
            row <= sprite@.len(),
            row <= h,
            (display@, collision) == draw_rows(d0, x, y, sprite@, row as nat, wm, hm),
        invariant
            d0.wf(),
            d0.width == w,
            d0.height == h,
            wm == w as u8,
            hm == h as u8,
            can_draw(d0, sprite@),
            display@.wf(),
            display@.width == w,
            display@.height == h,
        ensures
            (display@, collision) == draw_rows(d0, x, y, sprite@, drawn_rows(d0, sprite@), wm, hm),
        decreases sprite.len() - row,
    {
        if row as u16 >= h {
            assert(row == h);
            break;
        }
        let byte = sprite[row];
        let py = (y.wrapping_add(row as u8)) % (h as u8);
        let ghost d_row = display@;
        let ghost c_row = collision;
        let mut row_collision = false;
        let mut bit: u8 = 0;
        while bit < 8
            invariant
                bit <= 8,
                row < sprite@.len(),
                row < h,
                byte == sprite@[row as int],
                d_row.wf(),
                d_row.width == w,
                d_row.height == h,
                wm == w as u8,
                hm == h as u8,
                py < hm,
                hm <= h,
                byte != 0 ==> wm != 0,
                (display@, row_collision) == draw_row(d_row, x, py, byte, bit as nat, wm),
                display@.wf(),
                display@.width == w,
                display@.height == h,
            decreases 8 - bit,
        {
            if byte & (0x80 >> bit) != 0 {
                assert(byte != 0) by (bit_vector)
                    requires
                        byte & (0x80u8 >> bit) != 0,
                ;
                let px = (x.wrapping_add(bit)) % (w as u8);
                assert(px < wm && wm <= w);
                let old = display.get_pixel(px, py);
                display.set_pixel(px, py, old ^ 1);
                if old != 0 {
                    row_collision = true;
                }
            }
            bit = bit + 1;
        }
        if row_collision {
            collision = true;
        }
        row = row + 1;
        proof {
            lemma_draw_rows_wf(d0, x, y, sprite@, row as nat, wm, hm);
        }
    }
    collision
}

/// Interpreter variants.
pub struct Quirks {
    /// 8XY6/8XYE shift VY into VX (else VX in place).
    pub shift_vy: bool,
    /// FX55/FX65 leave I advanced past the last register.
    pub memory_inc_i: bool,
    /// 8XY1/8XY2/8XY3 clear VF.
    pub vf_reset: bool,
}

// ───────────────────────── the model ─────────────────────────

/// Register `r` set to `val`.
pub open spec fn set_v(c: Chip8View, r: int, val: u8) -> Chip8View {
    Chip8View { v: c.v.update(r, val), ..c }
}

/// PC advanced past the next instruction.
pub open spec fn skip(c: Chip8View) -> Chip8View {
    Chip8View { pc: (c.pc + 2) as u16, ..c }
}

/// The 8XYN arithmetic and logic instructions.
pub open spec fn alu_spec(c: Chip8View, x: int, y: int, n: u8, q: Quirks) -> Chip8View {
    let vx = c.v[x];
    let vy = c.v[y];
    if n == 0 {
        set_v(c, x, vy)
    } else if n == 1 || n == 2 || n == 3 {
        let r = if n == 1 { vx | vy } else if n == 2 { vx & vy } else { vx ^ vy };
        let c1 = set_v(c, x, r);
        if q.vf_reset { set_v(c1, 15, 0) } else { c1 }
    } else if n == 4 {
        set_v(set_v(c, x, vx.wrapping_add(vy)), 15, if vx as int + vy as int > 255 { 1 } else { 0 })
    } else if n == 5 {
        set_v(set_v(c, x, vx.wrapping_sub(vy)), 15, if vx < vy { 0 } else { 1 })
    } else if n == 7 {
        set_v(set_v(c, x, vy.wrapping_sub(vx)), 15, if vy < vx { 0 } else { 1 })
    } else if n == 6 {
        if q.shift_vy {
            let c1 = set_v(c, 15, vy & 1);
            set_v(c1, x, c1.v[y] >> 1u8)
        } else {
            let c1 = set_v(c, 15, vx & 1);
            set_v(c1, x, c1.v[x] >> 1u8)
        }
    } else if n == 0xE {
        if q.shift_vy {
            let c1 = set_v(c, 15, (vy >> 7u8) & 1);
            set_v(c1, x, c1.v[y] << 1u8)
        } else {
            let c1 = set_v(c, 15, (vx >> 7u8) & 1);
            set_v(c1, x, c1.v[x] << 1u8)
        }
    } else {
        c
    }
}

/// `n` bytes read from `addr` on, in order.
pub open spec fn read_bytes<B: Bus>(b: B::V, addr: u16, n: nat) -> (Seq<u8>, B::V)
    decreases n,
{
    if n == 0 {
        (Seq::empty(), b)
    } else {
        let (s, b1) = read_bytes::<B>(b, addr, (n - 1) as nat);
        let a = (addr + (n - 1)) as u16;
        (s.push(B::peek(b1, a)), B::after_read(b1, a))
    }
}

/// Registers V0..V(n-1) written from `addr` on, in order.
pub open spec fn store_regs<B: Bus>(b: B::V, addr: u16, v: Seq<u8>, n: nat) -> B::V
    decreases n,
{
    if n == 0 {
        b
    } else {
        let b1 = store_regs::<B>(b, addr, v, (n - 1) as nat);
        B::after_write(b1, (addr + (n - 1)) as u16, v[n - 1])
    }
}

/// Registers V0..V(n-1) read from `addr` on, in order.
pub open spec fn load_regs<B: Bus>(b: B::V, addr: u16, v: Seq<u8>, n: nat) -> (Seq<u8>, B::V)
    decreases n,
{
    if n == 0 {
        (v, b)
    } else {
        let (v1, b1) = load_regs::<B>(b, addr, v, (n - 1) as nat);
        let a = (addr + (n - 1)) as u16;
        (v1.update(n - 1, B::peek(b1, a)), B::after_read(b1, a))
    }
}

/// The FX.. instructions (timers, keys, I, BCD, register store and load).
pub open spec fn misc_spec<B: Bus>(c: Chip8View, b: B::V, x: int, nn: u8, keys: Seq<bool>, q: Quirks) -> (Chip8View, B::V) {
    let vx = c.v[x];
    if nn == 0x07 {
        (set_v(c, x, c.delay), b)
    } else if nn == 0x0A {
        match first_pressed(keys) {
            Some(k) => (set_v(c, x, k), b),
            None => (Chip8View { pc: (c.pc - 2) as u16, ..c }, b),
        }
    } else if nn == 0x15 {
        (Chip8View { delay: vx, ..c }, b)
    } else if nn == 0x18 {
        (Chip8View { sound: vx, ..c }, b)
    } else if nn == 0x1E {
        (Chip8View { i: c.i.wrapping_add(vx as u16), ..c }, b)
    } else if nn == 0x29 {
        (Chip8View { i: (0x50 + (vx & 0x0F) * 5) as u16, ..c }, b)
    } else if nn == 0x33 {
        let b1 = B::after_write(b, c.i, vx / 100);
        let b2 = B::after_write(b1, (c.i + 1) as u16, (vx / 10) % 10);
        (c, B::after_write(b2, (c.i + 2) as u16, vx % 10))
    } else if nn == 0x55 {
        let b1 = store_regs::<B>(b, c.i, c.v, (x + 1) as nat);
        (if q.memory_inc_i { Chip8View { i: (c.i + x + 1) as u16, ..c } } else { c }, b1)
    } else if nn == 0x65 {
        let (v1, b1) = load_regs::<B>(b, c.i, c.v, (x + 1) as nat);
        let c1 = Chip8View { v: v1, ..c };
        (if q.memory_inc_i { Chip8View { i: (c.i + x + 1) as u16, ..c1 } } else { c1 }, b1)
    } else {
        (c, b)
    }
}

/// The three digits that FX33 stores are decimal digits, and read as
/// hundreds, tens and units they give back the register's value.
pub proof fn lemma_bcd_digits(v: u8)
    ensures
        v / 100 <= 2,
        (v / 10) % 10 <= 9,
        v % 10 <= 9,
        (v / 100) * 100 + ((v / 10) % 10) * 10 + v % 10 == v,
{
    assert((v / 100) * 100 + ((v / 10) % 10) * 10 + v % 10 == v) by (nonlinear_arith)
        requires
            0 <= v < 256,
    ;
}

/// Whether an opcode skips the next instruction in this state.
pub open spec fn skips(opcode: u16, c: Chip8View, keys: Seq<bool>) -> bool {
    let x = ((opcode & 0x0F00) >> 8u16) as int;
    let y = ((opcode & 0x00F0) >> 4u16) as int;
    let nn = (opcode & 0x00FF) as u8;
    let top = opcode & 0xF000;
    let key = c.v[x] & 0x0F;
    ||| top == 0x3000 && c.v[x] == nn
    ||| top == 0x4000 && c.v[x] != nn
    ||| top == 0x5000 && c.v[x] == c.v[y]
    ||| top == 0x9000 && c.v[x] != c.v[y]
    ||| top == 0xE000 && nn == 0x9E && key < 16 && keys[key as int]
    ||| top == 0xE000 && nn == 0xA1 && !(key < 16 && keys[key as int])
}

/// The inputs on which an opcode runs without an address or PC leaving
/// the 16-bit range (where the interpreter would stop with an overflow),
/// without popping past the stack, and draws with a usable display size.
pub open spec fn executable<B: Bus>(opcode: u16, c: Chip8View, b: B::V, d: DisplayView, keys: Seq<bool>, q: Quirks) -> bool {
    let x = ((opcode & 0x0F00) >> 8u16) as int;
    let n = (opcode & 0x000F) as nat;
    let nn = (opcode & 0x00FF) as u8;
    let top = opcode & 0xF000;
    &&& c.sp <= 16
    &&& skips(opcode, c, keys) ==> c.pc <= 0xFFFD
    &&& top == 0xD000 ==> c.i + n <= 0x10000 && d.wf() && can_draw(d, read_bytes::<B>(b, c.i, n).0)
    &&& top == 0xF000 && nn == 0x0A && first_pressed(keys) is None ==> c.pc >= 2
    &&& top == 0xF000 && nn == 0x33 ==> c.i <= 0xFFFD
    &&& top == 0xF000 && (nn == 0x55 || nn == 0x65) ==> c.i + x + (if q.memory_inc_i { 1int } else { 0int }) <= 0xFFFF
}

/// One instruction: the registers, the bus and the display after it.
pub open spec fn execute_spec<B: Bus>(
    opcode: u16,
    c: Chip8View,
    b: B::V,
    d: DisplayView,
    keys: Seq<bool>,
    q: Quirks,
) -> (Chip8View, B::V, DisplayView) {
    let x = ((opcode & 0x0F00) >> 8u16) as int;
    let y = ((opcode & 0x00F0) >> 4u16) as int;
    let n = (opcode & 0x000F) as u8;
    let nn = (opcode & 0x00FF) as u8;
    let nnn = opcode & 0x0FFF;
    let top = opcode & 0xF000;
    if top == 0x0000 {
        if nn == 0xE0 {
            (c, b, DisplayView { buffer: Seq::new(d.buffer.len(), |k: int| 0u8), ..d })
        } else if nn == 0xEE {
            if c.sp > 0 {
                (Chip8View { sp: (c.sp - 1) as u8, pc: c.stack[c.sp - 1], ..c }, b, d)
            } else {
                (Chip8View { pc: 0, ..c }, b, d)
            }
        } else {
            (c, b, d)
        }
    } else if top == 0x1000 {
        (Chip8View { pc: nnn, ..c }, b, d)
    } else if top == 0x2000 {
        let c1 = if c.sp < 16 {
            Chip8View { stack: c.stack.update(c.sp as int, c.pc), sp: (c.sp + 1) as u8, ..c }
        } else {
            c
        };
        (Chip8View { pc: nnn, ..c1 }, b, d)
    } else if top == 0x3000 || top == 0x4000 || top == 0x5000 || top == 0x9000 {
        (if skips(opcode, c, keys) { skip(c) } else { c }, b, d)
    } else if top == 0x6000 {
        (set_v(c, x, nn), b, d)
    } else if top == 0x7000 {
        (set_v(c, x, c.v[x].wrapping_add(nn)), b, d)
    } else if top == 0x8000 {
        (alu_spec(c, x, y, n, q), b, d)
    } else if top == 0xA000 {
        (Chip8View { i: nnn, ..c }, b, d)
    } else if top == 0xB000 {
        (Chip8View { pc: (nnn + c.v[0]) as u16, ..c }, b, d)
    } else if top == 0xC000 {
        let seed = next_seed(c.rng_seed);
        (set_v(Chip8View { rng_seed: seed, ..c }, x, ((seed >> 8u16) as u8) & nn), b, d)
    } else if top == 0xD000 {
        let (sprite, b1) = read_bytes::<B>(b, c.i, n as nat);
        let (d1, hit) = draw_spec(d, c.v[x], c.v[y], sprite);
        (set_v(c, 15, if hit { 1 } else { 0 }), b1, d1)
    } else if top == 0xE000 {
        (if skips(opcode, c, keys) { skip(c) } else { c }, b, d)
    } else {
        let (c1, b1) = misc_spec::<B>(c, b, x, nn, keys, q);
        (c1, b1, d)
    }
}

// ───────────────────────── execution ─────────────────────────

fn exec_alu(cpu: &mut Cpu, x: usize, y: usize, n: u8, quirks: &Quirks)
    requires
        x < 16,
        y < 16,
    ensures
        final(cpu)@ == alu_spec(old(cpu)@, x as int, y as int, n, *quirks),
{
    if n == 0x0 {
        cpu.v[x] = cpu.v[y];
    } else if n == 0x1 {
        cpu.v[x] = cpu.v[x] | cpu.v[y];
        if quirks.vf_reset {
            cpu.v[0xF] = 0;
        }
    } else if n == 0x2 {
        cpu.v[x] = cpu.v[x] & cpu.v[y];
        if quirks.vf_reset {
            cpu.v[0xF] = 0;
        }
    } else if n == 0x3 {
        cpu.v[x] = cpu.v[x] ^ cpu.v[y];
        if quirks.vf_reset {
            cpu.v[0xF] = 0;
        }
    } else if n == 0x4 {
        let vx = cpu.v[x];
        let vy = cpu.v[y];
        let carry = vx as u16 + vy as u16 > 255;
        cpu.v[x] = vx.wrapping_add(vy);
        cpu.v[0xF] = if carry { 1 } else { 0 };
    } else if n == 0x5 {
        let vx = cpu.v[x];
        let vy = cpu.v[y];
        let borrow = vx < vy;
        cpu.v[x] = vx.wrapping_sub(vy);
        cpu.v[0xF] = if borrow { 0 } else { 1 };
    } else if n == 0x6 {
        if quirks.shift_vy {
            cpu.v[0xF] = cpu.v[y] & 1;
            cpu.v[x] = cpu.v[y] >> 1;
        } else {
            cpu.v[0xF] = cpu.v[x] & 1;
            cpu.v[x] = cpu.v[x] >> 1;
        }
    } else if n == 0x7 {
        let vx = cpu.v[x];
        let vy = cpu.v[y];
        let borrow = vy < vx;
        cpu.v[x] = vy.wrapping_sub(vx);
        cpu.v[0xF] = if borrow { 0 } else { 1 };
    } else if n == 0xE {
        if quirks.shift_vy {
            cpu.v[0xF] = (cpu.v[y] >> 7) & 1;
            cpu.v[x] = cpu.v[y] << 1;
        } else {
            cpu.v[0xF] = (cpu.v[x] >> 7) & 1;
            cpu.v[x] = cpu.v[x] << 1;
        }
    }
}

fn exec_draw<B: Bus>(cpu: &mut Cpu, memory: &mut B, display: &mut Display, x: usize, y: usize, n: u8)
    requires
        x < 16,
        y < 16,
        n < 16,
        B::inv(old(memory)@),
        old(cpu).i + n <= 0x10000,
        old(display)@.wf(),
        can_draw(old(display)@, read_bytes::<B>(old(memory)@, old(cpu).i, n as nat).0),
    ensures
        ({
            let (sprite, b1) = read_bytes::<B>(old(memory)@, old(cpu).i, n as nat);
            let (d1, hit) = draw_spec(old(display)@, old(cpu).v[x as int], old(cpu).v[y as int], sprite);
            &&& final(cpu)@ == set_v(old(cpu)@, 15, if hit { 1 } else { 0 })
            &&& final(memory)@ == b1
            &&& final(display)@ == d1
        }),
        B::inv(final(memory)@),
        final(display)@.wf(),
{
    let h = n;
    let mut sprite: Vec<u8> = Vec::new();
    let mut row: u8 = 0;
    while row < h
        invariant
            row <= h,
            h < 16,
            cpu.i + h <= 0x10000,
            B::inv(memory@),
            (sprite@, memory@) == read_bytes::<B>(old(memory)@, cpu.i, row as nat),
        decreases h - row,
    {
        proof {
            B::lemma_inv(memory@, (cpu.i + row) as u16, 0);
        }
        let value = memory.read(cpu.i + row as u16);
        sprite.push(value);
        row = row + 1;
    }
    let coll = draw_sprite(display, cpu.v[x], cpu.v[y], sprite.as_slice());
    cpu.v[0xF] = if coll { 1 } else { 0 };
}

fn exec_misc<B: Bus>(cpu: &mut Cpu, memory: &mut B, keyboard: &Keyboard, x: usize, nn: u8, quirks: &Quirks)
    requires
        x < 16,
        B::inv(old(memory)@),
        nn == 0x0A && first_pressed(keyboard@) is None ==> old(cpu).pc >= 2,
        nn == 0x33 ==> old(cpu).i <= 0xFFFD,
        nn == 0x55 || nn == 0x65 ==> old(cpu).i + x + (if quirks.memory_inc_i { 1int } else { 0int }) <= 0xFFFF,
    ensures
        (final(cpu)@, final(memory)@) == misc_spec::<B>(old(cpu)@, old(memory)@, x as int, nn, keyboard@, *quirks),
        B::inv(final(memory)@),
{
    if nn == 0x07 {
        cpu.v[x] = cpu.delay;
    } else if nn == 0x0A {
        match keyboard.any_pressed() {
            Some(key) => {
                cpu.v[x] = key;
            },
            None => {
                cpu.pc = cpu.pc - 2;
            },
        }
    } else if nn == 0x15 {
        cpu.delay = cpu.v[x];
    } else if nn == 0x18 {
        cpu.sound = cpu.v[x];
    } else if nn == 0x1E {
        cpu.i = cpu.i.wrapping_add(cpu.v[x] as u16);
    } else if nn == 0x29 {
        let vx = cpu.v[x];
        let digit = vx & 0x0F;
        proof {
            crate::bits::lemma_nibbles(vx);
        }
        cpu.i = 0x050 + (digit as u16) * 5;
    } else if nn == 0x33 {
        let val = cpu.v[x];
        proof {
            B::lemma_inv(memory@, cpu.i, val / 100);
            B::lemma_inv(B::after_write(memory@, cpu.i, val / 100), (cpu.i + 1) as u16, (val / 10) % 10);
            B::lemma_inv(
                B::after_write(B::after_write(memory@, cpu.i, val / 100), (cpu.i + 1) as u16, (val / 10) % 10),
                (cpu.i + 2) as u16,
                val % 10,
            );
        }
        memory.write(cpu.i, val / 100);
        memory.write(cpu.i + 1, (val / 10) % 10);
        memory.write(cpu.i + 2, val % 10);
    } else if nn == 0x55 {
        let mut reg: usize = 0;
        while reg <= x
            invariant
                x < 16,
                reg <= x + 1,
                cpu.i + x <= 0xFFFF,
                cpu@ == old(cpu)@,
                B::inv(memory@),
                memory@ == store_regs::<B>(old(memory)@, cpu.i, cpu.v@, reg as nat),
            decreases x + 1 - reg,
        {
            proof {
                B::lemma_inv(memory@, (cpu.i + reg) as u16, cpu.v@[reg as int]);
            }
            memory.write(cpu.i + reg as u16, cpu.v[reg]);
            reg = reg + 1;
        }
        if quirks.memory_inc_i {
            cpu.i = cpu.i + x as u16 + 1;
        }
    } else if nn == 0x65 {
        let ghost v0 = cpu.v@;
        let mut reg: usize = 0;
        while reg <= x
            invariant
                x < 16,
                reg <= x + 1,
                cpu.i + x <= 0xFFFF,
                cpu@ == (Chip8View { v: cpu@.v, ..old(cpu)@ }),
                cpu.v@.len() == 16,
                B::inv(memory@),
                (cpu.v@, memory@) == load_regs::<B>(old(memory)@, cpu.i, v0, reg as nat),
            decreases x + 1 - reg,
        {
            proof {
                B::lemma_inv(memory@, (cpu.i + reg) as u16, 0);
            }
            let value = memory.read(cpu.i + reg as u16);
            cpu.v[reg] = value;
            reg = reg + 1;
        }
        if quirks.memory_inc_i {
            cpu.i = cpu.i + x as u16 + 1;
        }
    }
}

/// Executes one CHIP-8 instruction (PC already advanced past it).
pub fn execute<B: Bus>(
    opcode: u16,
    cpu: &mut Cpu,
    memory: &mut B,
    display: &mut Display,
    keyboard: &Keyboard,
    quirks: &Quirks,
)
    requires
        B::inv(old(memory)@),
        executable::<B>(opcode, old(cpu)@, old(memory)@, old(display)@, keyboard@, *quirks),
    ensures
        (final(cpu)@, final(memory)@, final(display)@) == execute_spec::<B>(
            opcode,
            old(cpu)@,
            old(memory)@,
            old(display)@,
            keyboard@,
            *quirks,
        ),
        B::inv(final(memory)@),
        old(display)@.wf() ==> final(display)@.wf(),
{
    let x = ((opcode & 0x0F00) >> 8) as usize;
    let y = ((opcode & 0x00F0) >> 4) as usize;
    let n = (opcode & 0x000F) as u8;
    let nn = (opcode & 0x00FF) as u8;
    let nnn = opcode & 0x0FFF;
    proof {
        crate::bits::lemma_opcode_fields(opcode);
        keyboard.lemma_len();
    }
    let top = opcode & 0xF000;
    if top == 0x0000 {
        if nn == 0xE0 {
            display.clear();
        } else if nn == 0xEE {
            cpu.pc = cpu.stack_pop();
        }
    } else if top == 0x1000 {
        cpu.pc = nnn;
    } else if top == 0x2000 {
        cpu.stack_push(cpu.pc);
        cpu.pc = nnn;
    } else if top == 0x3000 {
        if cpu.v[x] == nn {
            cpu.pc = cpu.pc + 2;
        }
    } else if top == 0x4000 {
        if cpu.v[x] != nn {
            cpu.pc = cpu.pc + 2;
        }
    } else if top == 0x5000 {
        if cpu.v[x] == cpu.v[y] {
            cpu.pc = cpu.pc + 2;
        }
    } else if top == 0x6000 {
        cpu.v[x] = nn;
    } else if top == 0x7000 {
        cpu.v[x] = cpu.v[x].wrapping_add(nn);
    } else if top == 0x8000 {
        exec_alu(cpu, x, y, n, quirks);
    } else if top == 0x9000 {
        if cpu.v[x] != cpu.v[y] {
            cpu.pc = cpu.pc + 2;
        }
    } else if top == 0xA000 {
        cpu.i = nnn;
    } else if top == 0xB000 {
        cpu.pc = nnn + cpu.v[0] as u16;
    } else if top == 0xC000 {
        let r = cpu.rand_byte();
        cpu.v[x] = r & nn;
    } else if top == 0xD000 {
        exec_draw(cpu, memory, display, x, y, n);
    } else if top == 0xE000 {
        if nn == 0x9E {
            if keyboard.is_pressed(cpu.v[x] & 0x0F) {
                cpu.pc = cpu.pc + 2;
            }
        } else if nn == 0xA1 {
            if !keyboard.is_pressed(cpu.v[x] & 0x0F) {
                cpu.pc = cpu.pc + 2;
            }
        }
    } else {
        exec_misc(cpu, memory, keyboard, x, nn, quirks);
    }
}

} // verus!
