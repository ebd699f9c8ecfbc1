//! The RGBA bitmap that the decoders fill: where a pixel lies in it, and what
//! a palette index looks like once painted.

use vstd::arithmetic::div_mod::lemma_fundamental_div_mod;
use vstd::arithmetic::div_mod::lemma_fundamental_div_mod_converse;
use vstd::arithmetic::div_mod::lemma_mod_bound;
use vstd::prelude::*;

verus! {

/// Alpha of every painted pixel. Title pictures are drawn dimmed, not opaque.
pub const PIXEL_ALPHA: u8 = 16;

/// Bytes of a palette: 256 colours of three bytes each.
pub const PALETTE_BYTES: usize = 768;

/// Byte `channel` (0 red, 1 green, 2 blue, 3 alpha) of a pixel that shows
/// palette entry `index`, or of a pixel that nothing was painted on.
pub open spec fn pixel_channel(palette: Seq<u8>, index: Option<u8>, channel: int) -> u8 {
    match index {
        Some(i) => if channel == 3 {
            PIXEL_ALPHA
        } else {
            palette[3 * (i as int) + channel]
        },
        None => 0,
    }
}

/// The column of the pixel that byte `i` of a row-major RGBA bitmap belongs to.
pub open spec fn byte_column(i: int, width: nat) -> int {
    (i / 4) % (width as int)
}

/// The row of the pixel that byte `i` of a row-major RGBA bitmap belongs to.
pub open spec fn byte_row(i: int, width: nat) -> int {
    (i / 4) / (width as int)
}

/// Index of the first byte of pixel (`x`, `y`) in a row-major RGBA bitmap.
pub open spec fn pixel_start(width: nat, x: int, y: int) -> int {
    4 * (y * width + x)
}

/// A pixel inside the picture lies inside the bitmap.
pub proof fn lemma_pixel_in_bitmap(width: nat, height: nat, x: int, y: int)
    requires
        0 <= x < width,
        0 <= y < height,
    ensures
        0 <= y * width + x < width * height,
        0 <= pixel_start(width, x, y),
        pixel_start(width, x, y) + 4 <= width * height * 4,
{
    assert(0 <= y * width && y * width + width <= height * width) by (nonlinear_arith)
        requires
            0 <= y < height,
            0 <= width,
    ;
    assert(height * width == width * height) by (nonlinear_arith);
}

/// The four bytes that start at `pixel_start(width, x, y)` belong to pixel
/// (`x`, `y`), one to each channel.
pub proof fn lemma_byte_of_pixel(width: nat, x: int, y: int, channel: int)
    requires
        0 <= x < width,
        0 <= channel < 4,
    ensures
        byte_column(pixel_start(width, x, y) + channel, width) == x,
        byte_row(pixel_start(width, x, y) + channel, width) == y,
        (pixel_start(width, x, y) + channel) % 4 == channel,
{
    let cell = y * width + x;
    let i = pixel_start(width, x, y) + channel;
    lemma_fundamental_div_mod_converse(i, 4, cell, channel);
    lemma_fundamental_div_mod_converse(cell, width as int, y, x);
}

/// Every byte of the bitmap belongs to one pixel inside the picture.
pub proof fn lemma_pixel_of_byte(width: nat, height: nat, i: int)
    requires
        0 <= i < width * height * 4,
    ensures
        width > 0,
        0 <= byte_column(i, width) < width,
        0 <= byte_row(i, width) < height,
        0 <= i % 4 < 4,
        i == pixel_start(width, byte_column(i, width), byte_row(i, width)) + i % 4,
{
    if width == 0 {
        assert(width * height * 4 == 0) by (nonlinear_arith)
            requires
                width == 0,
        ;
    }
    let w = width as int;
    let cell = i / 4;
    assert(0 <= cell < width * height);
    lemma_fundamental_div_mod(cell, w);
    lemma_mod_bound(cell, w);
    let row = cell / w;
    let column = cell % w;
    assert(w * row == row * w) by (nonlinear_arith);
    assert(0 <= row < height) by (nonlinear_arith)
        requires
            0 <= cell < w * height,
            cell == row * w + column,
            0 <= column < w,
    ;
}

/// Paints pixel (`x`, `y`) with palette entry `index`; every other pixel stays
/// as it was.
pub fn put_pixel(
    out: &mut Vec<u8>,
    width: usize,
    height: usize,
    x: usize,
    y: usize,
    palette: &[u8],
    index: u8,
)
    requires
        palette@.len() >= PALETTE_BYTES,
        x < width,
        y < height,
        old(out)@.len() == width * height * 4,
    ensures
        final(out)@.len() == old(out)@.len(),
        forall|i: int|
            0 <= i < old(out)@.len() ==> #[trigger] final(out)@[i] == if byte_column(
                i,
                width as nat,
            ) == x && byte_row(i, width as nat) == y {
                pixel_channel(palette@, Some(index), i % 4)
            } else {
                old(out)@[i]
            },
{
    proof {
        lemma_pixel_in_bitmap(width as nat, height as nat, x as int, y as int);
        assert(out.len() == width * height * 4);
        assert(0 <= y * width <= y * width + x);
    }
    let start: usize = (y * width + x) * 4;
    let entry: usize = (index as usize) * 3;
    out.set(start, palette[entry]);
    out.set(start + 1, palette[entry + 1]);
    out.set(start + 2, palette[entry + 2]);
    out.set(start + 3, PIXEL_ALPHA);
    proof {
        assert forall|i: int| 0 <= i < old(out)@.len() implies #[trigger] out@[i] == if byte_column(
            i,
            width as nat,
        ) == x && byte_row(i, width as nat) == y {
            pixel_channel(palette@, Some(index), i % 4)
        } else {
            old(out)@[i]
        } by {
            if start <= i < start + 4 {
                lemma_byte_of_pixel(width as nat, x as int, y as int, i - start);
            } else {
                lemma_pixel_of_byte(width as nat, height as nat, i);
            }
        }
    }
}

} // verus!
