//! The picture format of the primary title lump: a table of column offsets,
//! and for each column a chain of run-length posts.

use crate::wad::bytes::option_bytes;
use crate::wad::header::le32;
use crate::wad::header::read_le32;
use crate::wad::raster::byte_column;
use crate::wad::raster::byte_row;
use crate::wad::raster::lemma_byte_of_pixel;
use crate::wad::raster::lemma_pixel_in_bitmap;
use crate::wad::raster::lemma_pixel_of_byte;
use crate::wad::raster::pixel_channel;
use crate::wad::raster::pixel_start;
use crate::wad::raster::put_pixel;
use crate::wad::raster::PALETTE_BYTES;
use crate::wad::raster::PIXEL_ALPHA;
use vstd::prelude::*;

verus! {

/// The start-row byte that ends a column.
pub const COLUMN_END: u8 = 255;

/// Where the posts of column `x` begin: entry `x` of the offset table that
/// opens the lump.
pub open spec fn column_offset(data: Seq<u8>, x: int) -> int {
    le32(data[4 * x], data[4 * x + 1], data[4 * x + 2], data[4 * x + 3]) as int
}

/// Whether a post begins at `pos`: its start row and its run length lie
/// inside the lump, and the start row is not the end mark.
pub open spec fn post_starts(data: Seq<u8>, pos: int) -> bool {
    0 <= pos && pos + 1 < data.len() && data[pos] != COLUMN_END
}

/// Where the post after the one at `pos` begins: past the start row, the run
/// length, one unused byte, the run, and one more unused byte.
pub open spec fn next_post(data: Seq<u8>, pos: int) -> int {
    pos + 4 + data[pos + 1]
}

/// The palette index that the post at `pos` paints on row `y`: the post
/// covers rows `start .. start + run`, one byte each, as far as the lump goes.
pub open spec fn post_pixel(data: Seq<u8>, pos: int, y: int) -> Option<u8> {
    let k = y - data[pos];
    if 0 <= k < data[pos + 1] && pos + 3 + k < data.len() {
        Some(data[pos + 3 + k])
    } else {
        None
    }
}

/// How many bytes of the lump lie at `pos` and after it.
pub open spec fn bytes_from(data: Seq<u8>, pos: int) -> nat {
    if pos < data.len() {
        (data.len() - pos) as nat
    } else {
        0
    }
}

/// What shows where two posts may have painted: the later one, if it did.
pub open spec fn later_or(later: Option<u8>, earlier: Option<u8>) -> Option<u8> {
    if later is Some {
        later
    } else {
        earlier
    }
}

/// The palette index that row `y` shows in a column whose posts begin at
/// `pos`: that of the last post that paints the row, if any does.
pub open spec fn column_pixel(data: Seq<u8>, pos: int, y: int) -> Option<u8>
    decreases bytes_from(data, pos),
{
    if post_starts(data, pos) {
        later_or(column_pixel(data, next_post(data, pos), y), post_pixel(data, pos, y))
    } else {
        None
    }
}

/// The palette index that pixel (`x`, `y`) of the picture shows, if any.
pub open spec fn patch_pixel(data: Seq<u8>, x: int, y: int) -> Option<u8> {
    column_pixel(data, column_offset(data, x), y)
}

/// Byte `i` of the decoded picture.
pub open spec fn patch_byte(data: Seq<u8>, palette: Seq<u8>, width: nat, i: int) -> u8 {
    pixel_channel(
        palette,
        patch_pixel(data, byte_column(i, width), byte_row(i, width)),
        i % 4,
    )
}

/// The decoded picture: row-major RGBA, a painted pixel in its palette
/// colour, every other pixel zero in all four bytes.
pub open spec fn patch_image(data: Seq<u8>, palette: Seq<u8>, width: nat, height: nat) -> Seq<u8> {
    Seq::new(width * height * 4, |i: int| patch_byte(data, palette, width, i))
}

/// What decoding gives: nothing for a lump too short for its offset table,
/// the picture otherwise.
pub open spec fn decoded_patch(
    data: Seq<u8>,
    palette: Seq<u8>,
    width: nat,
    height: nat,
) -> Option<Seq<u8>> {
    if data.len() < 4 * width {
        None
    } else {
        Some(patch_image(data, palette, width, height))
    }
}

/// Pixel (`x`, `y`) of the decoded picture shows what its column paints on
/// its row: its palette colour at alpha 16, or zero in all four bytes.
pub proof fn lemma_patch_pixel(
    data: Seq<u8>,
    palette: Seq<u8>,
    width: nat,
    height: nat,
    x: int,
    y: int,
    channel: int,
)
    requires
        0 <= x < width,
        0 <= y < height,
        0 <= channel < 4,
    ensures
        0 <= pixel_start(width, x, y) + channel < patch_image(data, palette, width, height).len(),
        patch_image(data, palette, width, height)[pixel_start(width, x, y) + channel]
            == pixel_channel(palette, patch_pixel(data, x, y), channel),
{
    lemma_pixel_in_bitmap(width, height, x, y);
    lemma_byte_of_pixel(width, x, y, channel);
}

/// Whether pixel `p` of a bitmap, counted row by row, is painted: its alpha
/// is 16.
pub open spec fn pixel_is_painted(image: Seq<u8>, p: int) -> bool {
    image[4 * p + 3] == PIXEL_ALPHA
}

/// Whether pixel `p` of a bitmap, counted row by row, is blank: zero in all
/// four bytes.
pub open spec fn pixel_is_blank(image: Seq<u8>, p: int) -> bool {
    image[4 * p] == 0 && image[4 * p + 1] == 0 && image[4 * p + 2] == 0 && image[4 * p + 3] == 0
}

/// Every pixel of a decoded picture is either painted or blank, and never
/// anything between: where a post paints it, it has its palette colour and
/// alpha 16, and where none does, it is zero in all four bytes.
pub proof fn lemma_pixel_painted_or_blank(
    data: Seq<u8>,
    palette: Seq<u8>,
    width: nat,
    height: nat,
    p: int,
)
    requires
        0 <= p < width * height,
    ensures
        4 * p + 4 <= patch_image(data, palette, width, height).len(),
        patch_pixel(data, p % (width as int), p / (width as int)) matches Some(index) ==> {
            &&& patch_image(data, palette, width, height)[4 * p] == palette[3 * index]
            &&& patch_image(data, palette, width, height)[4 * p + 1] == palette[3 * index + 1]
            &&& patch_image(data, palette, width, height)[4 * p + 2] == palette[3 * index + 2]
            &&& pixel_is_painted(patch_image(data, palette, width, height), p)
        },
        patch_pixel(data, p % (width as int), p / (width as int)) is None ==> pixel_is_blank(
            patch_image(data, palette, width, height),
            p,
        ),
        pixel_is_painted(patch_image(data, palette, width, height), p) || pixel_is_blank(
            patch_image(data, palette, width, height),
            p,
        ),
        pixel_is_painted(patch_image(data, palette, width, height), p) <==> patch_pixel(
            data,
            p % (width as int),
            p / (width as int),
        ) is Some,
{
    let image = patch_image(data, palette, width, height);
    assert(image[4 * p] == patch_byte(data, palette, width, 4 * p));
    assert(image[4 * p + 1] == patch_byte(data, palette, width, 4 * p + 1));
    assert(image[4 * p + 2] == patch_byte(data, palette, width, 4 * p + 2));
    assert(image[4 * p + 3] == patch_byte(data, palette, width, 4 * p + 3));
}

/// A lump shorter than its offset table does not decode; any other does, to
/// four bytes for each pixel.
pub proof fn lemma_patch_length(data: Seq<u8>, palette: Seq<u8>, width: nat, height: nat)
    ensures
        decoded_patch(data, palette, width, height) is None <==> data.len() < 4 * width,
        decoded_patch(data, palette, width, height) matches Some(image) ==> image.len() == width
            * height * 4,
{
}

/// The index painted on row `y` so far, in a column whose painted rows are
/// recorded in `shown`.
spec fn painted(shown: Map<int, u8>, y: int) -> Option<u8> {
    if shown.contains_key(y) {
        Some(shown[y])
    } else {
        None
    }
}

/// Paints the rows of the post at `pos` that lie inside the picture and
/// inside the lump.
fn paint_post(
    data: &[u8],
    palette: &[u8],
    width: usize,
    height: usize,
    x: usize,
    pos: usize,
    out: &mut Vec<u8>,
    Ghost(shown): Ghost<Map<int, u8>>,
) -> (after: Ghost<Map<int, u8>>)
    requires
        palette@.len() >= PALETTE_BYTES,
        x < width,
        post_starts(data@, pos as int),
        old(out)@.len() == width * height * 4,
        forall|i: int|
            0 <= i < old(out)@.len() && byte_column(i, width as nat) == x ==> #[trigger] old(
                out,
            )@[i] == pixel_channel(palette@, painted(shown, byte_row(i, width as nat)), i % 4),
    ensures
        final(out)@.len() == old(out)@.len(),
        forall|i: int|
            0 <= i < old(out)@.len() ==> #[trigger] final(out)@[i] == if byte_column(
                i,
                width as nat,
            ) == x {
                pixel_channel(palette@, painted(after@, byte_row(i, width as nat)), i % 4)
            } else {
                old(out)@[i]
            },
        forall|y: int|
            0 <= y < height ==> #[trigger] painted(after@, y) == later_or(
                post_pixel(data@, pos as int, y),
                painted(shown, y),
            ),
{
    let len: usize = data.len();
    let start: usize = data[pos] as usize;
    let run: usize = data[pos + 1] as usize;
    let room: usize = len - pos;
    let ghost mut now: Map<int, u8> = shown;
    let mut k: usize = 0;
    while k < run && 3 + k < room
        invariant
            palette@.len() >= PALETTE_BYTES,
            x < width,
            len == data@.len(),
            pos + room == len,
            start == data@[pos as int],
            run == data@[pos + 1],
            k <= run,
            k == 0 || 2 + k < room,
            out@.len() == width * height * 4,
            out@.len() == old(out)@.len(),
            forall|i: int|
                0 <= i < out@.len() ==> #[trigger] out@[i] == if byte_column(i, width as nat)
                    == x {
                    pixel_channel(palette@, painted(now, byte_row(i, width as nat)), i % 4)
                } else {
                    old(out)@[i]
                },
            forall|y: int|
                0 <= y < height ==> #[trigger] painted(now, y) == if start <= y < start + k {
                    Some(data@[pos + 3 + (y - start)])
                } else {
                    painted(shown, y)
                },
        decreases run - k,
    {
        let index: u8 = data[pos + 3 + k];
        let row: usize = start + k;
        if row < height {
            let ghost earlier = now;
            put_pixel(out, width, height, x, row, palette, index);
            proof {
                now = earlier.insert(row as int, index);
                assert forall|y: int| 0 <= y < height implies #[trigger] painted(now, y) == if start
                    <= y < start + k + 1 {
                    Some(data@[pos + 3 + (y - start)])
                } else {
                    painted(shown, y)
                } by {
                    assert(y != row ==> painted(now, y) == painted(earlier, y));
                }
                assert forall|i: int| 0 <= i < out@.len() implies #[trigger] out@[i]
                    == if byte_column(i, width as nat) == x {
                    pixel_channel(palette@, painted(now, byte_row(i, width as nat)), i % 4)
                } else {
                    old(out)@[i]
                } by {
                    let r = byte_row(i, width as nat);
                    assert(r != row ==> painted(now, r) == painted(earlier, r));
                }
            }
        }
        k += 1;
    }
    Ghost(now)
}

/// Decodes column `x` into `out`, which holds nothing in that column yet.
fn decode_column(
    data: &[u8],
    palette: &[u8],
    width: usize,
    height: usize,
    x: usize,
    out: &mut Vec<u8>,
)
    requires
        palette@.len() >= PALETTE_BYTES,
        x < width,
        4 * width <= data@.len(),
        old(out)@.len() == width * height * 4,
        forall|i: int|
            0 <= i < old(out)@.len() && byte_column(i, width as nat) == x ==> #[trigger] old(
                out,
            )@[i] == 0,
    ensures
        final(out)@.len() == old(out)@.len(),
        forall|i: int|
            0 <= i < old(out)@.len() ==> #[trigger] final(out)@[i] == if byte_column(
                i,
                width as nat,
            ) == x {
                patch_byte(data@, palette@, width as nat, i)
            } else {
                old(out)@[i]
            },
{
    let len: usize = data.len();
    let first: usize = read_le32(data, 4 * x);
    let mut pos: usize = first;
    let ghost mut shown: Map<int, u8> = Map::empty();
    loop
        invariant_except_break
            forall|y: int|
                0 <= y < height ==> later_or(
                    column_pixel(data@, pos as int, y),
                    #[trigger] painted(shown, y),
                ) == column_pixel(data@, first as int, y),
        invariant
            palette@.len() >= PALETTE_BYTES,
            x < width,
            len == data@.len(),
            first == column_offset(data@, x as int),
            out@.len() == width * height * 4,
            out@.len() == old(out)@.len(),
            forall|i: int|
                0 <= i < out@.len() ==> #[trigger] out@[i] == if byte_column(i, width as nat)
                    == x {
                    pixel_channel(palette@, painted(shown, byte_row(i, width as nat)), i % 4)
                } else {
                    old(out)@[i]
                },
        ensures
            forall|y: int|
                0 <= y < height ==> #[trigger] painted(shown, y) == column_pixel(
                    data@,
                    first as int,
                    y,
                ),
        decreases len - pos,
    {
        if pos >= len || len - pos < 2 || data[pos] == COLUMN_END {
            break ;
        }
        let run: usize = data[pos + 1] as usize;
        let ghost before = shown;
        let after = paint_post(data, palette, width, height, x, pos, out, Ghost(shown));
        proof {
            shown = after@;
        }
        if len - pos <= 4 + run {
            proof {
                let next = next_post(data@, pos as int);
                assert(!post_starts(data@, next));
                assert forall|y: int| 0 <= y < height implies #[trigger] painted(shown, y)
                    == column_pixel(data@, first as int, y) by {
                    assert(column_pixel(data@, next, y) is None);
                    assert(column_pixel(data@, pos as int, y) == post_pixel(data@, pos as int, y));
                    assert(later_or(column_pixel(data@, pos as int, y), painted(before, y))
                        == column_pixel(data@, first as int, y));
                }
            }
            break ;
        }
        proof {
            assert forall|y: int| 0 <= y < height implies later_or(
                column_pixel(data@, next_post(data@, pos as int), y),
                #[trigger] painted(shown, y),
            ) == column_pixel(data@, first as int, y) by {
                assert(later_or(column_pixel(data@, pos as int, y), painted(before, y))
                    == column_pixel(data@, first as int, y));
            }
        }
        pos = pos + 4 + run;
    }
    proof {
        assert forall|i: int| 0 <= i < old(out)@.len() implies #[trigger] out@[i] == if byte_column(
            i,
            width as nat,
        ) == x {
            patch_byte(data@, palette@, width as nat, i)
        } else {
            old(out)@[i]
        } by {
            lemma_pixel_of_byte(width as nat, height as nat, i);
        }
    }
}

/// Decodes a picture lump of the primary format at the given dimensions.
///
/// The lump opens with one four-byte little-endian offset per column. Each
/// column is a chain of posts; a post paints a run of rows with palette
/// colours at alpha 16. Rows outside the picture are skipped, and a chain
/// that leaves the lump ends there. The one lump that is refused is one too
/// short for its offset table.
pub fn decode_titlepic(data: &[u8], palette: &[u8], width: usize, height: usize) -> (out: Option<
    Vec<u8>,
>)
    requires
        palette@.len() >= PALETTE_BYTES,
        data@.len() >= 4 * width ==> width * height * 4 <= usize::MAX,
    ensures
        out is None <==> data@.len() < 4 * width,
        out matches Some(image) ==> image@ == patch_image(
            data@,
            palette@,
            width as nat,
            height as nat,
        ),
        option_bytes(out) == decoded_patch(data@, palette@, width as nat, height as nat),
        out matches Some(image) ==> image@.len() == width * height * 4 && forall|p: int|
            0 <= p < width * height ==> #[trigger] pixel_is_painted(image@, p) || pixel_is_blank(
                image@,
                p,
            ),
{
    if width > usize::MAX / 4 || data.len() < width * 4 {
        assert(data.len() <= usize::MAX);
        return None;
    }
    assert(width * height <= width * height * 4) by (nonlinear_arith);
    let mut image: Vec<u8> = vec![0u8; width * height * 4];
    for x in 0..width
        invariant
            palette@.len() >= PALETTE_BYTES,
            4 * width <= data@.len(),
            image@.len() == width * height * 4,
            forall|i: int|
                0 <= i < image@.len() ==> #[trigger] image@[i] == if byte_column(i, width as nat)
                    < x {
                    patch_byte(data@, palette@, width as nat, i)
                } else {
                    0
                },
    {
        decode_column(data, palette, width, height, x, &mut image);
    }
    proof {
        assert forall|i: int| 0 <= i < image@.len() implies image@[i] == patch_byte(
            data@,
            palette@,
            width as nat,
            i,
        ) by {
            lemma_pixel_of_byte(width as nat, height as nat, i);
        }
        assert(image@ =~= patch_image(data@, palette@, width as nat, height as nat));
        assert forall|p: int| 0 <= p < width * height implies #[trigger] pixel_is_painted(
            image@,
            p,
        ) || pixel_is_blank(image@, p) by {
            lemma_pixel_painted_or_blank(data@, palette@, width as nat, height as nat, p);
        }
    }
    Some(image)
}

} // verus!
