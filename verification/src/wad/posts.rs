//! Pictures as lists of posts, and what decoding makes of a lump that spells
//! such a list out.

use crate::wad::patch::column_offset;
use crate::wad::patch::column_pixel;
use crate::wad::patch::decoded_patch;
use crate::wad::patch::later_or;
use crate::wad::patch::patch_image;
use crate::wad::patch::patch_pixel;
use crate::wad::patch::post_starts;
use crate::wad::patch::COLUMN_END;
use crate::wad::raster::lemma_byte_of_pixel;
use crate::wad::raster::lemma_pixel_in_bitmap;
use crate::wad::raster::pixel_channel;
use crate::wad::raster::pixel_start;
use crate::wad::raster::PIXEL_ALPHA;
use vstd::prelude::*;

verus! {

/// A post: a run of palette indices down a column, from row `start` on.
pub struct Post {
    pub start: nat,
    pub pixels: Seq<u8>,
}

/// Whether a post can be spelled out in a lump: its start row is not the end
/// mark, and its run length fits in a byte.
pub open spec fn post_is_valid(post: Post) -> bool {
    post.start < COLUMN_END && post.pixels.len() <= 255
}

/// Whether a post paints row `y`.
pub open spec fn post_covers(post: Post, y: int) -> bool {
    post.start <= y < post.start + post.pixels.len()
}

/// The palette index that a post paints on row `y`, if it paints the row.
pub open spec fn post_shows(post: Post, y: int) -> Option<u8> {
    if post_covers(post, y) {
        Some(post.pixels[y - post.start])
    } else {
        None
    }
}

/// The palette index that row `y` shows once the posts of a column are
/// painted in order: that of the last post that paints the row.
pub open spec fn posts_pixel(posts: Seq<Post>, y: int) -> Option<u8>
    decreases posts.len(),
{
    if posts.len() == 0 {
        None
    } else if post_covers(posts.last(), y) {
        post_shows(posts.last(), y)
    } else {
        posts_pixel(posts.drop_last(), y)
    }
}

/// Whether the bytes at `pos` spell `post` out in full: start row, run
/// length, an unused byte, the run, and an unused byte.
pub open spec fn post_at(data: Seq<u8>, pos: int, post: Post) -> bool {
    &&& post_is_valid(post)
    &&& 0 <= pos
    &&& pos + 4 + post.pixels.len() <= data.len()
    &&& data[pos] == post.start
    &&& data[pos + 1] == post.pixels.len()
    &&& forall|k: int| 0 <= k < post.pixels.len() ==> data[pos + 3 + k] == #[trigger] post.pixels[k]
}

/// Whether the bytes at `pos` spell a column out: its posts one after the
/// other, and then no further post.
pub open spec fn column_at(data: Seq<u8>, pos: int, posts: Seq<Post>) -> bool
    decreases posts.len(),
{
    if posts.len() == 0 {
        !post_starts(data, pos)
    } else {
        &&& post_at(data, pos, posts[0])
        &&& column_at(data, pos + 4 + posts[0].pixels.len(), posts.drop_first())
    }
}

/// Whether a lump spells a picture out: it opens with one offset for each
/// column, and at each offset stands that column.
pub open spec fn patch_holds(data: Seq<u8>, width: nat, columns: Seq<Seq<Post>>) -> bool {
    &&& data.len() >= 4 * width
    &&& columns.len() == width
    &&& forall|x: int|
        0 <= x < width ==> column_at(data, column_offset(data, x), #[trigger] columns[x])
}

/// A row that no post of the column paints shows nothing.
pub proof fn lemma_unpainted_row(posts: Seq<Post>, y: int)
    requires
        forall|j: int| 0 <= j < posts.len() ==> !post_covers(#[trigger] posts[j], y),
    ensures
        posts_pixel(posts, y) is None,
    decreases posts.len(),
{
    if posts.len() > 0 {
        assert(!post_covers(posts[posts.len() - 1], y));
        lemma_unpainted_row(posts.drop_last(), y);
    }
}

/// A row shows what post `j` paints on it, if no later post of the column
/// paints it too.
pub proof fn lemma_last_painter(posts: Seq<Post>, j: int, y: int)
    requires
        0 <= j < posts.len(),
        post_covers(posts[j], y),
        forall|later: int| j < later < posts.len() ==> !post_covers(#[trigger] posts[later], y),
    ensures
        posts_pixel(posts, y) == Some(posts[j].pixels[y - posts[j].start]),
    decreases posts.len(),
{
    if j < posts.len() - 1 {
        assert(!post_covers(posts[posts.len() - 1], y));
        lemma_last_painter(posts.drop_last(), j, y);
    }
}

/// Painting a column is painting its first post and then the others over it.
proof fn lemma_first_post_is_painted_first(posts: Seq<Post>, y: int)
    requires
        posts.len() > 0,
    ensures
        posts_pixel(posts, y) == later_or(
            posts_pixel(posts.drop_first(), y),
            post_shows(posts[0], y),
        ),
    decreases posts.len(),
{
    if posts.len() == 1 {
        assert(posts.drop_first().len() == 0);
        assert(posts.drop_last().len() == 0);
    } else {
        assert(posts.drop_first().last() == posts.last());
        assert(posts.drop_first().drop_last() =~= posts.drop_last().drop_first());
        assert(posts.drop_last()[0] == posts[0]);
        lemma_first_post_is_painted_first(posts.drop_last(), y);
    }
}

/// A column that the lump spells out decodes to what its posts paint.
pub proof fn lemma_column_shows_posts(data: Seq<u8>, pos: int, posts: Seq<Post>, y: int)
    requires
        column_at(data, pos, posts),
    ensures
        column_pixel(data, pos, y) == posts_pixel(posts, y),
    decreases posts.len(),
{
    if posts.len() > 0 {
        let post = posts[0];
        assert(post_starts(data, pos));
        let k = y - post.start;
        if 0 <= k < post.pixels.len() {
            assert(data[pos + 3 + k] == post.pixels[k]);
        }
        lemma_column_shows_posts(data, pos + 4 + post.pixels.len(), posts.drop_first(), y);
        lemma_first_post_is_painted_first(posts, y);
    }
}

/// Decoding a lump that spells a picture out gives back the picture: each
/// pixel inside the dimensions shows what the posts of its column paint on
/// its row, in its palette colour at alpha 16 where a post paints it, and
/// zero in all four bytes where none does.
pub proof fn lemma_decoding_shows_posts(
    data: Seq<u8>,
    palette: Seq<u8>,
    width: nat,
    height: nat,
    columns: Seq<Seq<Post>>,
    x: int,
    y: int,
    channel: int,
)
    requires
        patch_holds(data, width, columns),
        0 <= x < width,
        0 <= y < height,
        0 <= channel < 4,
    ensures
        decoded_patch(data, palette, width, height) == Some(
            patch_image(data, palette, width, height),
        ),
        patch_image(data, palette, width, height).len() == width * height * 4,
        0 <= pixel_start(width, x, y) + channel < width * height * 4,
        patch_image(data, palette, width, height)[pixel_start(width, x, y) + channel]
            == pixel_channel(palette, posts_pixel(columns[x], y), channel),
        posts_pixel(columns[x], y) is None ==> patch_image(
            data,
            palette,
            width,
            height,
        )[pixel_start(width, x, y) + channel] == 0,
        posts_pixel(columns[x], y) is Some && channel == 3 ==> patch_image(
            data,
            palette,
            width,
            height,
        )[pixel_start(width, x, y) + channel] == PIXEL_ALPHA,
{
    lemma_pixel_in_bitmap(width, height, x, y);
    lemma_byte_of_pixel(width, x, y, channel);
    assert(column_at(data, column_offset(data, x), columns[x]));
    lemma_column_shows_posts(data, column_offset(data, x), columns[x], y);
    assert(patch_pixel(data, x, y) == posts_pixel(columns[x], y));
}

} // verus!
