//! From a title lump to a picture: which decoder a lump goes to, and the
//! whole way from two archive files to the decoded title picture.

use crate::text::same_text;
use crate::wad::archive::archive_lump;
use crate::wad::bytes::slice_bytes;
use crate::wad::header::get_titlepic_dimensions;
use crate::wad::header::header_height;
use crate::wad::header::header_is_plausible;
use crate::wad::header::header_width;
use crate::wad::header::title_dimensions;
use crate::wad::lumps::load_playpal_lump;
use crate::wad::lumps::load_titlepic_lump;
use crate::wad::lumps::playpal;
use crate::wad::lumps::title_lump;
use crate::wad::lumps::LEGACY_TITLE;
use crate::wad::lumps::PALETTE_LUMP;
use crate::wad::lumps::LEGACY_TITLE_ALIAS;
use crate::wad::patch::decode_titlepic;
use crate::wad::patch::decoded_patch;
use crate::wad::patch::patch_image;
use crate::wad::raster::PALETTE_BYTES;
use crate::wad::raw::decode_htitle;
use crate::wad::raw::decoded_raw;
use crate::wad::raw::raw_image;
use crate::wad::raw::RAW_HEIGHT;
use crate::wad::raw::RAW_PIXELS;
use crate::wad::raw::RAW_WIDTH;
use vstd::prelude::*;

verus! {

/// Whether a title lump was found under one of the two legacy names.
pub open spec fn is_legacy_title(name: Seq<char>) -> bool {
    name == LEGACY_TITLE@ || name == LEGACY_TITLE_ALIAS@
}

/// The dimensions that a title lump is decoded at: a full screen under a
/// legacy name, what its header gives under any other.
pub open spec fn title_size(name: Seq<char>, data: Seq<u8>) -> (nat, nat) {
    if is_legacy_title(name) {
        (RAW_WIDTH as nat, RAW_HEIGHT as nat)
    } else {
        title_dimensions(data)
    }
}

/// The pixels of a title lump.
///
/// Under a legacy name the lump is taken for the legacy format, and where
/// that fails for its length, for the primary format at full screen: some
/// archives keep a primary-format picture under a legacy name. Under any
/// other name it is taken for the primary format at the dimensions of its
/// header.
pub open spec fn title_pixels(name: Seq<char>, data: Seq<u8>, palette: Seq<u8>) -> Option<
    Seq<u8>,
> {
    if is_legacy_title(name) {
        if decoded_raw(data, palette) is Some {
            decoded_raw(data, palette)
        } else {
            decoded_patch(data, palette, RAW_WIDTH as nat, RAW_HEIGHT as nat)
        }
    } else {
        decoded_patch(data, palette, title_dimensions(data).0, title_dimensions(data).1)
    }
}

/// The picture of a title lump: its width, its height and its pixels.
pub open spec fn decoded_title(name: Seq<char>, data: Seq<u8>, palette: Seq<u8>) -> Option<
    (nat, nat, Seq<u8>),
> {
    match title_pixels(name, data, palette) {
        Some(pixels) => Some((title_size(name, data).0, title_size(name, data).1, pixels)),
        None => None,
    }
}

/// Whether a bitmap of the dimensions of this title lump can be addressed on
/// this machine.
pub open spec fn title_fits(name: Seq<char>, data: Seq<u8>) -> bool {
    title_size(name, data).0 * title_size(name, data).1 * 4 <= usize::MAX
}

/// A decoded picture as the contracts speak of it.
pub open spec fn image_view(image: Option<(usize, usize, Vec<u8>)>) -> Option<(nat, nat, Seq<u8>)> {
    match image {
        Some((width, height, pixels)) => Some((width as nat, height as nat, pixels@)),
        None => None,
    }
}

/// The title picture of a base archive `iwad` and an override archive `wad`.
///
/// There is none without a palette, none without a title lump, and none
/// where the title lump does not decode.
pub open spec fn title_image(iwad: Option<Seq<u8>>, wad: Option<Seq<u8>>) -> Option<
    (nat, nat, Seq<u8>),
> {
    match (playpal(iwad, wad), title_lump(iwad, wad)) {
        (Some(palette), Some((name, data))) => if title_fits(name, data) {
            decoded_title(name, data, palette)
        } else {
            None
        },
        _ => None,
    }
}

/// Whether a lump name is one of the two legacy names.
fn legacy_title(name: &str) -> (legacy: bool)
    ensures
        legacy == is_legacy_title(name@),
{
    same_text(name, LEGACY_TITLE) || same_text(name, LEGACY_TITLE_ALIAS)
}

/// Whether a bitmap of these dimensions can be addressed on this machine.
fn bitmap_fits(width: usize, height: usize) -> (fits: bool)
    requires
        width <= 65535,
        height <= 65535,
    ensures
        fits == (width * height * 4 <= usize::MAX),
{
    assert(width * height <= 65535 * 65535) by (nonlinear_arith)
        requires
            width <= 65535,
            height <= 65535,
    ;
    let cells: usize = width * height;
    cells <= usize::MAX / 4
}

/// Whether the picture of this title lump can be addressed on this machine.
pub fn title_fits_memory(name: &str, data: &[u8]) -> (fits: bool)
    ensures
        fits == title_fits(name@, data@),
{
    if legacy_title(name) {
        true
    } else {
        let (width, height) = get_titlepic_dimensions(data);
        bitmap_fits(width, height)
    }
}

/// Decodes a title lump that was found under `name`.
///
/// The result is the picture with its dimensions, or nothing where the lump
/// does not decode. What is decoded is decoded in full: the pixels are four
/// bytes for each pixel of the dimensions given.
pub fn decode_title(name: &str, data: &[u8], palette: &[u8]) -> (image: Option<
    (usize, usize, Vec<u8>),
>)
    requires
        palette@.len() >= PALETTE_BYTES,
        title_fits(name@, data@),
    ensures
        image_view(image) == decoded_title(name@, data@, palette@),
        image matches Some((width, height, pixels)) ==> {
            &&& width >= 1
            &&& height >= 1
            &&& pixels@.len() == width * height * 4
        },
{
    if legacy_title(name) {
        let pixels = match decode_htitle(data, palette) {
            Some(raw) => Some(raw),
            None => decode_titlepic(data, palette, RAW_WIDTH, RAW_HEIGHT),
        };
        match pixels {
            Some(bitmap) => Some((RAW_WIDTH, RAW_HEIGHT, bitmap)),
            None => None,
        }
    } else {
        let (width, height) = get_titlepic_dimensions(data);
        match decode_titlepic(data, palette, width, height) {
            Some(bitmap) => Some((width, height, bitmap)),
            None => None,
        }
    }
}

/// Loads the title picture of a base archive `iwad` and an override archive
/// `wad`, each given as the bytes of its file, or absent.
///
/// The palette is looked for first, then the title lump; the lump is decoded
/// by the name it was found under. A picture too large to address on this
/// machine is not decoded.
pub fn load_titlepic(iwad: Option<&[u8]>, wad: Option<&[u8]>) -> (image: Option<
    (usize, usize, Vec<u8>),
>)
    ensures
        image_view(image) == title_image(slice_bytes(iwad), slice_bytes(wad)),
        image matches Some((width, height, pixels)) ==> {
            &&& width >= 1
            &&& height >= 1
            &&& pixels@.len() == width * height * 4
        },
{
    let palette = match load_playpal_lump(iwad, wad) {
        Some(palette) => palette,
        None => { return None; },
    };
    let (name, data) = match load_titlepic_lump(iwad, wad) {
        Some(found) => found,
        None => { return None; },
    };
    if !title_fits_memory(name.as_str(), data.as_slice()) {
        return None;
    }
    decode_title(name.as_str(), data.as_slice(), palette.as_slice())
}

/// A lump of exactly one screen that was found under a legacy name is a raw
/// screen.
pub proof fn lemma_legacy_screen(name: Seq<char>, data: Seq<u8>, palette: Seq<u8>)
    requires
        is_legacy_title(name),
        data.len() == RAW_PIXELS,
    ensures
        decoded_title(name, data, palette) == Some(
            (RAW_WIDTH as nat, RAW_HEIGHT as nat, raw_image(data, palette)),
        ),
{
}

/// A lump of any other length that was found under a legacy name is taken
/// for a full-screen picture of the primary format, the decoder that is left.
pub proof fn lemma_legacy_picture(name: Seq<char>, data: Seq<u8>, palette: Seq<u8>)
    requires
        is_legacy_title(name),
        data.len() != RAW_PIXELS,
    ensures
        title_pixels(name, data, palette) == decoded_patch(
            data,
            palette,
            RAW_WIDTH as nat,
            RAW_HEIGHT as nat,
        ),
        decoded_title(name, data, palette) is None <==> data.len() < 4 * RAW_WIDTH,
{
}

/// A lump that was found under the primary name and has a plausible header
/// always decodes, at the dimensions of its header.
pub proof fn lemma_primary_picture(name: Seq<char>, data: Seq<u8>, palette: Seq<u8>)
    requires
        !is_legacy_title(name),
        header_is_plausible(data),
    ensures
        decoded_title(name, data, palette) == Some(
            (
                header_width(data),
                header_height(data),
                patch_image(data, palette, header_width(data), header_height(data)),
            ),
        ),
{
}

/// A title picture is whole: its dimensions are positive, and its pixels are
/// four bytes for each pixel of those dimensions.
pub proof fn lemma_title_is_whole(name: Seq<char>, data: Seq<u8>, palette: Seq<u8>)
    ensures
        decoded_title(name, data, palette) matches Some((width, height, pixels)) ==> {
            &&& width >= 1
            &&& height >= 1
            &&& pixels.len() == width * height * 4
        },
{
}

/// A base archive without a palette lump gives no picture when it stands
/// alone, whatever title lump it holds.
pub proof fn lemma_base_without_palette(iwad: Seq<u8>)
    requires
        archive_lump(iwad, PALETTE_LUMP@) is None,
    ensures
        title_image(Some(iwad), None) is None,
{
}

/// Without a palette there is no picture, whatever title lump there is.
pub proof fn lemma_no_palette_no_image(iwad: Option<Seq<u8>>, wad: Option<Seq<u8>>)
    requires
        playpal(iwad, wad) is None,
    ensures
        title_image(iwad, wad) is None,
{
}

/// Without a title lump there is no picture.
pub proof fn lemma_no_title_no_image(iwad: Option<Seq<u8>>, wad: Option<Seq<u8>>)
    requires
        title_lump(iwad, wad) is None,
    ensures
        title_image(iwad, wad) is None,
{
}

} // verus!
