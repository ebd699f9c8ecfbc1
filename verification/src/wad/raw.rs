//! The legacy title format: one palette index per pixel of a 320 by 200
//! screen, row by row, with no header.

use crate::wad::raster::pixel_channel;
use crate::wad::raster::PALETTE_BYTES;
use crate::wad::raster::PIXEL_ALPHA;
use vstd::prelude::*;

verus! {

/// Width of a legacy title picture.
pub const RAW_WIDTH: usize = 320;

/// Height of a legacy title picture.
pub const RAW_HEIGHT: usize = 200;

/// Length of a legacy title lump: one byte for each pixel.
pub const RAW_PIXELS: usize = 64000;

/// Length of a decoded legacy title picture: four bytes for each pixel.
pub const RAW_IMAGE_BYTES: usize = 256000;

/// Byte `i` of the decoded picture: pixel `i / 4` shows the palette entry
/// that its byte of the lump names.
pub open spec fn raw_byte(data: Seq<u8>, palette: Seq<u8>, i: int) -> u8 {
    pixel_channel(palette, Some(data[i / 4]), i % 4)
}

/// The decoded picture: row-major RGBA, every pixel painted.
pub open spec fn raw_image(data: Seq<u8>, palette: Seq<u8>) -> Seq<u8> {
    Seq::new(RAW_IMAGE_BYTES as nat, |i: int| raw_byte(data, palette, i))
}

/// What decoding gives: the picture for a lump of exactly one screen, nothing
/// for a lump of any other length.
pub open spec fn decoded_raw(data: Seq<u8>, palette: Seq<u8>) -> Option<Seq<u8>> {
    if data.len() == RAW_PIXELS {
        Some(raw_image(data, palette))
    } else {
        None
    }
}

/// A lump of one screen decodes, to four bytes for each of its pixels; pixel
/// `i` shows the palette entry that byte `i` of the lump names, at alpha 16.
/// A lump of any other length does not decode.
pub proof fn lemma_raw_pixel(data: Seq<u8>, palette: Seq<u8>, i: int)
    requires
        data.len() == RAW_PIXELS,
        0 <= i < RAW_PIXELS,
    ensures
        decoded_raw(data, palette) == Some(raw_image(data, palette)),
        raw_image(data, palette).len() == RAW_WIDTH * RAW_HEIGHT * 4,
        raw_image(data, palette)[4 * i] == palette[3 * data[i]],
        raw_image(data, palette)[4 * i + 1] == palette[3 * data[i] + 1],
        raw_image(data, palette)[4 * i + 2] == palette[3 * data[i] + 2],
        raw_image(data, palette)[4 * i + 3] == PIXEL_ALPHA,
{
}

/// Only a lump of exactly one screen decodes.
pub proof fn lemma_raw_length(data: Seq<u8>, palette: Seq<u8>)
    ensures
        decoded_raw(data, palette) is Some <==> data.len() == RAW_PIXELS,
{
}

/// Decodes a title lump of the legacy format.
///
/// The format carries no length of its own, so a lump that is not exactly
/// 64000 bytes long is refused; any other is decoded in full, each pixel in
/// its palette colour at alpha 16.
pub fn decode_htitle(data: &[u8], palette: &[u8]) -> (out: Option<Vec<u8>>)
    requires
        palette@.len() >= PALETTE_BYTES,
    ensures
        out is Some <==> data@.len() == RAW_PIXELS,
        out matches Some(image) ==> image@.len() == RAW_IMAGE_BYTES && image@ == raw_image(
            data@,
            palette@,
        ),
{
    if data.len() != RAW_PIXELS {
        return None;
    }
    let mut image: Vec<u8> = vec![0u8; RAW_IMAGE_BYTES];
    for i in 0..RAW_PIXELS
        invariant
            palette@.len() >= PALETTE_BYTES,
            data@.len() == RAW_PIXELS,
            image@.len() == RAW_IMAGE_BYTES,
            forall|j: int| 0 <= j < 4 * i ==> #[trigger] image@[j] == raw_byte(data@, palette@, j),
    {
        let entry: usize = (data[i] as usize) * 3;
        image.set(i * 4, palette[entry]);
        image.set(i * 4 + 1, palette[entry + 1]);
        image.set(i * 4 + 2, palette[entry + 2]);
        image.set(i * 4 + 3, PIXEL_ALPHA);
    }
    assert(image@ =~= raw_image(data@, palette@));
    Some(image)
}

} // verus!
