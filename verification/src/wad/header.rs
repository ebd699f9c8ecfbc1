//! Little-endian header fields of a picture lump, and the dimensions read from them.

use vstd::prelude::*;

verus! {

/// Width assumed for a picture whose header cannot be trusted.
pub const FALLBACK_WIDTH: usize = 320;

/// Height assumed for a picture whose header cannot be trusted.
pub const FALLBACK_HEIGHT: usize = 200;

/// The value of a two-byte little-endian field.
pub open spec fn le16(lo: u8, hi: u8) -> nat {
    (lo as nat) + 256 * (hi as nat)
}

/// The value of a four-byte little-endian field.
pub open spec fn le32(b0: u8, b1: u8, b2: u8, b3: u8) -> nat {
    (b0 as nat) + 256 * (b1 as nat) + 65536 * (b2 as nat) + 16777216 * (b3 as nat)
}

/// The width field at the start of a picture lump.
pub open spec fn header_width(data: Seq<u8>) -> nat
    recommends
        data.len() >= 4,
{
    le16(data[0], data[1])
}

/// The height field that follows the width field.
pub open spec fn header_height(data: Seq<u8>) -> nat
    recommends
        data.len() >= 4,
{
    le16(data[2], data[3])
}

/// Whether the header of `data` can be taken at its word: both fields are
/// there and nonzero, and the lump has room for the four header bytes and
/// for one four-byte column offset per column.
pub open spec fn header_is_plausible(data: Seq<u8>) -> bool {
    &&& data.len() >= 4
    &&& header_width(data) != 0
    &&& header_height(data) != 0
    &&& data.len() >= 4 + 4 * header_width(data)
}

/// The dimensions to decode a picture lump at: those of its header where the
/// header is plausible, the fallback otherwise.
pub open spec fn title_dimensions(data: Seq<u8>) -> (nat, nat) {
    if header_is_plausible(data) {
        (header_width(data), header_height(data))
    } else {
        (FALLBACK_WIDTH as nat, FALLBACK_HEIGHT as nat)
    }
}

/// The two bytes of a little-endian field spell its value: the low byte
/// first.
pub proof fn lemma_le16_of_bytes(value: nat)
    requires
        value <= 65535,
    ensures
        le16((value % 256) as u8, (value / 256) as u8) == value,
{
}

/// A header that names a width and a height, both nonzero, in a lump with
/// room for the header and for the offsets of that many columns, is taken at
/// its word.
pub proof fn lemma_plausible_header_is_kept(data: Seq<u8>, width: nat, height: nat)
    requires
        1 <= width <= 65535,
        1 <= height <= 65535,
        data.len() >= 4 + 4 * width,
        data[0] == width % 256,
        data[1] == width / 256,
        data[2] == height % 256,
        data[3] == height / 256,
    ensures
        title_dimensions(data) == (width, height),
{
}

/// A lump too short for a header, a header with a zero field, and a width
/// that asks for more offsets than the lump has room for all give the
/// fallback dimensions.
pub proof fn lemma_implausible_header_falls_back(data: Seq<u8>)
    requires
        data.len() < 4 || header_width(data) == 0 || header_height(data) == 0 || data.len() < 4 + 4
            * header_width(data),
    ensures
        title_dimensions(data) == (FALLBACK_WIDTH as nat, FALLBACK_HEIGHT as nat),
{
}

/// Reads the two-byte little-endian field at `at`.
pub fn read_le16(data: &[u8], at: usize) -> (value: usize)
    requires
        at + 2 <= data@.len(),
    ensures
        value == le16(data@[at as int], data@[at + 1]),
        value <= 65535,
{
    let lo: usize = data[at] as usize;
    let hi: usize = data[at + 1] as usize;
    lo + 256 * hi
}

/// Reads the four-byte little-endian field at `at`.
pub fn read_le32(data: &[u8], at: usize) -> (value: usize)
    requires
        at + 4 <= data@.len(),
    ensures
        value == le32(data@[at as int], data@[at + 1], data@[at + 2], data@[at + 3]),
        value <= 0xffff_ffff,
{
    let b0: usize = data[at] as usize;
    let b1: usize = data[at + 1] as usize;
    let b2: usize = data[at + 2] as usize;
    let b3: usize = data[at + 3] as usize;
    b0 + 256 * b1 + 65536 * b2 + 16777216 * b3
}

/// Width and height of the picture in `data`.
///
/// A lump that is too short to hold a header, a header with a zero field, and
/// a header whose width asks for a longer offset table than the lump holds all
/// give the fallback dimensions; no lump is rejected.
pub fn get_titlepic_dimensions(data: &[u8]) -> (dims: (usize, usize))
    ensures
        (dims.0 as nat, dims.1 as nat) == title_dimensions(data@),
        header_is_plausible(data@) ==> dims.0 == header_width(data@) && dims.1 == header_height(
            data@,
        ),
        !header_is_plausible(data@) ==> dims == (FALLBACK_WIDTH, FALLBACK_HEIGHT),
        1 <= dims.0 <= 65535,
        1 <= dims.1 <= 65535,
{
    if data.len() < 4 {
        return (FALLBACK_WIDTH, FALLBACK_HEIGHT);
    }
    let width: usize = read_le16(data, 0);
    let height: usize = read_le16(data, 2);
    if width == 0 || height == 0 || data.len() < 4 + width * 4 {
        (FALLBACK_WIDTH, FALLBACK_HEIGHT)
    } else {
        (width, height)
    }
}

} // verus!
