//! Archives, read with the `wad` crate: a file's bytes are parsed into a
//! directory of named lumps, and a lump is looked up by its name.

use crate::wad::bytes::option_bytes;
use vstd::prelude::*;

verus! {

/// `wad::Wad`, a parsed archive. Nothing is known of what is inside one but
/// what `wad_lumps` names.
#[verifier::external_type_specification]
#[verifier::external_body]
pub struct ExWad(::wad::Wad);

/// `wad::Error`, the reason why bytes are no archive. It is never looked
/// into.
#[verifier::external_type_specification]
#[verifier::external_body]
pub struct ExWadError(::wad::Error);

/// What a parsed archive holds: the lump that a lookup finds under each
/// eight-byte directory name. A name is missing where no directory entry
/// carries it, and where the first entry that carries it does not describe
/// bytes inside the archive.
pub uninterp spec fn wad_lumps(archive: ::wad::Wad) -> Map<Seq<u8>, Seq<u8>>;

/// What parsing makes of a file's bytes: the lumps of the archive, or nothing
/// where the bytes are not an archive.
pub uninterp spec fn parsed_lumps(file: Seq<u8>) -> Option<Map<Seq<u8>, Seq<u8>>>;

/// A name byte as the directory spells it: ASCII letters in upper case.
pub open spec fn upper_byte(c: char) -> u8 {
    if 'a' <= c <= 'z' {
        ((c as u8) - 32) as u8
    } else {
        c as u8
    }
}

/// Whether `name` can name a lump: at most eight characters, all ASCII.
pub open spec fn is_lump_name(name: Seq<char>) -> bool {
    &&& name.len() <= 8
    &&& forall|i: int| 0 <= i < name.len() ==> '\0' <= #[trigger] name[i] <= '\u{7f}'
}

/// The directory name that `name` is looked up under: in upper case, filled
/// up to eight bytes with zeros.
pub open spec fn lump_key(name: Seq<char>) -> Seq<u8> {
    Seq::new(
        8,
        |i: int|
            if i < name.len() {
                upper_byte(name[i])
            } else {
                0u8
            },
    )
}

/// The lump called `name` among `lumps`, if there is one.
pub open spec fn lump_named(lumps: Map<Seq<u8>, Seq<u8>>, name: Seq<char>) -> Option<Seq<u8>> {
    if lumps.contains_key(lump_key(name)) {
        Some(lumps[lump_key(name)])
    } else {
        None
    }
}

/// The lump called `name` in the archive whose file holds `file`: nothing
/// where the bytes are not an archive, and nothing where the archive has no
/// such lump.
pub open spec fn archive_lump(file: Seq<u8>, name: Seq<char>) -> Option<Seq<u8>> {
    match parsed_lumps(file) {
        Some(lumps) => lump_named(lumps, name),
        None => None,
    }
}

/// Parses a file's bytes with `wad::parse_wad`.
///
/// Not proved: that the outcome depends on the bytes alone, which is all the
/// contract says. `parsed_lumps` names it, and for an archive that parses it
/// is the archive's own lumps.
#[verifier::external_body]
pub(crate) fn parse_archive(file: &[u8]) -> (parsed: Result<::wad::Wad, ::wad::Error>)
    ensures
        match parsed {
            Ok(archive) => parsed_lumps(file@) == Some(wad_lumps(archive)),
            Err(_) => parsed_lumps(file@) is None,
        },
{
    ::wad::parse_wad(file.to_vec())
}

/// Looks a lump up with `wad::EntryId::from_str` and `wad::Wad::by_id`, and
/// copies it out.
///
/// Not proved: that the name is looked up in upper case and zero-padded, as
/// `from_str` documents, and that the lump returned is the one the archive
/// holds under that directory name.
#[verifier::external_body]
pub(crate) fn lump_by_name(archive: &::wad::Wad, name: &str) -> (lump: Option<Vec<u8>>)
    requires
        is_lump_name(name@),
    ensures
        option_bytes(lump) == lump_named(wad_lumps(*archive), name@),
{
    let id = ::wad::EntryId::from_str(name)?;
    let bytes = archive.by_id(id)?;
    Some(bytes.to_vec())
}

/// Reads the lump called `name` out of an archive file.
pub fn read_lump(file: &[u8], name: &str) -> (lump: Option<Vec<u8>>)
    requires
        is_lump_name(name@),
    ensures
        option_bytes(lump) == archive_lump(file@, name@),
{
    match parse_archive(file) {
        Ok(archive) => lump_by_name(&archive, name),
        Err(_) => None,
    }
}

} // verus!
