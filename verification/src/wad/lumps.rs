//! Finding the palette and the title picture in a base archive and an
//! optional override archive. The override archive always comes first.

use crate::wad::archive::archive_lump;
use crate::wad::archive::is_lump_name;
use crate::wad::archive::lump_by_name;
use crate::wad::archive::parse_archive;
use crate::wad::archive::read_lump;
use crate::wad::bytes::option_bytes;
use crate::wad::bytes::slice_bytes;
use crate::wad::raster::PALETTE_BYTES;
use vstd::prelude::*;
use vstd::slice::slice_subrange;
use vstd::slice::slice_to_vec;

verus! {

/// Name of the palette lump.
pub const PALETTE_LUMP: &'static str = "PLAYPAL";

/// Name of the title lump in the primary picture format.
pub const PRIMARY_TITLE: &'static str = "TITLEPIC";

/// First legacy name of a title lump.
pub const LEGACY_TITLE: &'static str = "TITLE";

/// Second legacy name of a title lump.
pub const LEGACY_TITLE_ALIAS: &'static str = "HTITLE";

/// The lump called `name` in an archive that may be absent.
pub open spec fn lump_in(file: Option<Seq<u8>>, name: Seq<char>) -> Option<Seq<u8>> {
    match file {
        Some(bytes) => archive_lump(bytes, name),
        None => None,
    }
}

/// The palette that a palette lump holds: its first 768 bytes. A lump may
/// hold more palettes after the first; a shorter one holds none.
pub open spec fn palette_of(lump: Seq<u8>) -> Option<Seq<u8>> {
    if lump.len() >= PALETTE_BYTES {
        Some(lump.subrange(0, PALETTE_BYTES as int))
    } else {
        None
    }
}

/// The palette lump of the first archive that has one, the override archive
/// `wad` before the base archive `iwad`.
pub open spec fn palette_lump(iwad: Option<Seq<u8>>, wad: Option<Seq<u8>>) -> Option<Seq<u8>> {
    if lump_in(wad, PALETTE_LUMP@) is Some {
        lump_in(wad, PALETTE_LUMP@)
    } else {
        lump_in(iwad, PALETTE_LUMP@)
    }
}

/// The palette of the two archives: that of the first palette lump found,
/// and none where no archive has a palette lump.
pub open spec fn playpal(iwad: Option<Seq<u8>>, wad: Option<Seq<u8>>) -> Option<Seq<u8>> {
    match palette_lump(iwad, wad) {
        Some(lump) => palette_of(lump),
        None => None,
    }
}

/// A title lump as the contracts speak of it: its name and its bytes.
pub open spec fn title_view(title: Option<(String, Vec<u8>)>) -> Option<(Seq<char>, Seq<u8>)> {
    match title {
        Some((name, data)) => Some((name@, data@)),
        None => None,
    }
}

/// The title lump among the three that an archive may hold: the primary name
/// before the legacy name, the legacy name before its alias.
pub open spec fn first_title(
    titlepic: Option<Seq<u8>>,
    title: Option<Seq<u8>>,
    htitle: Option<Seq<u8>>,
) -> Option<(Seq<char>, Seq<u8>)> {
    match (titlepic, title, htitle) {
        (Some(data), _, _) => Some((PRIMARY_TITLE@, data)),
        (None, Some(data), _) => Some((LEGACY_TITLE@, data)),
        (None, None, Some(data)) => Some((LEGACY_TITLE_ALIAS@, data)),
        (None, None, None) => None,
    }
}

/// The title lump of one archive file.
pub open spec fn title_in(file: Seq<u8>) -> Option<(Seq<char>, Seq<u8>)> {
    first_title(
        archive_lump(file, PRIMARY_TITLE@),
        archive_lump(file, LEGACY_TITLE@),
        archive_lump(file, LEGACY_TITLE_ALIAS@),
    )
}

/// The title lump of an archive that may be absent.
pub open spec fn title_of(file: Option<Seq<u8>>) -> Option<(Seq<char>, Seq<u8>)> {
    match file {
        Some(bytes) => title_in(bytes),
        None => None,
    }
}

/// The title lump of the two archives: that of the override archive `wad`
/// where it has one under any of the three names, else that of the base
/// archive `iwad`.
pub open spec fn title_lump(iwad: Option<Seq<u8>>, wad: Option<Seq<u8>>) -> Option<
    (Seq<char>, Seq<u8>),
> {
    if title_of(wad) is Some {
        title_of(wad)
    } else {
        title_of(iwad)
    }
}

/// The four lump names are names that an archive can be asked for.
pub proof fn lemma_lump_names()
    ensures
        is_lump_name(PALETTE_LUMP@),
        is_lump_name(PRIMARY_TITLE@),
        is_lump_name(LEGACY_TITLE@),
        is_lump_name(LEGACY_TITLE_ALIAS@),
        PRIMARY_TITLE@ != LEGACY_TITLE@,
        PRIMARY_TITLE@ != LEGACY_TITLE_ALIAS@,
        LEGACY_TITLE@ != LEGACY_TITLE_ALIAS@,
{
    reveal_strlit("PLAYPAL");
    reveal_strlit("TITLEPIC");
    reveal_strlit("TITLE");
    reveal_strlit("HTITLE");
}

/// Takes the palette out of a palette lump.
pub fn palette_from_lump(lump: &[u8]) -> (palette: Option<Vec<u8>>)
    ensures
        option_bytes(palette) == palette_of(lump@),
        palette matches Some(bytes) ==> bytes@.len() == PALETTE_BYTES,
{
    if lump.len() < PALETTE_BYTES {
        None
    } else {
        Some(slice_to_vec(slice_subrange(lump, 0, PALETTE_BYTES)))
    }
}

/// Finds the palette: in the override archive `wad` if it has a palette
/// lump, else in the base archive `iwad`.
///
/// An archive that is absent, that does not parse or that has no palette lump
/// is passed over. The first palette lump found decides: its first 768 bytes
/// are the palette, and if it is shorter there is no palette.
pub fn load_playpal_lump(iwad: Option<&[u8]>, wad: Option<&[u8]>) -> (palette: Option<Vec<u8>>)
    ensures
        option_bytes(palette) == playpal(slice_bytes(iwad), slice_bytes(wad)),
        palette matches Some(bytes) ==> bytes@.len() == PALETTE_BYTES,
{
    proof {
        lemma_lump_names();
    }
    if let Some(file) = wad {
        if let Some(lump) = read_lump(file, PALETTE_LUMP) {
            return palette_from_lump(lump.as_slice());
        }
    }
    if let Some(file) = iwad {
        if let Some(lump) = read_lump(file, PALETTE_LUMP) {
            return palette_from_lump(lump.as_slice());
        }
    }
    None
}

/// Picks the title lump among the three that an archive may hold, and tags
/// it with the name it was found under.
pub fn pick_title_lump(
    titlepic: Option<Vec<u8>>,
    title: Option<Vec<u8>>,
    htitle: Option<Vec<u8>>,
) -> (found: Option<(String, Vec<u8>)>)
    ensures
        title_view(found) == first_title(
            option_bytes(titlepic),
            option_bytes(title),
            option_bytes(htitle),
        ),
{
    if let Some(data) = titlepic {
        Some((PRIMARY_TITLE.to_owned(), data))
    } else if let Some(data) = title {
        Some((LEGACY_TITLE.to_owned(), data))
    } else if let Some(data) = htitle {
        Some((LEGACY_TITLE_ALIAS.to_owned(), data))
    } else {
        None
    }
}

/// Finds the title lump of one archive file.
pub fn title_lump_in(file: &[u8]) -> (found: Option<(String, Vec<u8>)>)
    ensures
        title_view(found) == title_in(file@),
{
    proof {
        lemma_lump_names();
    }
    match parse_archive(file) {
        Ok(archive) => {
            let titlepic = lump_by_name(&archive, PRIMARY_TITLE);
            let title = lump_by_name(&archive, LEGACY_TITLE);
            let htitle = lump_by_name(&archive, LEGACY_TITLE_ALIAS);
            pick_title_lump(titlepic, title, htitle)
        },
        Err(_) => None,
    }
}

/// Finds the title lump: in the override archive `wad` if it has one under
/// any of the three names, else in the base archive `iwad`. The name that the
/// lump was found under comes with it, since it decides how to decode.
pub fn load_titlepic_lump(iwad: Option<&[u8]>, wad: Option<&[u8]>) -> (found: Option<
    (String, Vec<u8>),
>)
    ensures
        title_view(found) == title_lump(slice_bytes(iwad), slice_bytes(wad)),
{
    if let Some(file) = wad {
        let found = title_lump_in(file);
        if found.is_some() {
            return found;
        }
    }
    if let Some(file) = iwad {
        return title_lump_in(file);
    }
    None
}

/// The override archive wins: whatever title lump it holds is the one
/// found, under whichever of the three names it holds it, and whatever the
/// base archive holds.
pub proof fn lemma_override_title_wins(iwad: Option<Seq<u8>>, wad: Seq<u8>)
    requires
        title_in(wad) is Some,
    ensures
        title_lump(iwad, Some(wad)) == title_in(wad),
{
}

/// An override archive that holds a title lump under a legacy name only
/// wins over a base archive that holds one under the primary name.
pub proof fn lemma_override_legacy_beats_base_primary(iwad: Seq<u8>, wad: Seq<u8>)
    requires
        archive_lump(wad, PRIMARY_TITLE@) is None,
        archive_lump(wad, LEGACY_TITLE@) is Some || archive_lump(wad, LEGACY_TITLE_ALIAS@) is Some,
        archive_lump(iwad, PRIMARY_TITLE@) is Some,
    ensures
        title_lump(Some(iwad), Some(wad)) == title_in(wad),
        title_lump(Some(iwad), Some(wad)) matches Some((name, data)) && (name == LEGACY_TITLE@
            || name == LEGACY_TITLE_ALIAS@),
{
}

/// Within one archive the primary name wins over the legacy names.
pub proof fn lemma_primary_name_wins(file: Seq<u8>)
    requires
        archive_lump(file, PRIMARY_TITLE@) is Some,
    ensures
        title_in(file) == Some((PRIMARY_TITLE@, archive_lump(file, PRIMARY_TITLE@)->Some_0)),
{
}

/// Without a palette lump in either archive there is no palette.
pub proof fn lemma_no_palette_lump(iwad: Option<Seq<u8>>, wad: Option<Seq<u8>>)
    requires
        lump_in(iwad, PALETTE_LUMP@) is None,
        lump_in(wad, PALETTE_LUMP@) is None,
    ensures
        playpal(iwad, wad) is None,
{
}

} // verus!
