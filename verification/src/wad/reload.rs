//! When the title picture on show is out of date.

use crate::text::option_chars;
use crate::text::same_option_text;
use vstd::prelude::*;

verus! {

/// Whether the title picture has to be loaded anew.
///
/// It has to whenever the base archive or the override archive chosen now is
/// not the one that the picture on show was loaded from, and whenever no
/// picture is on show. There is no exception: where the last archive was
/// taken away, loading anew is what clears the picture of it. Nothing is kept
/// from one load to the next but these two paths.
pub open spec fn needs_reload(
    last_iwad: Option<Seq<char>>,
    last_wad: Option<Seq<char>>,
    iwad: Option<Seq<char>>,
    wad: Option<Seq<char>>,
    has_picture: bool,
) -> bool {
    last_iwad != iwad || last_wad != wad || !has_picture
}

/// Decides whether the title picture has to be loaded anew, from the paths
/// that the picture on show was loaded from and the paths chosen now.
pub fn titlepic_needs_reload(
    last_iwad: Option<&str>,
    last_wad: Option<&str>,
    iwad: Option<&str>,
    wad: Option<&str>,
    has_picture: bool,
) -> (reload: bool)
    ensures
        reload == needs_reload(
            option_chars(last_iwad),
            option_chars(last_wad),
            option_chars(iwad),
            option_chars(wad),
            has_picture,
        ),
{
    !same_option_text(last_iwad, iwad) || !same_option_text(last_wad, wad) || !has_picture
}

/// Once a picture is on show for the paths chosen, nothing is loaded again
/// until a path changes.
pub proof fn lemma_loaded_picture_is_kept(iwad: Option<Seq<char>>, wad: Option<Seq<char>>)
    ensures
        !needs_reload(iwad, wad, iwad, wad, true),
{
}

/// A picture on show is kept exactly as long as both paths stay.
pub proof fn lemma_picture_follows_paths(
    last_iwad: Option<Seq<char>>,
    last_wad: Option<Seq<char>>,
    iwad: Option<Seq<char>>,
    wad: Option<Seq<char>>,
)
    ensures
        needs_reload(last_iwad, last_wad, iwad, wad, true) <==> !(last_iwad == iwad && last_wad
            == wad),
{
}

/// While no picture is on show, every look loads anew, whatever the paths.
pub proof fn lemma_no_picture_is_loaded_for(
    last_iwad: Option<Seq<char>>,
    last_wad: Option<Seq<char>>,
    iwad: Option<Seq<char>>,
    wad: Option<Seq<char>>,
)
    ensures
        needs_reload(last_iwad, last_wad, iwad, wad, false),
{
}

} // verus!
