//! Comparing text, as the rest of the library needs it.

use vstd::prelude::*;

verus! {

/// The characters of an optional piece of text.
pub open spec fn option_chars(text: Option<&str>) -> Option<Seq<char>> {
    match text {
        Some(chars) => Some(chars@),
        None => None,
    }
}

/// The characters of an optional string.
pub open spec fn string_chars(text: Option<String>) -> Option<Seq<char>> {
    match text {
        Some(chars) => Some(chars@),
        None => None,
    }
}

/// Whether two pieces of text are the same.
pub fn same_text(a: &str, b: &str) -> (same: bool)
    ensures
        same == (a@ == b@),
{
    a.to_owned() == b.to_owned()
}

/// Whether two optional pieces of text are the same: both absent, or both
/// present and equal.
pub fn same_option_text(a: Option<&str>, b: Option<&str>) -> (same: bool)
    ensures
        same == (option_chars(a) == option_chars(b)),
{
    match (a, b) {
        (Some(x), Some(y)) => same_text(x, y),
        (None, None) => true,
        _ => false,
    }
}

} // verus!
