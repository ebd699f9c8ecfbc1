//! Views of optional byte buffers, as the contracts speak of them.

use vstd::prelude::*;

verus! {

/// The bytes of an optional owned buffer.
pub open spec fn option_bytes(buffer: Option<Vec<u8>>) -> Option<Seq<u8>> {
    match buffer {
        Some(bytes) => Some(bytes@),
        None => None,
    }
}

/// The bytes of an optional borrowed buffer.
pub open spec fn slice_bytes(buffer: Option<&[u8]>) -> Option<Seq<u8>> {
    match buffer {
        Some(bytes) => Some(bytes@),
        None => None,
    }
}

} // verus!
