//! Lump resolution and picture decoding.

pub mod archive;
pub mod bytes;
pub mod header;
pub mod lumps;
pub mod patch;
pub mod posts;
pub mod raster;
pub mod raw;
pub mod reload;
pub mod title;

pub use header::get_titlepic_dimensions;
pub use lumps::load_playpal_lump;
pub use lumps::load_titlepic_lump;
pub use patch::decode_titlepic;
pub use raw::decode_htitle;
pub use title::decode_title;
pub use title::load_titlepic;
