//! The logic of a launcher for WAD-based games.
//!
//! Its heart is `wad`: given the bytes of a base archive and of an optional
//! override archive, it finds the colour palette and the title picture, and
//! decodes the picture into an RGBA bitmap. The other modules decide what
//! the launcher shows around that picture: the tabs and their titles, the
//! input files of a tab, the command line that starts a game, and the colour
//! that a path is shown in.

pub mod colors;
pub mod config;
pub mod inputs;
pub mod launch;
pub mod tabs;
pub mod text;
pub mod titles;
pub mod wad;
