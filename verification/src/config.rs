//! What the launcher remembers of each tab.

use vstd::prelude::*;

verus! {

/// One tab of the launcher: a game engine, a base archive, and the input
/// files that are loaded on top of it, in load order.
#[derive(Debug, Clone)]
pub struct TabConfig {
    pub engine_path: Option<String>,
    pub iwad_path: Option<String>,
    pub input_paths: Vec<String>,
    pub last_input_dir: Option<String>,
}

impl Default for TabConfig {
    /// A new tab: nothing chosen yet.
    fn default() -> (tab: Self)
        ensures
            tab.engine_path is None,
            tab.iwad_path is None,
            tab.input_paths@.len() == 0,
            tab.last_input_dir is None,
    {
        TabConfig {
            engine_path: None,
            iwad_path: None,
            input_paths: Vec::new(),
            last_input_dir: None,
        }
    }
}

/// How tab titles are chosen: long ones while they fit, or always one kind.
#[derive(Debug, Clone, Copy, PartialEq, Eq, Structural)]
pub enum TitleMode {
    Adaptive,
    Short,
    Long,
}

impl Default for TitleMode {
    /// Titles adapt to the room there is unless the user says otherwise.
    fn default() -> (mode: Self)
        ensures
            mode == TitleMode::Adaptive,
    {
        TitleMode::Adaptive
    }
}

} // verus!
