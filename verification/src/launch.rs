//! The command line that starts a game.

use crate::config::TabConfig;
use vstd::prelude::*;

verus! {

/// The flag that is followed by the base archive.
pub const IWAD_FLAG: &'static str = "-iwad";

/// The flag that is followed by the input files.
pub const FILE_FLAG: &'static str = "-file";

/// The characters of each of a list of strings.
pub open spec fn words_view(words: Seq<String>) -> Seq<Seq<char>> {
    Seq::new(words.len(), |i: int| words[i]@)
}

/// The words of the command line of a tab: the engine, the base archive
/// behind its flag, and the input files behind theirs, in load order. There
/// is no command line until both an engine and a base archive are chosen.
pub open spec fn command_words(tab: TabConfig) -> Option<Seq<Seq<char>>> {
    match (tab.engine_path, tab.iwad_path) {
        (Some(engine), Some(iwad)) => Some(
            seq![engine@, IWAD_FLAG@, iwad@, FILE_FLAG@] + words_view(tab.input_paths@),
        ),
        _ => None,
    }
}

/// Builds the command line of a tab: the program first, then its arguments.
pub fn build_cmd(tab: &TabConfig) -> (line: Option<Vec<String>>)
    ensures
        match line {
            Some(words) => command_words(*tab) == Some(words_view(words@)),
            None => command_words(*tab) is None,
        },
{
    let engine = match &tab.engine_path {
        Some(engine) => engine,
        None => { return None; },
    };
    let iwad = match &tab.iwad_path {
        Some(iwad) => iwad,
        None => { return None; },
    };
    let mut words: Vec<String> = Vec::new();
    words.push(engine.clone());
    words.push(IWAD_FLAG.to_owned());
    words.push(iwad.clone());
    words.push(FILE_FLAG.to_owned());
    let ghost head = seq![engine@, IWAD_FLAG@, iwad@, FILE_FLAG@];
    let count: usize = tab.input_paths.len();
    for i in 0..count
        invariant
            count == tab.input_paths@.len(),
            words@.len() == 4 + i,
            forall|j: int| 0 <= j < 4 ==> (#[trigger] words@[j])@ == head[j],
            forall|j: int| 0 <= j < i ==> (#[trigger] words@[4 + j])@ == tab.input_paths@[j]@,
    {
        words.push(tab.input_paths[i].clone());
    }
    proof {
        let tail = words_view(tab.input_paths@);
        assert forall|j: int| 0 <= j < words@.len() implies words_view(words@)[j] == (head
            + tail)[j] by {
            if j >= 4 {
                assert(words@[4 + (j - 4)]@ == tab.input_paths@[j - 4]@);
            }
        }
        assert(words_view(words@) =~= head + tail);
    }
    Some(words)
}

} // verus!
