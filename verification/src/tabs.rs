//! Edits of the tab list, and which tab is selected after them.
//!
//! A selection is an index into the tab list, or the length of the list for
//! the settings page, which stands after the last tab.

use crate::config::TabConfig;
use vstd::prelude::*;

verus! {

/// The selection after tab `closed` of `old_len` tabs was closed.
///
/// The settings page stays selected. A tab that was selected and stays open
/// stays selected. Where the selected tab itself was closed, the tab that
/// moved into its place is selected, or the last tab where none did.
pub open spec fn selection_after_close(selected: int, closed: int, old_len: int) -> int {
    let new_len = old_len - 1;
    if selected == old_len {
        new_len
    } else if selected == closed {
        if closed < new_len {
            closed
        } else if new_len >= 1 {
            new_len - 1
        } else {
            0
        }
    } else if closed < selected {
        selected - 1
    } else {
        selected
    }
}

/// Closes tab `index` and returns the selection that replaces `selected`.
pub fn close_tab(tabs: &mut Vec<TabConfig>, selected: usize, index: usize) -> (now_selected: usize)
    requires
        index < old(tabs)@.len(),
    ensures
        final(tabs)@ == old(tabs)@.remove(index as int),
        now_selected == selection_after_close(
            selected as int,
            index as int,
            old(tabs)@.len() as int,
        ),
        selected <= old(tabs)@.len() ==> now_selected <= final(tabs)@.len(),
        selected < old(tabs)@.len() && selected != index ==> {
            &&& now_selected < final(tabs)@.len()
            &&& final(tabs)@[now_selected as int] == old(tabs)@[selected as int]
        },
        selected == old(tabs)@.len() ==> now_selected == final(tabs)@.len(),
{
    let old_len: usize = tabs.len();
    tabs.remove(index);
    let new_len: usize = tabs.len();
    if selected == old_len {
        new_len
    } else if selected == index {
        if index >= new_len {
            new_len.saturating_sub(1)
        } else {
            index
        }
    } else if index < selected {
        selected.saturating_sub(1)
    } else {
        selected
    }
}

/// Opens a new, empty tab after the others and returns its index, which is
/// the new selection.
pub fn open_tab(tabs: &mut Vec<TabConfig>) -> (now_selected: usize)
    ensures
        final(tabs)@.len() == old(tabs)@.len() + 1,
        final(tabs)@.subrange(0, old(tabs)@.len() as int) == old(tabs)@,
        is_new_tab(final(tabs)@[old(tabs)@.len() as int]),
        final(tabs)@[old(tabs)@.len() as int].last_input_dir is None,
        now_selected == old(tabs)@.len(),
{
    tabs.push(TabConfig::default());
    tabs.len().saturating_sub(1)
}

/// Whether nothing was chosen in a tab yet.
pub open spec fn is_new_tab(tab: TabConfig) -> bool {
    tab.engine_path is None && tab.iwad_path is None && tab.input_paths@.len() == 0
}

} // verus!
