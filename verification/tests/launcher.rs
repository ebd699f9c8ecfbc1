use wadlauncher::colors::hue_for_seed;
use wadlauncher::config::{TabConfig, TitleMode};
use wadlauncher::inputs::{move_input_down, move_input_up, remove_inputs};
use wadlauncher::launch::build_cmd;
use wadlauncher::tabs::{close_tab, open_tab};
use wadlauncher::text::{same_option_text, same_text};
use wadlauncher::titles::{
    build_long_titles, build_short_titles, long_title, sanitize_tab_name_part, short_title,
    stem_or_path, use_short_titles,
};
use wadlauncher::wad::reload::titlepic_needs_reload;

fn tab(engine: Option<&str>, iwad: Option<&str>, inputs: &[&str]) -> TabConfig {
    TabConfig {
        engine_path: engine.map(|path| path.to_string()),
        iwad_path: iwad.map(|path| path.to_string()),
        input_paths: inputs.iter().map(|path| path.to_string()).collect(),
        last_input_dir: None,
    }
}

fn engines(tabs: &[TabConfig]) -> Vec<Option<String>> {
    tabs.iter().map(|tab| tab.engine_path.clone()).collect()
}

fn three_tabs() -> Vec<TabConfig> {
    vec![tab(Some("a"), None, &[]), tab(Some("b"), None, &[]), tab(Some("c"), None, &[])]
}

#[test]
fn a_new_tab_is_empty() {
    let tab = TabConfig::default();
    assert_eq!(tab.engine_path, None);
    assert_eq!(tab.iwad_path, None);
    assert!(tab.input_paths.is_empty());
    assert_eq!(tab.last_input_dir, None);
}

#[test]
fn titles_adapt_by_default() {
    assert_eq!(TitleMode::default(), TitleMode::Adaptive);
    assert_ne!(TitleMode::Short, TitleMode::Long);
}

#[test]
fn text_is_compared_by_its_characters() {
    assert!(same_text("TITLE", "TITLE"));
    assert!(!same_text("TITLE", "HTITLE"));
    assert!(!same_text("TITLE", "title"));
    assert!(same_text("", ""));
    assert!(same_option_text(None, None));
    assert!(same_option_text(Some("a"), Some("a")));
    assert!(!same_option_text(Some("a"), None));
    assert!(!same_option_text(None, Some("a")));
    assert!(!same_option_text(Some("a"), Some("b")));
}

#[test]
fn closing_a_tab_before_the_selected_one_moves_the_selection() {
    let mut tabs = three_tabs();
    assert_eq!(close_tab(&mut tabs, 2, 0), 1);
    assert_eq!(engines(&tabs), vec![Some("b".to_string()), Some("c".to_string())]);
}

#[test]
fn closing_a_tab_after_the_selected_one_keeps_the_selection() {
    let mut tabs = three_tabs();
    assert_eq!(close_tab(&mut tabs, 0, 2), 0);
    assert_eq!(engines(&tabs), vec![Some("a".to_string()), Some("b".to_string())]);
}

#[test]
fn closing_the_selected_tab_selects_its_successor() {
    let mut tabs = three_tabs();
    assert_eq!(close_tab(&mut tabs, 1, 1), 1);
    assert_eq!(engines(&tabs), vec![Some("a".to_string()), Some("c".to_string())]);
}

#[test]
fn closing_the_selected_last_tab_selects_the_new_last_tab() {
    let mut tabs = three_tabs();
    assert_eq!(close_tab(&mut tabs, 2, 2), 1);
    let mut one = vec![TabConfig::default()];
    assert_eq!(close_tab(&mut one, 0, 0), 0);
    assert!(one.is_empty());
}

#[test]
fn closing_a_tab_keeps_the_settings_page_selected() {
    let mut tabs = three_tabs();
    assert_eq!(close_tab(&mut tabs, 3, 1), 2);
    assert_eq!(tabs.len(), 2);
}

#[test]
fn opening_a_tab_selects_it() {
    let mut tabs = three_tabs();
    assert_eq!(open_tab(&mut tabs), 3);
    assert_eq!(tabs.len(), 4);
    assert_eq!(tabs[3].engine_path, None);
    assert_eq!(tabs[0].engine_path, Some("a".to_string()));
    let mut none: Vec<TabConfig> = Vec::new();
    assert_eq!(open_tab(&mut none), 0);
}

#[test]
fn command_line_names_engine_archive_and_inputs() {
    let tab = tab(Some("/bin/engine"), Some("/wads/doom2.wad"), &["a.wad", "b.deh"]);
    let expected: Vec<String> = ["/bin/engine", "-iwad", "/wads/doom2.wad", "-file", "a.wad", "b.deh"]
        .iter()
        .map(|word| word.to_string())
        .collect();
    assert_eq!(build_cmd(&tab), Some(expected));
}

#[test]
fn command_line_keeps_the_file_flag_without_inputs() {
    let tab = tab(Some("engine"), Some("doom.wad"), &[]);
    let expected: Vec<String> =
        ["engine", "-iwad", "doom.wad", "-file"].iter().map(|word| word.to_string()).collect();
    assert_eq!(build_cmd(&tab), Some(expected));
}

#[test]
fn command_line_needs_engine_and_archive() {
    assert_eq!(build_cmd(&tab(None, Some("doom.wad"), &["a.wad"])), None);
    assert_eq!(build_cmd(&tab(Some("engine"), None, &["a.wad"])), None);
    assert_eq!(build_cmd(&TabConfig::default()), None);
}

#[test]
fn picture_is_loaded_when_a_path_changes() {
    assert!(titlepic_needs_reload(Some("a"), None, Some("b"), None, true));
    assert!(titlepic_needs_reload(Some("a"), None, Some("a"), Some("m"), true));
    assert!(titlepic_needs_reload(Some("a"), Some("m"), Some("a"), None, true));
    assert!(titlepic_needs_reload(None, Some("m"), Some("a"), Some("m"), true));
}

#[test]
fn picture_is_loaded_when_none_is_on_show() {
    assert!(titlepic_needs_reload(Some("a"), Some("m"), Some("a"), Some("m"), false));
    assert!(titlepic_needs_reload(None, None, Some("a"), None, false));
}

#[test]
fn picture_is_kept_while_the_paths_stay() {
    assert!(!titlepic_needs_reload(Some("a"), Some("m"), Some("a"), Some("m"), true));
    assert!(!titlepic_needs_reload(None, Some("m"), None, Some("m"), true));
}

#[test]
fn picture_is_loaded_anew_when_the_last_archive_is_taken_away() {
    assert!(titlepic_needs_reload(Some("a"), None, None, None, true));
    assert!(titlepic_needs_reload(Some("a"), Some("m"), None, None, true));
    assert!(titlepic_needs_reload(None, Some("m"), None, None, true));
}

#[test]
fn picture_is_looked_for_while_none_is_on_show_and_none_is_chosen() {
    assert!(titlepic_needs_reload(None, None, None, None, false));
    assert!(!titlepic_needs_reload(None, None, None, None, true));
}

#[test]
fn hue_of_a_seed_is_exact() {
    assert_eq!(hue_for_seed(0), 248);
    assert_eq!(hue_for_seed(1), 173);
    assert_eq!(hue_for_seed(42), 114);
    assert_eq!(hue_for_seed(u64::MAX), 339);
    assert_eq!(hue_for_seed(0x6000_0000_0000_0000), 336);
    assert_eq!(hue_for_seed(123456789), 137);
}

#[test]
fn hue_stays_on_the_colour_wheel() {
    for seed in 0..2000u64 {
        assert!(hue_for_seed(seed.wrapping_mul(0x0123_4567_89ab_cdef)) < 360);
    }
}

#[test]
fn name_part_is_put_in_upper_case() {
    assert_eq!(sanitize_tab_name_part("doom2"), "DOOM2");
    assert_eq!(sanitize_tab_name_part("Sunlust"), "SUNLUST");
    assert_eq!(sanitize_tab_name_part(""), "");
}

#[test]
fn name_part_has_the_engine_name_cut_down() {
    assert_eq!(sanitize_tab_name_part("dsda-doom"), "DSDA");
    assert_eq!(sanitize_tab_name_part("DSDA-Doom-0.27"), "DSDA-0.27");
}

#[test]
fn name_part_has_platform_names_taken_out() {
    assert_eq!(sanitize_tab_name_part("gzdoom-linux"), "GZDOOM");
    assert_eq!(sanitize_tab_name_part("DSDA-Doom-0.27-win64"), "DSDA-0.27-64");
    assert_eq!(sanitize_tab_name_part("Windows"), "");
    assert_eq!(sanitize_tab_name_part("macos_build"), "BUILD");
    assert_eq!(sanitize_tab_name_part("machine"), "HINE");
    assert_eq!(sanitize_tab_name_part("win-win"), "");
}

#[test]
fn name_part_has_its_ends_cleaned() {
    assert_eq!(sanitize_tab_name_part("  my_map.  "), "MY_MAP");
    assert_eq!(sanitize_tab_name_part("--a.b--"), "A.B");
    assert_eq!(sanitize_tab_name_part("._- "), "");
}

#[test]
fn long_title_joins_the_parts_that_are_there() {
    assert_eq!(long_title(Some("dsda-doom"), Some("DOOM2"), Some("sunlust")), "DSDA : DOOM2 : SUNLUST");
    assert_eq!(long_title(None, Some("doom"), None), "DOOM");
    assert_eq!(long_title(Some("gzdoom"), None, Some("map")), "GZDOOM : MAP");
    assert_eq!(long_title(None, None, Some("map")), "MAP");
}

#[test]
fn long_title_puts_no_separator_before_its_first_part() {
    assert_eq!(long_title(Some("windows"), Some("doom2"), None), "DOOM2");
    assert_eq!(long_title(Some("doom"), Some("linux"), Some("map")), "DOOM :  : MAP");
}

#[test]
fn long_title_of_a_new_tab() {
    assert_eq!(long_title(None, None, None), "New Tab");
}

#[test]
fn short_title_is_the_first_input() {
    assert_eq!(short_title(Some("sunlust")), "SUNLUST");
    assert_eq!(short_title(None), "New Tab");
}

#[test]
fn titles_of_all_tabs_are_built_from_file_names() {
    let tabs = vec![
        tab(Some("/usr/bin/dsda-doom"), Some("/games/DOOM2.WAD"), &["/maps/sunlust.wad", "x.deh"]),
        TabConfig::default(),
        tab(None, Some("/games/heretic.wad"), &[]),
    ];
    assert_eq!(build_long_titles(&tabs), vec!["DSDA : DOOM2 : SUNLUST", "New Tab", "HERETIC"]);
    assert_eq!(build_short_titles(&tabs), vec!["SUNLUST", "New Tab", "New Tab"]);
    let none: Vec<TabConfig> = Vec::new();
    assert!(build_long_titles(&none).is_empty());
    assert!(build_short_titles(&none).is_empty());
}

fn paths(names: &[&str]) -> Vec<String> {
    names.iter().map(|name| name.to_string()).collect()
}

#[test]
fn inputs_are_removed_by_index() {
    let mut list = paths(&["a", "b", "c", "d"]);
    assert!(remove_inputs(&mut list, vec![1]));
    assert_eq!(list, paths(&["a", "c", "d"]));
    let mut list = paths(&["a", "b", "c", "d"]);
    assert!(remove_inputs(&mut list, vec![0, 3]));
    assert_eq!(list, paths(&["b", "c"]));
}

#[test]
fn inputs_are_removed_whatever_the_order_of_the_indexes() {
    let mut list = paths(&["a", "b", "c"]);
    assert!(remove_inputs(&mut list, vec![2, 0]));
    assert_eq!(list, paths(&["b"]));
    let mut list = paths(&["a", "b", "c", "d", "e"]);
    assert!(remove_inputs(&mut list, vec![3, 1, 4, 0]));
    assert_eq!(list, paths(&["c"]));
}

#[test]
fn inputs_stay_when_no_index_is_given() {
    let mut list = paths(&["a", "b"]);
    assert!(!remove_inputs(&mut list, vec![]));
    assert_eq!(list, paths(&["a", "b"]));
    let mut none: Vec<String> = Vec::new();
    assert!(!remove_inputs(&mut none, vec![]));
    assert!(none.is_empty());
}

#[test]
fn inputs_can_all_be_removed() {
    let mut list = paths(&["a", "b", "c"]);
    assert!(remove_inputs(&mut list, vec![1, 2, 0]));
    assert!(list.is_empty());
}

#[test]
fn short_titles_are_shown_by_mode() {
    assert!(use_short_titles(TitleMode::Short, false));
    assert!(use_short_titles(TitleMode::Short, true));
    assert!(!use_short_titles(TitleMode::Long, false));
    assert!(!use_short_titles(TitleMode::Long, true));
    assert!(use_short_titles(TitleMode::Adaptive, true));
    assert!(!use_short_titles(TitleMode::Adaptive, false));
}

#[test]
fn an_input_moves_up_past_its_neighbour() {
    let mut list = paths(&["a", "b", "c"]);
    move_input_up(&mut list, 1);
    assert_eq!(list, paths(&["b", "a", "c"]));
    move_input_up(&mut list, 2);
    assert_eq!(list, paths(&["b", "c", "a"]));
}

#[test]
fn an_input_moves_down_past_its_neighbour() {
    let mut list = paths(&["a", "b", "c"]);
    move_input_down(&mut list, 0);
    assert_eq!(list, paths(&["b", "a", "c"]));
    move_input_down(&mut list, 1);
    assert_eq!(list, paths(&["b", "c", "a"]));
}

#[test]
fn moving_an_input_up_and_down_leaves_the_list() {
    let mut list = paths(&["a", "b", "c", "d"]);
    move_input_up(&mut list, 2);
    move_input_down(&mut list, 1);
    assert_eq!(list, paths(&["a", "b", "c", "d"]));
}

#[test]
fn a_path_is_named_by_its_file_stem() {
    assert_eq!(stem_or_path("/maps/sunlust.wad"), "sunlust");
    assert_eq!(stem_or_path("doom2"), "doom2");
    assert_eq!(stem_or_path("a.tar.gz"), "a.tar");
    assert_eq!(stem_or_path(".hidden"), ".hidden");
    assert_eq!(stem_or_path("dir/"), "dir");
}

#[test]
fn a_path_without_a_file_name_is_named_by_itself() {
    assert_eq!(stem_or_path("/"), "/");
    assert_eq!(stem_or_path(".."), "..");
    assert_eq!(stem_or_path(""), "");
}

#[test]
fn titles_of_paths_without_a_file_name_are_built_from_the_paths() {
    let tabs = vec![tab(Some("/"), None, &[".."]), tab(None, None, &["/"])];
    assert_eq!(build_long_titles(&tabs), vec!["/ : ", "/"]);
    assert_eq!(build_short_titles(&tabs), vec!["", "/"]);
}
