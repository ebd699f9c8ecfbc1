//! Titles of the tabs: made from the names of the files chosen in a tab,
//! tidied up with the `regex` crate.

use crate::config::TabConfig;
use crate::config::TitleMode;
use crate::tabs::is_new_tab;
use crate::text::option_chars;
use crate::text::string_chars;
use vstd::prelude::*;
use vstd::string::StringExecFns;

verus! {

/// Title of a tab in which nothing was chosen yet.
pub const NEW_TAB_TITLE: &'static str = "New Tab";

/// Stands between the parts of a long title.
pub const TITLE_SEPARATOR: &'static str = " : ";

/// The name of one engine, which is cut down to `ENGINE_SHORT_NAME`.
pub const ENGINE_PATTERN: &'static str = "dsda-doom";

/// What `ENGINE_PATTERN` is cut down to.
pub const ENGINE_SHORT_NAME: &'static str = "dsda";

/// Names of platforms, which say nothing about a game and are taken out.
pub const PLATFORM_PATTERN: &'static str = "(?i)(linux|windows|win|macos|mac)";

/// Blanks, dots, underscores and hyphens at either end of a name.
pub const EDGE_PATTERN: &'static str = "^[\\s._-]+|[\\s._-]+$";

/// What the `regex` crate makes of `text` when every match of `pattern` is
/// replaced by `replacement`; nothing where `pattern` is no regular
/// expression.
pub uninterp spec fn regex_replaced(
    pattern: Seq<char>,
    case_insensitive: bool,
    text: Seq<char>,
    replacement: Seq<char>,
) -> Option<Seq<char>>;

/// `text` in upper case, as `str::to_uppercase` gives it.
pub uninterp spec fn upper_cased(text: Seq<char>) -> Seq<char>;

/// `text` without the white space at its ends, as `str::trim` gives it.
pub uninterp spec fn trimmed(text: Seq<char>) -> Seq<char>;

/// Compiles `pattern` with `regex::RegexBuilder` and replaces every match in
/// `text` with `regex::Regex::replace_all`.
///
/// Not proved: that the outcome depends on the four arguments alone, which is
/// all the contract says.
#[verifier::external_body]
fn regex_replace_all(pattern: &str, case_insensitive: bool, text: &str, replacement: &str) -> (out:
    Option<String>)
    ensures
        string_chars(out) == regex_replaced(pattern@, case_insensitive, text@, replacement@),
{
    let regex = ::regex::RegexBuilder::new(pattern).case_insensitive(case_insensitive).build().ok()?;
    Some(regex.replace_all(text, replacement).into_owned())
}

/// Calls `str::to_uppercase`.
#[verifier::external_body]
fn to_upper_case(text: &str) -> (out: String)
    ensures
        out@ == upper_cased(text@),
{
    text.to_uppercase()
}

/// Calls `str::trim`.
#[verifier::external_body]
fn trim<'a>(text: &'a str) -> (out: &'a str)
    ensures
        out@ == trimmed(text@),
{
    text.trim()
}

/// Whether `name` is a part of `path`: some of its characters, one after
/// the other.
pub open spec fn is_part_of(name: Seq<char>, path: Seq<char>) -> bool {
    exists|i: int, j: int| 0 <= i <= j <= path.len() && name == #[trigger] path.subrange(i, j)
}

/// Calls `Path::file_stem`: the name of the file that `path` leads to,
/// without its extension, if the path has such a name.
///
/// Not proved: that the stem is a part of the path. Which part it is depends
/// on what the platform takes for a separator, so no more is said of it.
#[verifier::external_body]
fn file_stem(path: &str) -> (stem: Option<String>)
    ensures
        stem matches Some(name) ==> is_part_of(name@, path@),
{
    std::path::Path::new(path).file_stem().and_then(|stem| stem.to_str()).map(|stem| stem.to_owned())
}

/// `text` with every match of `pattern` replaced, or as it is where `pattern`
/// is no regular expression.
pub open spec fn replaced_or_kept(
    pattern: Seq<char>,
    case_insensitive: bool,
    text: Seq<char>,
    replacement: Seq<char>,
) -> Seq<char> {
    match regex_replaced(pattern, case_insensitive, text, replacement) {
        Some(replaced) => replaced,
        None => text,
    }
}

/// A file name as it appears in a tab title: the engine name cut down, the
/// platform names taken out, the ends cleaned, all in upper case.
pub open spec fn sanitized(name: Seq<char>) -> Seq<char> {
    let short = replaced_or_kept(ENGINE_PATTERN@, true, name, ENGINE_SHORT_NAME@);
    let bare = replaced_or_kept(PLATFORM_PATTERN@, true, short, Seq::empty());
    let clean = replaced_or_kept(EDGE_PATTERN@, false, bare, Seq::empty());
    trimmed(upper_cased(clean))
}

/// A title with one more part behind it, if there is one: the first part
/// stands alone, every further one behind a separator.
pub open spec fn with_part(title: Seq<char>, part: Option<Seq<char>>) -> Seq<char> {
    match part {
        Some(name) => if title.len() == 0 {
            sanitized(name)
        } else {
            title + TITLE_SEPARATOR@ + sanitized(name)
        },
        None => title,
    }
}

/// The long title of a tab, from the file names of its engine, its base
/// archive and its first input file.
pub open spec fn long_title_of(
    engine: Option<Seq<char>>,
    iwad: Option<Seq<char>>,
    wad: Option<Seq<char>>,
) -> Seq<char> {
    if engine is None && iwad is None && wad is None {
        NEW_TAB_TITLE@
    } else {
        with_part(with_part(with_part(Seq::empty(), engine), iwad), wad)
    }
}

/// The short title of a tab, from the file name of its first input file.
pub open spec fn short_title_of(wad: Option<Seq<char>>) -> Seq<char> {
    match wad {
        Some(name) => sanitized(name),
        None => NEW_TAB_TITLE@,
    }
}

/// `name`, if a path is chosen.
pub open spec fn name_if_chosen(path: Option<Seq<char>>, name: Seq<char>) -> Option<Seq<char>> {
    if path is Some {
        Some(name)
    } else {
        None
    }
}

/// Whether `name` can stand for `path` in a title: it is a part of the path.
/// Where no path is chosen no name is used, and any will do.
pub open spec fn stands_for(name: Seq<char>, path: Option<Seq<char>>) -> bool {
    path matches Some(chosen) ==> is_part_of(name, chosen)
}

/// The first input file of a tab, if it has one.
pub open spec fn first_input(tab: TabConfig) -> Option<Seq<char>> {
    if tab.input_paths@.len() > 0 {
        Some(tab.input_paths@[0]@)
    } else {
        None
    }
}

/// Whether `title` is the long title of `tab`: the long title of three
/// names, each a part of the path that it stands for.
pub open spec fn is_long_title(tab: TabConfig, title: Seq<char>) -> bool {
    exists|engine: Seq<char>, iwad: Seq<char>, wad: Seq<char>|
        #![trigger long_title_of(
            name_if_chosen(string_chars(tab.engine_path), engine),
            name_if_chosen(string_chars(tab.iwad_path), iwad),
            name_if_chosen(first_input(tab), wad),
        )]
        {
            &&& stands_for(engine, string_chars(tab.engine_path))
            &&& stands_for(iwad, string_chars(tab.iwad_path))
            &&& stands_for(wad, first_input(tab))
            &&& title == long_title_of(
                name_if_chosen(string_chars(tab.engine_path), engine),
                name_if_chosen(string_chars(tab.iwad_path), iwad),
                name_if_chosen(first_input(tab), wad),
            )
        }
}

/// Whether `title` is the short title of `tab`: the short title of a name
/// that is a part of the path of its first input file.
pub open spec fn is_short_title(tab: TabConfig, title: Seq<char>) -> bool {
    exists|wad: Seq<char>|
        #![trigger short_title_of(name_if_chosen(first_input(tab), wad))]
        {
            &&& stands_for(wad, first_input(tab))
            &&& title == short_title_of(name_if_chosen(first_input(tab), wad))
        }
}

/// Whether the tabs show their short titles: always or never where the user
/// said so, and else where the long titles are too wide for the tab bar.
pub open spec fn shows_short_titles(mode: TitleMode, long_titles_too_wide: bool) -> bool {
    match mode {
        TitleMode::Adaptive => long_titles_too_wide,
        TitleMode::Short => true,
        TitleMode::Long => false,
    }
}

/// Decides whether the tabs show their short titles.
pub fn use_short_titles(mode: TitleMode, long_titles_too_wide: bool) -> (short: bool)
    ensures
        short == shows_short_titles(mode, long_titles_too_wide),
{
    match mode {
        TitleMode::Adaptive => long_titles_too_wide,
        TitleMode::Short => true,
        TitleMode::Long => false,
    }
}

/// Replaces every match of `pattern` in `text`. A pattern that is no regular
/// expression leaves the text as it is.
fn replace_or_keep(pattern: &str, case_insensitive: bool, text: String, replacement: &str) -> (out:
    String)
    ensures
        out@ == replaced_or_kept(pattern@, case_insensitive, text@, replacement@),
{
    match regex_replace_all(pattern, case_insensitive, text.as_str(), replacement) {
        Some(replaced) => replaced,
        None => text,
    }
}

/// Tidies a file name up for a tab title.
pub fn sanitize_tab_name_part(s: &str) -> (out: String)
    ensures
        out@ == sanitized(s@),
{
    let short = replace_or_keep(ENGINE_PATTERN, true, s.to_owned(), ENGINE_SHORT_NAME);
    let bare = replace_or_keep(PLATFORM_PATTERN, true, short, "");
    let clean = replace_or_keep(EDGE_PATTERN, false, bare, "");
    let upper = to_upper_case(clean.as_str());
    proof {
        reveal_strlit("");
        assert(""@ =~= Seq::<char>::empty());
    }
    trim(upper.as_str()).to_owned()
}

/// Puts one more part behind a title, if there is one.
fn add_part(title: String, part: Option<&str>) -> (out: String)
    ensures
        out@ == with_part(title@, option_chars(part)),
{
    match part {
        Some(name) => {
            let mut out = title;
            if !out.as_str().is_empty() {
                out.append(TITLE_SEPARATOR);
            }
            let tidy = sanitize_tab_name_part(name);
            out.append(tidy.as_str());
            assert(out@ =~= with_part(title@, Some(name@)));
            out
        },
        None => title,
    }
}

/// Makes the long title of a tab from the file names of its engine, its base
/// archive and its first input file, each given where the tab has one.
pub fn long_title(engine: Option<&str>, iwad: Option<&str>, wad: Option<&str>) -> (title: String)
    ensures
        title@ == long_title_of(option_chars(engine), option_chars(iwad), option_chars(wad)),
{
    if engine.is_none() && iwad.is_none() && wad.is_none() {
        return NEW_TAB_TITLE.to_owned();
    }
    let title = add_part(String::new(), engine);
    let title = add_part(title, iwad);
    add_part(title, wad)
}

/// Makes the short title of a tab from the file name of its first input
/// file, if it has one.
pub fn short_title(wad: Option<&str>) -> (title: String)
    ensures
        title@ == short_title_of(option_chars(wad)),
{
    match wad {
        Some(name) => sanitize_tab_name_part(name),
        None => NEW_TAB_TITLE.to_owned(),
    }
}

/// The name that stands for a path in a title: its file stem, or the whole
/// path where it has none.
pub fn stem_or_path(path: &str) -> (name: String)
    ensures
        is_part_of(name@, path@),
{
    match file_stem(path) {
        Some(stem) => stem,
        None => {
            assert(path@ == path@.subrange(0, path@.len() as int));
            path.to_owned()
        },
    }
}

/// The name that stands for an optional path.
fn stem_of(path: Option<&str>) -> (stem: Option<String>)
    ensures
        stem is Some <==> path is Some,
        stem matches Some(name) ==> stands_for(name@, option_chars(path)),
{
    match path {
        Some(chosen) => Some(stem_or_path(chosen)),
        None => None,
    }
}

/// The optional text of an optional string.
fn as_text(text: &Option<String>) -> (out: Option<&str>)
    ensures
        option_chars(out) == string_chars(*text),
{
    match text {
        Some(chars) => Some(chars.as_str()),
        None => None,
    }
}

/// The path of the first input file of a tab, if it has one.
fn first_input_path(tab: &TabConfig) -> (path: Option<&str>)
    ensures
        option_chars(path) == first_input(*tab),
{
    if tab.input_paths.len() > 0 {
        Some(tab.input_paths[0].as_str())
    } else {
        None
    }
}

/// The characters of a name, or none where there is no name.
spec fn name_or_none(name: Option<String>) -> Seq<char> {
    match name {
        Some(chars) => chars@,
        None => Seq::empty(),
    }
}

/// Makes the long title of every tab: the tidied file names of its engine,
/// its base archive and its first input file, as far as they are chosen.
pub fn build_long_titles(tabs: &Vec<TabConfig>) -> (titles: Vec<String>)
    ensures
        titles@.len() == tabs@.len(),
        forall|i: int| 0 <= i < tabs@.len() ==> is_long_title(tabs@[i], #[trigger] titles@[i]@),
        forall|i: int|
            0 <= i < tabs@.len() && is_new_tab(tabs@[i]) ==> (#[trigger] titles@[i])@
                == NEW_TAB_TITLE@,
{
    let mut titles: Vec<String> = Vec::new();
    let count: usize = tabs.len();
    for n in 0..count
        invariant
            count == tabs@.len(),
            titles@.len() == n,
            forall|i: int| 0 <= i < n ==> is_long_title(tabs@[i], #[trigger] titles@[i]@),
            forall|i: int|
                0 <= i < n && is_new_tab(tabs@[i]) ==> (#[trigger] titles@[i])@ == NEW_TAB_TITLE@,
    {
        let tab = &tabs[n];
        let engine = stem_of(as_text(&tab.engine_path));
        let iwad = stem_of(as_text(&tab.iwad_path));
        let wad = stem_of(first_input_path(tab));
        let title = long_title(as_text(&engine), as_text(&iwad), as_text(&wad));
        proof {
            let e = name_or_none(engine);
            let i = name_or_none(iwad);
            let w = name_or_none(wad);
            assert(stands_for(e, string_chars(tab.engine_path)));
            assert(stands_for(i, string_chars(tab.iwad_path)));
            assert(stands_for(w, first_input(*tab)));
            assert(title@ == long_title_of(
                name_if_chosen(string_chars(tab.engine_path), e),
                name_if_chosen(string_chars(tab.iwad_path), i),
                name_if_chosen(first_input(*tab), w),
            ));
            assert(is_long_title(*tab, title@));
        }
        titles.push(title);
    }
    titles
}

/// Makes the short title of every tab: the tidied file name of its first
/// input file, if it has one.
pub fn build_short_titles(tabs: &Vec<TabConfig>) -> (titles: Vec<String>)
    ensures
        titles@.len() == tabs@.len(),
        forall|i: int| 0 <= i < tabs@.len() ==> is_short_title(tabs@[i], #[trigger] titles@[i]@),
        forall|i: int|
            0 <= i < tabs@.len() && tabs@[i].input_paths@.len() == 0 ==> (#[trigger] titles@[i])@
                == NEW_TAB_TITLE@,
{
    let mut titles: Vec<String> = Vec::new();
    let count: usize = tabs.len();
    for n in 0..count
        invariant
            count == tabs@.len(),
            titles@.len() == n,
            forall|i: int| 0 <= i < n ==> is_short_title(tabs@[i], #[trigger] titles@[i]@),
            forall|i: int|
                0 <= i < n && tabs@[i].input_paths@.len() == 0 ==> (#[trigger] titles@[i])@
                    == NEW_TAB_TITLE@,
    {
        let tab = &tabs[n];
        let wad = stem_of(first_input_path(tab));
        let title = short_title(as_text(&wad));
        proof {
            let w = name_or_none(wad);
            assert(stands_for(w, first_input(*tab)));
            assert(title@ == short_title_of(name_if_chosen(first_input(*tab), w)));
            assert(is_short_title(*tab, title@));
        }
        titles.push(title);
    }
    titles
}

} // verus!
