//! Reading the command line: provider, quality, mode of use, and the
//! search query.

use crate::providers::allanime::{source_number, strings_view};
use crate::text::{
    chars_of, is_blank, is_blank_exec, join, join_exec, parse_u16, parse_u8, parse_unsigned,
    str_eq, string_of, trim_end_any, trim_end_any_exec,
};
use crate::helpers::selection::{menu, Menu};
use crate::Todo;
use vstd::prelude::*;

verus! {

/// The number of a provider named on the command line: Default 2, S-mp4 3,
/// Sak 4, Luf-mp4 5, anything else 1.
pub open spec fn provider_num_spec(provider: Seq<char>) -> u8 {
    if provider == "Default"@ {
        2
    } else if provider == "S-mp4"@ {
        3
    } else if provider == "Sak"@ {
        4
    } else if provider == "Luf-mp4"@ {
        5
    } else {
        1
    }
}

/// The number of a provider named on the command line.
pub fn provider_num(provider: &str) -> (n: u8)
    ensures
        n == provider_num_spec(provider@),
{
    if str_eq(provider, "Default") {
        2
    } else if str_eq(provider, "S-mp4") {
        3
    } else if str_eq(provider, "Sak") {
        4
    } else if str_eq(provider, "Luf-mp4") {
        5
    } else {
        1
    }
}

/// The provider a `--provider` value selects: the number it spells, else
/// the provider it names.
pub fn provider_arg(value: &str) -> (n: u8)
    ensures
        n == match parse_unsigned(value@, 255) {
            Some(v) => v as u8,
            None => provider_num_spec(value@),
        },
{
    match parse_u8(&chars_of(value)) {
        Some(v) => v,
        None => provider_num(value),
    }
}

/// The height a `--quality` value asks for: the number before any trailing
/// `p`s; nothing when that is not a `u16`.
pub fn quality_arg(value: &str) -> (q: Option<u16>)
    ensures
        match parse_unsigned(trim_end_any(value@, seq!['p']), 65535) {
            Some(v) => q == Some(v as u16),
            None => q is None,
        },
{
    let p: Vec<char> = vec!['p'];
    assert(p@ == seq!['p']);
    parse_u16(&trim_end_any_exec(&chars_of(value), &p))
}

/// What to do with the episodes: the last of `--debug`, `--download`,
/// `--get` that is set wins; playing when none is.
pub open spec fn todo_spec(debug: bool, download: bool, get: bool) -> Todo {
    if get {
        Todo::GetLink
    } else if download {
        Todo::Download
    } else if debug {
        Todo::Debug
    } else {
        Todo::Play
    }
}

/// Each of `--get`, `--download` and `--debug` chooses what is done on its
/// own, whatever the others say that it outranks: `--get` prints the
/// links, `--download` (without `--get`) downloads, `--debug` (alone)
/// prints the video found; with no flag the episode is played.
pub proof fn lemma_each_flag_sets_todo(debug: bool, download: bool, get: bool)
    ensures
        get ==> todo_spec(debug, download, get) == Todo::GetLink,
        download && !get ==> todo_spec(debug, download, get) == Todo::Download,
        debug && !download && !get ==> todo_spec(debug, download, get) == Todo::Debug,
        !debug && !download && !get ==> todo_spec(debug, download, get) == Todo::Play,
{
}

/// What to do with the episodes, from the flags.
pub fn todo_from_flags(debug: bool, download: bool, get: bool) -> (t: Todo)
    ensures
        t == todo_spec(debug, download, get),
        get ==> t == Todo::GetLink,
        download && !get ==> t == Todo::Download,
        debug && !download && !get ==> t == Todo::Debug,
        !debug && !download && !get ==> t == Todo::Play,
{
    proof {
        lemma_each_flag_sets_todo(debug, download, get);
    }
    let mut todo = Todo::Play;
    if debug {
        todo = Todo::Debug;
    }
    if download {
        todo = Todo::Download;
    }
    if get {
        todo = Todo::GetLink;
    }
    todo
}

/// The query given as words on the command line: the words joined by
/// spaces.
pub fn query_from_words(words: &Vec<String>) -> (q: String)
    ensures
        q@ == join(strings_view(words@), " "@),
{
    let mut parts: Vec<Vec<char>> = Vec::new();
    let mut i: usize = 0;
    while i < words.len()
        invariant
            i <= words@.len(),
            parts@.len() == i,
            forall|k: int| 0 <= k < i ==> (#[trigger] parts@[k])@ == words@[k]@,
        decreases words.len() - i,
    {
        parts.push(chars_of(words[i].as_str()));
        i = i + 1;
    }
    assert(parts@.map_values(|p: Vec<char>| p@) == strings_view(words@));
    string_of(&join_exec(&parts, &chars_of(" ")))
}

/// A query typed at the prompt, trailing newlines and spaces removed.
pub fn typed_query(line: &str) -> (q: String)
    ensures
        q@ == trim_end_any(line@, seq!['\n', ' ']),
{
    let cs: Vec<char> = vec!['\n', ' '];
    assert(cs@ == seq!['\n', ' ']);
    string_of(&trim_end_any_exec(&chars_of(line), &cs))
}

/// Whether a query is empty once white space is trimmed.
pub fn is_blank_query(query: &str) -> (b: bool)
    ensures
        b == is_blank(query@),
{
    is_blank_exec(&chars_of(query))
}

/// The menu that asks for a search query when none was given and rofi is
/// in use: nothing to pick from, the prompt `Search a Cartoon/Anime: `,
/// shown in rofi exactly when rofi was asked for.
pub fn query_selection(is_rofi: bool) -> (m: Menu)
    ensures
        m.items@ == ""@,
        m.prompt@ == "Search a Cartoon/Anime: "@,
        !m.is_multi,
        m.is_not_rofi == !is_rofi,
{
    menu("", "Search a Cartoon/Anime: ", false, !is_rofi)
}

/// The six provider names are pairwise different.
pub proof fn lemma_provider_names_distinct()
    ensures
        "Luf-mp4"@ != "Yt-mp4"@,
        "Luf-mp4"@ != "S-mp4"@,
        "Luf-mp4"@ != "Sak"@,
        "Luf-mp4"@ != "Default"@,
        "Luf-mp4"@ != "Ak"@,
        "Yt-mp4"@ != "S-mp4"@,
        "Yt-mp4"@ != "Sak"@,
        "Yt-mp4"@ != "Default"@,
        "Yt-mp4"@ != "Ak"@,
        "S-mp4"@ != "Sak"@,
        "S-mp4"@ != "Default"@,
        "S-mp4"@ != "Ak"@,
        "Sak"@ != "Default"@,
        "Sak"@ != "Ak"@,
        "Default"@ != "Ak"@,
{
    reveal_strlit("Luf-mp4");
    reveal_strlit("Yt-mp4");
    reveal_strlit("S-mp4");
    reveal_strlit("Sak");
    reveal_strlit("Default");
    reveal_strlit("Ak");
    assert("Luf-mp4"@.len() != "Yt-mp4"@.len());
    assert("Luf-mp4"@.len() != "S-mp4"@.len());
    assert("Luf-mp4"@.len() != "Sak"@.len());
    assert("Luf-mp4"@[0] != "Default"@[0]);
    assert("Luf-mp4"@.len() != "Ak"@.len());
    assert("Yt-mp4"@.len() != "S-mp4"@.len());
    assert("Yt-mp4"@.len() != "Sak"@.len());
    assert("Yt-mp4"@.len() != "Default"@.len());
    assert("Yt-mp4"@.len() != "Ak"@.len());
    assert("S-mp4"@.len() != "Sak"@.len());
    assert("S-mp4"@.len() != "Default"@.len());
    assert("S-mp4"@.len() != "Ak"@.len());
    assert("Sak"@.len() != "Default"@.len());
    assert("Sak"@.len() != "Ak"@.len());
    assert("Default"@.len() != "Ak"@.len());
}

/// A provider named on the command line gets the number its sources
/// carry in episode answers.
pub proof fn lemma_provider_names_agree(name: Seq<char>)
    requires
        source_number(name) != 0,
    ensures
        provider_num_spec(name) == source_number(name),
{
    lemma_provider_names_distinct();
}

} // verus!
