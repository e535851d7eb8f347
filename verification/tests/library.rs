use eren::cli::{
    is_blank_query, provider_arg, provider_num as cli_provider_num, quality_arg,
    query_from_words, query_selection, todo_from_flags, typed_query,
};
use eren::codec::{decode_hex, form_urlencode, HexError};
use eren::failure::{Abort, Failure};
use eren::helpers::name_provider::provider_name as listing_name;
use eren::helpers::play_manager::{
    android_args, download_plan, download_title, link_lines, player_args, DownloadPlan,
};
use eren::helpers::provider_num::{provider_name, provider_num};
use eren::helpers::reqwests::{json_attempt, Attempt};
use eren::helpers::selection::{rofi_args, rofi_pick, skim_pick};
use eren::json::{parse_json, Json};
use eren::providers::allanime::{
    choice_selection, choose_show, decrypt_allanime, episode_link, episode_selection,
    episode_title, mode_of, read_shows, read_sources, search_link, show_selection, ChooseError,
    ShowsError,
};
use eren::providers::episodes::{choice_menu, play_range, start_of, EpisodeSession, Start};
use eren::providers::streaming::{
    playlist_entry, wixmp_fallback_link, wixmp_link, LinkSearch, LinkStep, Reply,
};
use eren::text::{chars_of, lines_exec, parse_u8, replace_all_exec, string_of};
use eren::{Todo, Vid};

fn s(x: &str) -> Json {
    Json::Str(x.to_string())
}

fn n(x: u64) -> Json {
    Json::Number(Some(x))
}

fn arr(items: Vec<Json>) -> Json {
    Json::Array(items)
}

fn obj(members: Vec<(&str, Json)>) -> Json {
    Json::Object(members.into_iter().map(|(k, v)| (k.to_string(), v)).collect())
}

fn strings(v: &[&str]) -> Vec<String> {
    v.iter().map(|x| x.to_string()).collect()
}

/// The encrypted form the catalogue gives a link: a two-character prefix,
/// then the bytes XOR-ed with 56 in hexadecimal.
fn encrypt(link: &str) -> String {
    let mut out = String::from("--");
    for b in link.bytes() {
        out.push_str(&format!("{:02x}", b ^ 56));
    }
    out
}

fn blank_vid() -> Vid {
    Vid::default()
}

// ---------------------------------------------------------------------------
// Provider names
// ---------------------------------------------------------------------------

#[test]
fn listing_names() {
    let names: Vec<&str> = (1..=6).map(listing_name).collect();
    assert_eq!(names, vec!["Ak", "Default", "Sak", "S-mp4", "Luf-mp4", "Yt-mp4"]);
}

#[test]
fn cli_names_round_trip() {
    for n in 1..=5u8 {
        assert_eq!(provider_num(provider_name(n)), n);
    }
    assert_eq!(provider_num("Luf-mp4"), 4);
    assert_eq!(provider_name(5), "Yt-mp4");
}

#[test]
fn command_line_provider() {
    assert_eq!(cli_provider_num("Default"), 2);
    assert_eq!(cli_provider_num("S-mp4"), 3);
    assert_eq!(cli_provider_num("Sak"), 4);
    assert_eq!(cli_provider_num("Luf-mp4"), 5);
    assert_eq!(cli_provider_num("Ak"), 1);
    assert_eq!(cli_provider_num("anything"), 1);
    assert_eq!(provider_arg("3"), 3);
    assert_eq!(provider_arg("+2"), 2);
    assert_eq!(provider_arg("Sak"), 4);
    assert_eq!(provider_arg("300"), 1);
}

#[test]
fn provider_numbers_agree_with_sources() {
    let doc = episode_doc(vec![
        ("Ak", "/a"),
        ("Default", "/b"),
        ("S-mp4", "/c"),
        ("Sak", "/d"),
        ("Luf-mp4", "/e"),
    ]);
    let sources = read_sources(&doc).unwrap();
    let by_name: Vec<u8> =
        ["Ak", "Default", "S-mp4", "Sak", "Luf-mp4"].iter().map(|x| cli_provider_num(x)).collect();
    assert_eq!(sources.names, by_name);
}

// ---------------------------------------------------------------------------
// Command line
// ---------------------------------------------------------------------------

#[test]
fn quality_values() {
    assert_eq!(quality_arg("720p"), Some(720));
    assert_eq!(quality_arg("1080"), Some(1080));
    assert_eq!(quality_arg("480pp"), Some(480));
    assert_eq!(quality_arg("high"), None);
    assert_eq!(quality_arg("70000"), None);
    assert_eq!(quality_arg(""), None);
}

#[test]
fn todo_flags() {
    assert_eq!(todo_from_flags(false, false, false), Todo::Play);
    assert_eq!(todo_from_flags(true, false, false), Todo::Debug);
    assert_eq!(todo_from_flags(true, true, false), Todo::Download);
    assert_eq!(todo_from_flags(true, true, true), Todo::GetLink);
}

#[test]
fn queries() {
    assert_eq!(query_from_words(&strings(&["demon", "slayer"])), "demon slayer");
    assert_eq!(query_from_words(&strings(&[])), "");
    assert_eq!(typed_query("death note \n"), "death note");
    assert!(is_blank_query(" \t\n"));
    assert!(is_blank_query(""));
    assert!(!is_blank_query(" monster "));
}

// ---------------------------------------------------------------------------
// Codecs and links
// ---------------------------------------------------------------------------

#[test]
fn hex_decoding() {
    assert_eq!(decode_hex(b"6b697769").unwrap(), b"kiwi".to_vec());
    assert_eq!(decode_hex(b"6B6"), Err(HexError::OddLength));
    assert_eq!(
        decode_hex(b"6bzz"),
        Err(HexError::InvalidHexCharacter { c: 'z', index: 2 })
    );
}

#[test]
fn form_encoding() {
    assert_eq!(form_urlencode(b"a b*-._~{}"), "a+b*-._%7E%7B%7D");
    assert_eq!(form_urlencode("é".as_bytes()), "%C3%A9");
}

#[test]
fn decrypt_clock_link() {
    let enc = encrypt("/apivtwo/clock?id=abc");
    assert_eq!(
        decrypt_allanime(&enc).unwrap(),
        "https://allanime.day/apivtwo/clock.json?id=abc"
    );
    let plain = encrypt("https://example.com/v.mp4");
    assert_eq!(decrypt_allanime(&plain).unwrap(), "https://example.com/v.mp4");
}

#[test]
fn decrypt_errors() {
    assert_eq!(decrypt_allanime("--abc"), Err(HexError::OddLength));
    assert_eq!(
        decrypt_allanime("--a0xy"),
        Err(HexError::InvalidHexCharacter { c: 'x', index: 2 })
    );
}

#[test]
fn query_links() {
    assert_eq!(mode_of(true), "sub");
    assert_eq!(mode_of(false), "dub");
    let link = search_link("a b", "sub", false);
    assert!(link.starts_with(
        "https://api.allanime.day/api?variables=%7B%22search%22%3A%7B%22allowAdult%22%3Atrue%2C%22allowUnknown%22%3Atrue%2C%22query%22%3A%22a+b%22%7D%2C%22translationType%22%3A%22sub%22%7D&query=query+%28%0A++++++++%24search%3A+SearchInput"
    ));
    let top = search_link("x", "dub", true);
    assert!(top.contains("%7B%22search%22%3A%7B%22sortBy%22%3A%22Top%22%2C%22allowAdult"));
    let ep = episode_link("id1", "12", "sub");
    assert!(ep.starts_with(
        "https://api.allanime.day/api?variables=%7B%22showId%22%3A%22id1%22%2C%22translationType%22%3A%22sub%22%2C%22episodeString%22%3A%2212%22%7D&query=query+%28%24showId"
    ));
}

// ---------------------------------------------------------------------------
// Search results and choosing a show
// ---------------------------------------------------------------------------

fn show(id: &str, english: Option<&str>, name: &str, count: u64, eps: Option<Vec<&str>>) -> Json {
    let mut members = vec![("_id", s(id)), ("name", s(name))];
    if let Some(e) = english {
        members.push(("englishName", s(e)));
    }
    members.push(("availableEpisodes", obj(vec![("sub", n(count)), ("dub", n(0))])));
    if let Some(list) = eps {
        members.push((
            "availableEpisodesDetail",
            obj(vec![("sub", arr(list.into_iter().map(s).collect()))]),
        ));
    }
    obj(members)
}

fn search_doc(shows: Vec<Json>) -> Json {
    obj(vec![("data", obj(vec![("shows", obj(vec![("edges", arr(shows))]))]))])
}

#[test]
fn reading_search_results() {
    let doc = search_doc(vec![
        show("a1", Some("Monster"), "Monsutaa", 3, Some(vec!["3", "2", "\"1\""])),
        show("b2", None, "Texhnolyze", 22, None),
    ]);
    let shows = read_shows(&doc, "sub").unwrap();
    assert_eq!(shows.listing, "0 Monster (3 Episodes)\n1 Texhnolyze (22 Episodes)");
    assert_eq!(shows.ids, strings(&["a1", "b2"]));
    assert_eq!(shows.episodes, vec![strings(&["1", "2", "3"])]);
}

#[test]
fn search_without_results() {
    assert!(matches!(read_shows(&search_doc(vec![]), "sub"), Err(ShowsError::NoResult)));
    let none = read_shows(&obj(vec![]), "sub").unwrap();
    assert_eq!(none.listing, "");
    assert!(none.ids.is_empty());
}

#[test]
fn search_result_faults() {
    let no_id = obj(vec![("name", s("x"))]);
    assert!(matches!(
        read_shows(&search_doc(vec![no_id]), "sub"),
        Err(ShowsError::Abort(Abort::MissingId))
    ));
    let no_count = obj(vec![("_id", s("x")), ("name", s("x"))]);
    assert!(matches!(
        read_shows(&search_doc(vec![no_count]), "sub"),
        Err(ShowsError::Abort(Abort::MissingEpisodeCount))
    ));
    let no_name = obj(vec![("_id", s("x")), ("availableEpisodes", obj(vec![("sub", n(1))]))]);
    assert!(matches!(
        read_shows(&search_doc(vec![no_name]), "sub"),
        Err(ShowsError::Abort(Abort::MissingName))
    ));
    let bad_ep = obj(vec![
        ("_id", s("x")),
        ("name", s("x")),
        ("availableEpisodes", obj(vec![("sub", n(1))])),
        ("availableEpisodesDetail", obj(vec![("sub", arr(vec![n(1)]))])),
    ]);
    assert!(matches!(
        read_shows(&search_doc(vec![bad_ep]), "sub"),
        Err(ShowsError::Abort(Abort::EpisodeNotText))
    ));
}

#[test]
fn choosing_a_show() {
    let ids = strings(&["a1", "b2"]);
    let eps = vec![strings(&["1", "2", "3"]), strings(&["1"])];
    let c = choose_show("1 Texhnolyze (Special) (22 Episodes)", &ids, &eps).unwrap();
    assert_eq!(c.index, 1);
    assert_eq!(c.id, "b2");
    assert_eq!(c.anime_name, "Texhnolyze (Special)");
    assert_eq!(c.episode_menu, "1");
    assert_eq!(c.episodes, strings(&["1"]));
    let c0 = choose_show("0 Monster (3 Episodes)", &ids, &eps).unwrap();
    assert_eq!(c0.episode_menu, "1\n2\n3");
    assert_eq!(c0.episodes, strings(&["1", "2", "3"]));
}

#[test]
fn choosing_a_show_fails() {
    let ids = strings(&["a1"]);
    let eps: Vec<Vec<String>> = vec![];
    assert!(matches!(
        choose_show("Monster", &ids, &eps),
        Err(ChooseError::Abort(Abort::SelectionNotSplit))
    ));
    assert!(matches!(
        choose_show("0 Monster", &ids, &eps),
        Err(ChooseError::Abort(Abort::SelectionWithoutCount))
    ));
    match choose_show("x Monster (3 Episodes)", &ids, &eps) {
        Err(ChooseError::BadIndex(t)) => assert_eq!(t, "x"),
        _ => panic!("expected a bad index"),
    }
    assert!(matches!(
        choose_show("5 Monster (3 Episodes)", &ids, &eps),
        Err(ChooseError::Abort(Abort::ShowOutOfRange))
    ));
    assert!(matches!(
        choose_show("0 Monster (3 Episodes)", &ids, &eps),
        Err(ChooseError::Abort(Abort::EpisodesOutOfRange))
    ));
}

// ---------------------------------------------------------------------------
// Episode answers
// ---------------------------------------------------------------------------

fn episode_doc(sources: Vec<(&str, &str)>) -> Json {
    let list = sources
        .into_iter()
        .map(|(name, link)| obj(vec![("sourceName", s(name)), ("sourceUrl", s(&encrypt(link)))]))
        .collect();
    obj(vec![("data", obj(vec![("episode", obj(vec![("sourceUrls", arr(list))]))]))])
}

#[test]
fn reading_sources() {
    let mut doc = episode_doc(vec![("Yt-mp4", "/x"), ("Sak", "/apivtwo/clock?id=7"), ("Ak", "/y")]);
    let sources = read_sources(&doc).unwrap();
    assert_eq!(sources.names, vec![4, 1]);
    assert_eq!(
        sources.urls,
        strings(&["https://allanime.day/apivtwo/clock.json?id=7", "/y"])
    );
    assert!(sources.errors.is_empty());
    // A source that does not decrypt keeps its number but adds no link.
    if let Json::Object(m) = &mut doc {
        if let Json::Object(e) = &mut m[0].1 {
            if let Json::Object(u) = &mut e[0].1 {
                if let Json::Array(list) = &mut u[0].1 {
                    list.push(obj(vec![("sourceName", s("Default")), ("sourceUrl", s("--abc"))]));
                }
            }
        }
    }
    let sources = read_sources(&doc).unwrap();
    assert_eq!(sources.names, vec![4, 1, 2]);
    assert_eq!(sources.urls.len(), 2);
    assert_eq!(sources.errors, vec![HexError::OddLength]);
}

#[test]
fn source_faults() {
    let doc = obj(vec![(
        "data",
        obj(vec![("episode", obj(vec![("sourceUrls", arr(vec![obj(vec![("sourceUrl", s("--"))])]))]))]),
    )]);
    assert_eq!(read_sources(&doc).err(), Some(Abort::MissingSourceName));
    let doc = obj(vec![(
        "data",
        obj(vec![("episode", obj(vec![("sourceUrls", arr(vec![obj(vec![("sourceName", s("Ak"))])]))]))]),
    )]);
    assert_eq!(read_sources(&doc).err(), Some(Abort::MissingSourceUrl));
    let doc = obj(vec![(
        "data",
        obj(vec![(
            "episode",
            obj(vec![("sourceUrls", arr(vec![obj(vec![("sourceName", s("Ak")), ("sourceUrl", s("-"))])]))]),
        )]),
    )]);
    assert_eq!(read_sources(&doc).err(), Some(Abort::SourceTooShort));
    assert!(read_sources(&obj(vec![])).unwrap().names.is_empty());
}

fn notes_doc(notes: &str) -> Json {
    obj(vec![(
        "data",
        obj(vec![("episode", obj(vec![("episodeInfo", obj(vec![("notes", s(notes))]))]))]),
    )])
}

#[test]
fn episode_titles() {
    assert_eq!(
        episode_title("Monster", "3", &notes_doc("The Hero<note-split>rest"), 74),
        "Monster Episode 3 - The Hero"
    );
    assert_eq!(episode_title("Monster", "3", &notes_doc("Untitled"), 74), "Monster Episode 3");
    assert_eq!(episode_title("Monster", "3", &obj(vec![]), 74), "Monster Episode 3");
    assert_eq!(episode_title("Akira", "1", &obj(vec![]), 1), "Akira");
}

// ---------------------------------------------------------------------------
// Moving through episodes
// ---------------------------------------------------------------------------

fn numbered(k: usize) -> Vec<String> {
    (1..=k).map(|i| i.to_string()).collect()
}

#[test]
fn pick_first_and_last_plays_between() {
    let eps = numbered(12);
    let r = play_range("1\n12", &eps).unwrap();
    assert_eq!((r.first, r.count, r.overruns), (0, 12, false));
    let r = play_range("5", &eps).unwrap();
    assert_eq!((r.first, r.count, r.overruns), (4, 1, false));
}

#[test]
fn pick_edges() {
    let eps = numbered(5);
    let r = play_range("4\n2", &eps).unwrap();
    assert_eq!((r.first, r.count, r.overruns), (3, 2, true));
    let r = play_range("3\n", &eps).unwrap();
    assert_eq!((r.first, r.count, r.overruns), (2, 1, false));
    let r = play_range("3\n\n", &eps).unwrap();
    assert_eq!((r.first, r.count, r.overruns), (2, 0, false));
    assert_eq!(play_range("", &eps).err(), Some(Abort::NoEpisodeChosen));
    assert_eq!(play_range("9", &eps).err(), Some(Abort::EpisodeNotListed));
}

#[test]
fn menu_choices() {
    assert_eq!(choice_menu(1, 1), "quit\nreplay");
    assert_eq!(choice_menu(1, 5), "quit\nnext\nselect\nreplay");
    assert_eq!(choice_menu(5, 5), "quit\nprevious\nselect\nreplay");
    assert_eq!(choice_menu(3, 5), "quit\nnext\nprevious\nselect\nreplay");
    let m = choice_selection("quit\nreplay", true);
    assert_eq!(m.items, "quit\nreplay");
    assert_eq!(m.prompt, "Enter a choice: ");
    assert!(!m.is_multi);
    assert!(!m.is_not_rofi);
    assert!(choice_selection("quit", false).is_not_rofi);
}

#[test]
fn menus_use_rofi_exactly_when_asked() {
    for is_rofi in [true, false] {
        let shows = show_selection("0 Monster (3 Episodes)", is_rofi);
        assert_eq!(shows.is_not_rofi, !is_rofi);
        assert_eq!(shows.prompt, "Select anime: ");
        assert!(!shows.is_multi);
        let eps = episode_selection("1\n2", is_rofi);
        assert_eq!(eps.is_not_rofi, !is_rofi);
        assert_eq!(eps.prompt, "Select episode: ");
        assert!(eps.is_multi);
        assert_eq!(eps.items, "1\n2");
        let q = query_selection(is_rofi);
        assert_eq!(q.is_not_rofi, !is_rofi);
        assert_eq!(q.prompt, "Search a Cartoon/Anime: ");
        assert_eq!(q.items, "");
    }
}

#[test]
fn session_bookkeeping() {
    let eps = numbered(12);
    let mut session = EpisodeSession::new();
    assert!(!session.is_over());
    assert!(matches!(session.start(&eps), Start::Ask));
    let range = play_range("1\n3", &eps).unwrap();
    assert_eq!(range.positions(), vec![0, 1, 2]);
    assert_eq!(session.finish_batch(&range, eps.len()), "quit\nnext\nprevious\nselect\nreplay");
    assert_eq!(session.index, 3);
    session.pick("next".to_string());
    assert!(matches!(session.start(&eps), Start::Episode(e) if e == "4"));
    session.pick("previous".to_string());
    assert!(matches!(session.start(&eps), Start::Episode(e) if e == "2"));
    session.pick("quit".to_string());
    assert!(session.is_over());
    let last = play_range("12", &eps).unwrap();
    assert_eq!(session.finish_batch(&last, eps.len()), "quit\nprevious\nselect\nreplay");
}

#[test]
fn every_offered_choice_stays_in_range() {
    let eps = numbered(4);
    for index in 1..=4usize {
        for choice in choice_menu(index, 4).lines() {
            let start = start_of(choice, &eps, index);
            assert!(!matches!(start, Start::Abort(_)), "{} at {}", choice, index);
        }
    }
}

#[test]
fn starting_points() {
    let eps = numbered(4);
    assert!(matches!(start_of("next", &eps, 2), Start::Episode(e) if e == "3"));
    assert!(matches!(start_of("previous", &eps, 2), Start::Episode(e) if e == "1"));
    assert!(matches!(start_of("replay", &eps, 2), Start::Episode(e) if e == "2"));
    assert!(matches!(start_of("select", &eps, 2), Start::Ask));
    assert!(matches!(start_of("", &eps, 0), Start::Ask));
    assert!(matches!(start_of("next", &eps, 4), Start::Abort(Abort::EpisodeOutOfRange)));
    assert!(matches!(start_of("previous", &eps, 1), Start::Abort(Abort::EpisodeOutOfRange)));
}

// ---------------------------------------------------------------------------
// Fetching documents
// ---------------------------------------------------------------------------

#[test]
fn json_attempts() {
    assert!(matches!(json_attempt(0, "error no result"), Attempt::NoResult));
    assert!(matches!(json_attempt(3, "error no result"), Attempt::NoResult));
    assert!(matches!(json_attempt(0, "{}"), Attempt::Done(Json::Object(m)) if m.is_empty()));
    assert!(matches!(json_attempt(0, "<html>"), Attempt::Retry(1)));
    assert!(matches!(json_attempt(2, "<html>"), Attempt::Retry(3)));
    assert!(matches!(json_attempt(3, "<html>"), Attempt::TooManyRequests));
}

#[test]
fn json_texts_parse_into_the_model() {
    let doc = parse_json("{\"a\": [1, \"x\", null, -2, 1.5, true], \"b\": {}}");
    let Some(Json::Object(members)) = doc else { panic!("not an object") };
    assert_eq!(members.len(), 2);
    assert_eq!(members[0].0, "a");
    let Json::Array(items) = &members[0].1 else { panic!("not an array") };
    assert_eq!(items.len(), 6);
    assert!(matches!(items[0], Json::Number(Some(1))));
    assert!(matches!(&items[1], Json::Str(x) if x == "x"));
    assert!(matches!(items[2], Json::Null));
    assert!(matches!(items[3], Json::Number(None)));
    assert!(matches!(items[4], Json::Number(None)));
    assert!(matches!(items[5], Json::Bool(true)));
    assert_eq!(members[1].0, "b");
    assert!(matches!(&members[1].1, Json::Object(m) if m.is_empty()));
    assert!(parse_json("<html>").is_none());
    assert!(parse_json("").is_none());
}

// ---------------------------------------------------------------------------
// Resolving streams
// ---------------------------------------------------------------------------

fn link_doc(link: &str) -> Json {
    obj(vec![("links", arr(vec![obj(vec![("link", s(link))])]))])
}

fn ak_doc() -> Json {
    obj(vec![(
        "links",
        arr(vec![obj(vec![
            (
                "rawUrls",
                obj(vec![
                    (
                        "vids",
                        arr(vec![
                            obj(vec![("height", n(1080)), ("url", s("\"v1080\""))]),
                            obj(vec![("height", n(720)), ("url", s("v720"))]),
                            obj(vec![("height", n(480))]),
                        ]),
                    ),
                    ("audios", arr(vec![obj(vec![("url", s("\"a1\""))])])),
                ]),
            ),
            ("subtitles", arr(vec![obj(vec![("src", s("s1"))])])),
        ])]),
    )])
}

#[test]
fn provider_order_skips_missing_sources() {
    let mut search = LinkSearch::new(4, 0, blank_vid());
    let names = vec![3u8];
    let urls = strings(&["https://c"]);
    match search.next(&names, &urls) {
        LinkStep::FetchDocument(u) => assert_eq!(u, "https://c"),
        _ => panic!("expected a fetch"),
    }
    assert_eq!((search.provider, search.count), (3, 4));
    let (reply, warned) = search.on_document(&link_doc("https://video/3.mp4"));
    assert!(matches!(reply, Reply::Continue));
    assert!(!warned);
    assert!(matches!(search.next(&names, &urls), LinkStep::Found));
    assert_eq!(search.vid.vid_link, "https://video/3.mp4");
}

#[test]
fn no_source_gives_no_video() {
    let mut search = LinkSearch::new(1, 0, blank_vid());
    assert!(matches!(search.next(&vec![], &vec![]), LinkStep::Fail(Failure::NoVideoLink)));
    let mut search = LinkSearch::new(1, 0, blank_vid());
    assert!(matches!(
        search.next(&vec![1], &vec![]),
        LinkStep::Fail(Failure::Abort(Abort::SourceLinkMissing))
    ));
}

#[test]
fn empty_links_try_the_next_provider() {
    let mut search = LinkSearch::new(3, 0, blank_vid());
    let names = vec![3u8, 4];
    let urls = strings(&["https://c", "https://d"]);
    assert!(matches!(search.next(&names, &urls), LinkStep::FetchDocument(_)));
    let _ = search.on_document(&obj(vec![]));
    match search.next(&names, &urls) {
        LinkStep::FetchDocument(u) => assert_eq!(u, "https://d"),
        _ => panic!("expected the next provider"),
    }
    assert_eq!(search.provider, 4);
}

#[test]
fn ak_by_quality() {
    let mut search = LinkSearch::new(1, 720, blank_vid());
    let (reply, warned) = search.on_document(&ak_doc());
    assert!(matches!(reply, Reply::Continue));
    assert!(!warned);
    assert_eq!(search.vid.vid_link, "v720");
    assert_eq!(search.vid.audio_link.as_deref(), Some("a1"));
    assert_eq!(search.vid.subtitle_link.as_deref(), Some("s1"));
    assert_eq!(search.provider, 2);
}

#[test]
fn ak_best_and_missing_quality() {
    let mut search = LinkSearch::new(1, 0, blank_vid());
    let _ = search.on_document(&ak_doc());
    assert_eq!(search.vid.vid_link, "v1080");
    let mut search = LinkSearch::new(1, 480, blank_vid());
    let (_, warned) = search.on_document(&ak_doc());
    assert!(warned);
    assert_eq!(search.vid.vid_link, "v1080");
}

#[test]
fn ak_faults() {
    let empty = obj(vec![("links", arr(vec![obj(vec![("rawUrls", obj(vec![("vids", arr(vec![]))]))])]))]);
    let mut search = LinkSearch::new(1, 0, blank_vid());
    let (reply, _) = search.on_document(&empty);
    assert!(matches!(reply, Reply::Fail(Failure::Abort(Abort::NoAkVideos))));
    assert_eq!(search.count, 0);
    let no_audio = obj(vec![(
        "links",
        arr(vec![obj(vec![("rawUrls", obj(vec![("vids", arr(vec![obj(vec![("url", s("v"))])]))]))])]),
    )]);
    let (reply, _) = search.on_document(&no_audio);
    assert!(matches!(reply, Reply::Fail(Failure::Abort(Abort::MissingAkAudio))));
    let no_url = obj(vec![(
        "links",
        arr(vec![obj(vec![("rawUrls", obj(vec![("vids", arr(vec![obj(vec![("height", n(1))])]))]))])]),
    )]);
    let (reply, _) = search.on_document(&no_url);
    assert!(matches!(reply, Reply::Fail(Failure::Abort(Abort::MissingAkVideo))));
    let no_sub = obj(vec![(
        "links",
        arr(vec![obj(vec![(
            "rawUrls",
            obj(vec![
                ("vids", arr(vec![obj(vec![("url", s("v"))])])),
                ("audios", arr(vec![obj(vec![("url", s("a"))])])),
            ]),
        )])]),
    )]);
    let (reply, _) = search.on_document(&no_sub);
    assert!(matches!(reply, Reply::Fail(Failure::Abort(Abort::MissingAkSubtitle))));
    assert_eq!(search.count, 0);
    assert!(search.vid.vid_link.is_empty());
}

const WIXMP: &str =
    "https://repackager.wixmp.com/video.wixstatic.com/video/abc/,480p,720p,1080p,/mp4/file.mp4";

#[test]
fn default_provider_rewrites_wixmp() {
    let mut search = LinkSearch::new(2, 720, blank_vid());
    let _ = search.on_document(&link_doc(WIXMP));
    assert_eq!(search.vid.vid_link, "https://video.wixstatic.com/video/abc/720p/mp4/file.mp4");
    let mut search = LinkSearch::new(2, 0, blank_vid());
    let _ = search.on_document(&link_doc(WIXMP));
    assert_eq!(search.vid.vid_link, "https://video.wixstatic.com/video/abc/1080p/mp4/file.mp4");
    assert_eq!(search.quality, 1080);
    let mut search = LinkSearch::new(2, 360, blank_vid());
    let _ = search.on_document(&link_doc(WIXMP));
    assert_eq!(search.vid.vid_link, "https://video.wixstatic.com/video/abc/1080p/mp4/file.mp4");
    assert_eq!(search.quality, 360);
}

fn groups(v: &[Option<&str>]) -> Vec<Option<String>> {
    v.iter().map(|g| g.map(|x| x.to_string())).collect()
}

#[test]
fn links_from_groups() {
    let g = groups(&[Some("whole"), Some("host/path/"), Some("/mp4/file.mp4")]);
    assert_eq!(wixmp_link(&g, 720).as_deref(), Some("https://host/path/720p/mp4/file.mp4"));
    assert_eq!(wixmp_link(&groups(&[Some("whole"), None, Some("x")]), 720), None);
    let f = groups(&[Some("whole"), Some("host/"), Some("480p"), Some("/mp4/file.mp4")]);
    assert_eq!(wixmp_fallback_link(&f).as_deref(), Some("https://host/480p/mp4/file.mp4"));
    assert_eq!(wixmp_fallback_link(&g), None);
    assert_eq!(playlist_entry(&groups(&[Some("ep.1.720.m3u8"), Some("ep.1.720.m3u8")])).as_deref(), Some("ep.1.720.m3u8"));
    assert_eq!(playlist_entry(&groups(&[Some("x")])), None);
}

#[test]
fn default_provider_without_wixmp_shape() {
    let mut search = LinkSearch::new(2, 720, blank_vid());
    let (reply, _) = search.on_document(&link_doc("https://elsewhere/v.mp4"));
    assert!(matches!(reply, Reply::Fail(Failure::Abort(Abort::WixmpNoMatch))));
}

#[test]
fn playlist_provider() {
    let text = "#EXTM3U\nep.1.1080.m3u8\nep.1.720.m3u8\n";
    let mut search = LinkSearch::new(5, 720, blank_vid());
    let (reply, _) = search.on_document(&link_doc("https://cdn/hls/master.m3u8"));
    match reply {
        Reply::FetchPlaylist(u) => assert_eq!(u, "https://cdn/hls/master.m3u8"),
        _ => panic!("expected a playlist"),
    }
    assert!(matches!(search.on_playlist(text), Reply::Continue));
    assert_eq!(search.vid.vid_link, "https://cdn/hls/ep.1.720.m3u8");
    assert_eq!(search.provider, 1);

    let mut search = LinkSearch::new(5, 0, blank_vid());
    let _ = search.on_document(&link_doc("https://cdn/hls/master.m3u8"));
    let _ = search.on_playlist("#EXTM3U\nep.1.1080.m3u8\r\n");
    assert_eq!(search.vid.vid_link, "https://cdn/hls/ep.1.1080.m3u8");

    let mut search = LinkSearch::new(5, 0, blank_vid());
    let _ = search.on_document(&link_doc("https://cdn/hls/master.m3u8"));
    assert!(matches!(
        search.on_playlist(""),
        Reply::Fail(Failure::Abort(Abort::EmptyPlaylist))
    ));
    let mut search = LinkSearch::new(5, 0, blank_vid());
    let _ = search.on_document(&link_doc("master.m3u8"));
    assert!(matches!(
        search.on_playlist("ep.m3u8"),
        Reply::Fail(Failure::Abort(Abort::LinkWithoutSlash))
    ));
}

// ---------------------------------------------------------------------------
// Player, downloads, links
// ---------------------------------------------------------------------------

fn sample_vid(link: &str, audio: Option<&str>, sub: Option<&str>) -> Vid {
    Vid {
        title: "Monster Episode 1 - Herr Dr. Tenma / Part".to_string(),
        vid_link: link.to_string(),
        audio_link: audio.map(|a| a.to_string()),
        subtitle_link: sub.map(|x| x.to_string()),
    }
}

#[test]
fn player_arguments() {
    let v = sample_vid("https://v", Some("https://a"), Some("https://s"));
    assert_eq!(
        player_args(&v),
        strings(&[
            "--audio-file=https://a",
            "--sub-file=https://s",
            "https://v",
            "--no-terminal",
            "--force-seekable",
            "--force-window=immediate",
            "--speed=1",
            "--sub-visibility",
            "--force-media-title=Monster Episode 1 - Herr Dr. Tenma / Part",
        ])
    );
    assert_eq!(android_args(&v)[6], "https://v");
}

#[test]
fn download_titles() {
    assert_eq!(download_title("a / b/c"), "a bc");
    assert_eq!(download_title("plain"), "plain");
}

#[test]
fn download_plans() {
    let hls = download_plan(&sample_vid("https://v/ep.m3u8", None, Some("https://s")));
    assert_eq!(hls.title, "Monster Episode 1 - Herr Dr. Tenma Part");
    match &hls.plan {
        DownloadPlan::Hls { args } => assert_eq!(args[..4], strings(&["-n", "38", "-o", &hls.title])[..]),
        _ => panic!("expected hls"),
    }
    let sub = hls.subtitle.unwrap();
    assert_eq!(sub.types, " subtitle");
    assert_eq!(sub.args[0], "--out=Monster Episode 1 - Herr Dr. Tenma Part subtitle.srt");

    let merge = download_plan(&sample_vid("https://v.mp4", Some("https://a"), None));
    match merge.plan {
        DownloadPlan::Merge { video, audio, ffmpeg, video_file, audio_file } => {
            assert_eq!(video.args[1], "https://v.mp4");
            assert_eq!(audio.args[0], "--out=Monster Episode 1 - Herr Dr. Tenma Part audio.mp3");
            assert_eq!(video_file, "Monster Episode 1 - Herr Dr. Tenma Part video.mp4");
            assert_eq!(audio_file, "Monster Episode 1 - Herr Dr. Tenma Part audio.mp3");
            assert_eq!(ffmpeg[6], "Monster Episode 1 - Herr Dr. Tenma Part.mp4");
        }
        _ => panic!("expected a merge"),
    }
    assert!(merge.subtitle.is_none());

    let direct = download_plan(&sample_vid("https://v.mp4", None, None));
    match direct.plan {
        DownloadPlan::Direct { video } => {
            assert_eq!(video.types, "");
            assert_eq!(video.args[0], "--out=Monster Episode 1 - Herr Dr. Tenma Part.mp4");
            assert_eq!(video.args.len(), 9);
        }
        _ => panic!("expected a direct download"),
    }
}

#[test]
fn printed_links() {
    assert_eq!(link_lines(&sample_vid("v", None, None)), strings(&["v"]));
    assert_eq!(link_lines(&sample_vid("v", Some("a"), None)), strings(&["\nv", "a"]));
    assert_eq!(link_lines(&sample_vid("v", None, Some("s"))), strings(&["\nv", "s"]));
    assert_eq!(link_lines(&sample_vid("v", Some("a"), Some("s"))), strings(&["\nv", "a", "s"]));
}

#[test]
fn picker_helpers() {
    assert_eq!(rofi_args("Select anime: ", false), strings(&["-dmenu", "-i", "", "-p", "Select anime: "]));
    assert_eq!(rofi_args("p", true)[2], "-multi-select");
    assert_eq!(rofi_pick("3 Monster\n\n"), "3 Monster");
    assert_eq!(skim_pick(&strings(&["1", "2"])), "1\n2");
    assert_eq!(skim_pick(&strings(&[])), "");
}

// ---------------------------------------------------------------------------
// Text
// ---------------------------------------------------------------------------

#[test]
fn text_lines_and_numbers() {
    let ls: Vec<String> = lines_exec(&chars_of("a\r\nb\n\nc\r")).iter().map(|l| string_of(l)).collect();
    assert_eq!(ls, strings(&["a", "b", "", "c\r"]));
    assert_eq!(parse_u8(&chars_of("255")), Some(255));
    assert_eq!(parse_u8(&chars_of("256")), None);
    assert_eq!(parse_u8(&chars_of("+7")), Some(7));
    assert_eq!(parse_u8(&chars_of("+")), None);
    assert_eq!(parse_u8(&chars_of("-1")), None);
    let r = replace_all_exec(&chars_of("aaa"), &chars_of("aa"), &chars_of("b"));
    assert_eq!(string_of(&r), "ba");
}
