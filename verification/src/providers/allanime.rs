//! The allanime provider: query links, source decryption, and what is read
//! from its answers.

use crate::codec::{decode_hex, form_urlencode, form_urlencoded, hex_decode, HexError};
use crate::failure::Abort;
use crate::helpers::selection::{menu, Menu};
use crate::json::{as_items, as_text, as_unsigned, field, Json};
use crate::providers::streaming::{unquote, unquote_exec};
use crate::text::{
    chars_eq, chars_of, decimal, decimal_exec, extend, join, join_exec, lines, lines_exec,
    lemma_split_once_absent, occurs_at, parse_u8, parse_unsigned, replace_all, replace_all_exec,
    rsplit_once, rsplit_once_exec, split_once, split_once_exec, str_eq, string_of,
};
use vstd::prelude::*;
use vstd::string::StringSliceAdditionalSpecFns;
use vstd::utf8::{encode_utf8, is_char_boundary};

verus! {

/// The relative clock path that decrypted source links may hold.
pub open spec fn clock_path() -> Seq<char> {
    "/apivtwo/clock?id="@
}

/// The absolute clock endpoint that replaces `clock_path`.
pub open spec fn clock_url() -> Seq<char> {
    "https://allanime.day/apivtwo/clock.json?id="@
}

/// Each byte XOR-ed with 56 and read as the character with that code.
pub open spec fn unmask(bytes: Seq<u8>) -> Seq<char> {
    Seq::new(bytes.len(), |i: int| ((bytes[i] ^ 56u8) as char))
}

/// The link that an encrypted source holds, given its decoded bytes.
pub open spec fn decrypted_link(bytes: Seq<u8>) -> Seq<char> {
    replace_all(unmask(bytes), clock_path(), clock_url())
}

/// The bytes after the two-character prefix of an encrypted source.
pub open spec fn source_payload(source_url: &str) -> Seq<u8> {
    source_url.spec_bytes().subrange(2, source_url.spec_bytes().len() as int)
}

/// Decrypts a source link: drops the two-byte prefix, decodes the rest as
/// hexadecimal, XORs each byte with 56, and makes the clock path absolute.
/// A source whose third byte does not start a character is not accepted.
pub fn decrypt_allanime(source_url: &str) -> (r: Result<String, HexError>)
    requires
        is_char_boundary(source_url.spec_bytes(), 2),
    ensures
        r is Ok <==> hex_decode(source_payload(source_url)) is Ok,
        r matches Ok(link) ==> link@ == decrypted_link(
            hex_decode(source_payload(source_url))->Ok_0,
        ),
        r matches Err(e) ==> hex_decode(source_payload(source_url)) == Err::<Seq<u8>, HexError>(e),
{
    let (_, payload) = source_url.split_at(2);
    let bytes = match decode_hex(payload.as_bytes()) {
        Ok(b) => b,
        Err(e) => return Err(e),
    };
    let mut unmasked: Vec<char> = Vec::new();
    let mut i: usize = 0;
    while i < bytes.len()
        invariant
            i <= bytes@.len(),
            unmasked@ == unmask(bytes@).subrange(0, i as int),
        decreases bytes.len() - i,
    {
        let c = (bytes[i] ^ 56u8) as char;
        unmasked.push(c);
        i = i + 1;
    }
    assert(unmask(bytes@).subrange(0, bytes@.len() as int) == unmask(bytes@));
    let from = chars_of("/apivtwo/clock?id=");
    let to = chars_of("https://allanime.day/apivtwo/clock.json?id=");
    proof {
        reveal_strlit("/apivtwo/clock?id=");
    }
    let link = replace_all_exec(&unmasked, &from, &to);
    Ok(string_of(&link))
}


// ---------------------------------------------------------------------------
// Query links
// ---------------------------------------------------------------------------

/// The catalogue's query endpoint.
pub const ALLANIME_API: &'static str = "https://api.allanime.day/api";

/// The search query.
pub const SEARCH_GQL: &'static str = "query (\n        $search: SearchInput\n        $translationType: VaildTranslationTypeEnumType\n    ) {\n        shows(\n            search: $search\n            limit: 40\n            page: 1\n            translationType: $translationType\n        ) {\n            edges {\n                _id\n                name\n                englishName\n                availableEpisodes\n                availableEpisodesDetail\n            }\n        }\n    }";

/// The episode query.
pub const EPISODES_GQL: &'static str = "query ($showId: String!, $translationType: VaildTranslationTypeEnumType!, $episodeString: String!) {\n    episode(\n        showId: $showId\n        translationType: $translationType\n        episodeString: $episodeString\n    ) {\n        episodeString\n        sourceUrls\n        episodeInfo {\n            notes\n        }\n    }\n}";

/// The translation mode asked for: subtitled or dubbed.
pub open spec fn mode_text(sub: bool) -> Seq<char> {
    if sub {
        "sub"@
    } else {
        "dub"@
    }
}

/// `"sub"` or `"dub"`.
pub fn mode_of(sub: bool) -> (m: &'static str)
    ensures
        m@ == mode_text(sub),
{
    if sub {
        "sub"
    } else {
        "dub"
    }
}

/// A query link: the endpoint with the variables and the query, each
/// form-encoded from its UTF-8 bytes.
pub open spec fn query_link(variables: Seq<char>, gql: Seq<char>) -> Seq<char> {
    ALLANIME_API@ + "?variables="@ + form_urlencoded(encode_utf8(variables)) + "&query="@
        + form_urlencoded(encode_utf8(gql))
}

/// The variables of a search (the query text is placed as it is).
pub open spec fn search_variables(query: Seq<char>, mode: Seq<char>, sort_by_top: bool) -> Seq<
    char,
> {
    "{\"search\":{"@ + (if sort_by_top {
        "\"sortBy\":\"Top\","@
    } else {
        ""@
    }) + "\"allowAdult\":true,\"allowUnknown\":true,\"query\":\""@ + query
        + "\"},\"translationType\":\""@ + mode + "\"}"@
}

/// The variables of an episode lookup.
pub open spec fn episode_variables(id: Seq<char>, mode: Seq<char>, episode: Seq<char>) -> Seq<
    char,
> {
    "{\"showId\":\""@ + id + "\",\"translationType\":\""@ + mode + "\",\"episodeString\":\""@
        + episode + "\"}"@
}

/// Builds a query link from its variables and query.
fn query_link_exec(variables: &str, gql: &str) -> (r: String)
    ensures
        r@ == query_link(variables@, gql@),
{
    let mut link = String::new();
    link.append(ALLANIME_API);
    link.append("?variables=");
    let v = form_urlencode(variables.as_bytes());
    link.append(v.as_str());
    link.append("&query=");
    let q = form_urlencode(gql.as_bytes());
    link.append(q.as_str());
    link
}

/// The link that searches the catalogue for `query`.
pub fn search_link(query: &str, mode: &str, sort_by_top: bool) -> (r: String)
    ensures
        r@ == query_link(search_variables(query@, mode@, sort_by_top), SEARCH_GQL@),
{
    let mut variables = String::new();
    variables.append("{\"search\":{");
    if sort_by_top {
        variables.append("\"sortBy\":\"Top\",");
    } else {
        variables.append("");
    }
    variables.append("\"allowAdult\":true,\"allowUnknown\":true,\"query\":\"");
    variables.append(query);
    variables.append("\"},\"translationType\":\"");
    variables.append(mode);
    variables.append("\"}");
    query_link_exec(variables.as_str(), SEARCH_GQL)
}

/// The link that looks up the sources of one episode of a show.
pub fn episode_link(id: &str, episode_num: &str, mode: &str) -> (r: String)
    ensures
        r@ == query_link(episode_variables(id@, mode@, episode_num@), EPISODES_GQL@),
{
    let mut variables = String::new();
    variables.append("{\"showId\":\"");
    variables.append(id);
    variables.append("\",\"translationType\":\"");
    variables.append(mode);
    variables.append("\",\"episodeString\":\"");
    variables.append(episode_num);
    variables.append("\"}");
    query_link_exec(variables.as_str(), EPISODES_GQL)
}


// ---------------------------------------------------------------------------
// Search results
// ---------------------------------------------------------------------------

/// The shows a search answer lists.
pub open spec fn edges(data: Json) -> Option<Seq<Json>> {
    data.get("data"@).get("shows"@).get("edges"@).items()
}

/// The name a show is listed under: its English name, else its name.
pub open spec fn show_name(show: Json) -> Option<Seq<char>> {
    match show.get("englishName"@).text() {
        Some(n) => Some(n),
        None => show.get("name"@).text(),
    }
}

/// How many episodes a show has in the mode.
pub open spec fn show_count(show: Json, mode: Seq<char>) -> Option<u64> {
    show.get("availableEpisodes"@).get(mode).unsigned()
}

/// The episode list of a show in the mode.
pub open spec fn show_episode_list(show: Json, mode: Seq<char>) -> Option<Seq<Json>> {
    show.get("availableEpisodesDetail"@).get(mode).items()
}

/// Every element is text.
pub open spec fn all_text(items: Seq<Json>) -> bool {
    forall|k: int| 0 <= k < items.len() ==> (#[trigger] items[k]).text() is Some
}

/// What stops the program when a show is read, if anything.
pub open spec fn show_fault(show: Json, mode: Seq<char>) -> Option<Abort> {
    if show.get("_id"@).text() is None {
        Some(Abort::MissingId)
    } else if show_count(show, mode) is None {
        Some(Abort::MissingEpisodeCount)
    } else if show_name(show) is None {
        Some(Abort::MissingName)
    } else if show_episode_list(show, mode) is Some && !all_text(
        show_episode_list(show, mode)->Some_0,
    ) {
        Some(Abort::EpisodeNotText)
    } else {
        None
    }
}

/// The first fault among the shows from position `i` on.
pub open spec fn first_fault(shows: Seq<Json>, mode: Seq<char>, i: int) -> Option<Abort>
    decreases shows.len() - i,
{
    if i < 0 || i >= shows.len() {
        None
    } else {
        match show_fault(shows[i], mode) {
            Some(a) => Some(a),
            None => first_fault(shows, mode, i + 1),
        }
    }
}

/// The menu line of a show: its position, name and episode count.
pub open spec fn listing_line(i: nat, name: Seq<char>, count: u64) -> Seq<char> {
    decimal(i) + " "@ + name + " ("@ + decimal(count as nat) + " Episodes)"@
}

/// The menu lines of all shows.
pub open spec fn listing_lines(shows: Seq<Json>, mode: Seq<char>) -> Seq<Seq<char>> {
    Seq::new(
        shows.len(),
        |k: int|
            listing_line(k as nat, show_name(shows[k])->Some_0, show_count(shows[k], mode)->Some_0),
    )
}

/// An episode list as the menu offers it: last first, quotes removed.
pub open spec fn episode_texts(items: Seq<Json>) -> Seq<Seq<char>> {
    Seq::new(items.len(), |k: int| unquote(items[items.len() - 1 - k].text()->Some_0))
}

/// The episode lists of the shows that have one, in order.
pub open spec fn kept_lists(shows: Seq<Json>, mode: Seq<char>) -> Seq<Seq<Seq<char>>>
    decreases shows.len(),
{
    if shows.len() == 0 {
        Seq::empty()
    } else {
        let rest = kept_lists(shows.drop_last(), mode);
        match show_episode_list(shows.last(), mode) {
            Some(items) => rest.push(episode_texts(items)),
            None => rest,
        }
    }
}

/// The episode list kept for each show is the one that the search answer
/// gives under the asked mode (`availableEpisodesDetail[mode]`), last
/// first and unquoted, whatever it gives under another mode.
pub proof fn lemma_kept_lists_follow_mode(shows: Seq<Json>, mode: Seq<char>)
    requires
        forall|k: int|
            0 <= k < shows.len() ==> (#[trigger] shows[k]).get("availableEpisodesDetail"@).get(
                mode,
            ).items() is Some,
    ensures
        kept_lists(shows, mode) == Seq::new(
            shows.len(),
            |k: int|
                episode_texts(
                    shows[k].get("availableEpisodesDetail"@).get(mode).items()->Some_0,
                ),
        ),
    decreases shows.len(),
{
    if shows.len() > 0 {
        let init = shows.drop_last();
        assert forall|k: int| 0 <= k < init.len() implies (#[trigger] init[k]).get(
            "availableEpisodesDetail"@,
        ).get(mode).items() is Some by {
            assert(init[k] == shows[k]);
        }
        lemma_kept_lists_follow_mode(init, mode);
        assert(shows.last() == shows[shows.len() - 1]);
        assert(kept_lists(shows, mode) =~= Seq::new(
            shows.len(),
            |k: int|
                episode_texts(
                    shows[k].get("availableEpisodesDetail"@).get(mode).items()->Some_0,
                ),
        ));
    }
}

/// The view of a list of lists of strings.
pub open spec fn lists_view(v: Seq<Vec<String>>) -> Seq<Seq<Seq<char>>> {
    v.map_values(|l: Vec<String>| l@.map_values(|s: String| s@))
}

/// What a search answer lists: the menu text, each show's id, and the
/// episode lists of the shows that have one.
pub struct Shows {
    pub listing: String,
    pub ids: Vec<String>,
    pub episodes: Vec<Vec<String>>,
}

/// Why a search answer gave no menu.
#[derive(Debug)]
pub enum ShowsError {
    /// The search found nothing.
    NoResult,
    /// The program stops.
    Abort(Abort),
}

/// The episodes of one show, last first, quotes removed; nothing if one of
/// them is not text.
fn episode_texts_exec(items: &Vec<Json>) -> (r: Option<Vec<String>>)
    ensures
        r is Some <==> all_text(items@),
        r matches Some(l) ==> l@.map_values(|s: String| s@) == episode_texts(items@),
{
    let n = items.len();
    let mut out: Vec<String> = Vec::new();
    let mut k: usize = 0;
    while k < n
        invariant
            n == items@.len(),
            k <= n,
            out@.len() == k,
            forall|j: int| 0 <= j < k ==> (#[trigger] out@[j])@ == episode_texts(items@)[j],
            forall|j: int| n - k <= j < n ==> (#[trigger] items@[j]).text() is Some,
        decreases n - k,
    {
        match as_text(Some(&items[n - 1 - k])) {
            None => {
                assert(!all_text(items@)) by {
                    assert(items@[n - 1 - k].text() is None);
                }
                return None;
            },
            Some(t) => {
                out.push(unquote_exec(t));
            },
        }
        k = k + 1;
    }
    assert(all_text(items@)) by {
        assert forall|j: int| 0 <= j < items@.len() implies (#[trigger] items@[j]).text() is Some by {
            assert(n - k <= j);
        }
    }
    assert(out@.map_values(|s: String| s@) == episode_texts(items@));
    Some(out)
}

/// Reads a search answer: the menu lines `"{i} {name} ({count} Episodes)"`
/// joined by newlines, the ids, and the episode lists; the program stops
/// at the first show that lacks what it needs.
pub fn read_shows(data: &Json, mode: &str) -> (r: Result<Shows, ShowsError>)
    ensures
        match edges(*data) {
            None => r matches Ok(out) && out.listing@.len() == 0 && out.ids@.len() == 0
                && out.episodes@.len() == 0,
            Some(shows) => if shows.len() == 0 {
                r matches Err(ShowsError::NoResult)
            } else {
                match first_fault(shows, mode@, 0) {
                    Some(a) => r matches Err(ShowsError::Abort(b)) && a == b,
                    None => r matches Ok(out) && out.ids@.map_values(|s: String| s@) == Seq::new(
                        shows.len(),
                        |k: int| shows[k].get("_id"@).text()->Some_0,
                    ) && out.listing@ == join(listing_lines(shows, mode@), "\n"@) && lists_view(
                        out.episodes@,
                    ) == kept_lists(shows, mode@),
                }
            },
        },
{
    let shows = match as_items(field(field(field(Some(data), "data"), "shows"), "edges")) {
        None => {
            return Ok(Shows { listing: String::new(), ids: Vec::new(), episodes: Vec::new() });
        },
        Some(s) => s,
    };
    if shows.len() == 0 {
        return Err(ShowsError::NoResult);
    }
    let ghost sv = shows@;
    let ghost m = mode@;
    let mut ids: Vec<String> = Vec::new();
    let mut lines: Vec<Vec<char>> = Vec::new();
    let mut episodes: Vec<Vec<String>> = Vec::new();
    let mut i: usize = 0;
    while i < shows.len()
        invariant
            sv == shows@,
            m == mode@,
            edges(*data) == Some(sv),
            sv.len() > 0,
            i <= sv.len(),
            first_fault(sv, m, 0) == first_fault(sv, m, i as int),
            forall|k: int| 0 <= k < i ==> show_fault(#[trigger] sv[k], m) is None,
            ids@.len() == i,
            forall|k: int| 0 <= k < i ==> (#[trigger] ids@[k])@ == sv[k].get("_id"@).text()->Some_0,
            lines@.len() == i,
            forall|k: int| 0 <= k < i ==> (#[trigger] lines@[k])@ == listing_lines(sv, m)[k],
            lists_view(episodes@) == kept_lists(sv.subrange(0, i as int), m),
        decreases sv.len() - i,
    {
        let show = &shows[i];
        assert(first_fault(sv, m, i as int) == (match show_fault(sv[i as int], m) {
            Some(a) => Some(a),
            None => first_fault(sv, m, i + 1),
        }));
        let id = match as_text(field(Some(show), "_id")) {
            None => return Err(ShowsError::Abort(Abort::MissingId)),
            Some(x) => x.clone(),
        };
        let count = match as_unsigned(field(field(Some(show), "availableEpisodes"), mode)) {
            None => return Err(ShowsError::Abort(Abort::MissingEpisodeCount)),
            Some(c) => c,
        };
        let name = match as_text(field(Some(show), "englishName")) {
            Some(n) => n,
            None => match as_text(field(Some(show), "name")) {
                None => return Err(ShowsError::Abort(Abort::MissingName)),
                Some(n) => n,
            },
        };
        let ghost before = episodes@;
        let list = as_items(field(field(Some(show), "availableEpisodesDetail"), mode));
        match list {
            Some(items) => {
                match episode_texts_exec(items) {
                    None => return Err(ShowsError::Abort(Abort::EpisodeNotText)),
                    Some(texts) => {
                        episodes.push(texts);
                    },
                }
            },
            None => {},
        }
        let mut line = decimal_exec(i as u64);
        extend(&mut line, &chars_of(" "));
        extend(&mut line, &chars_of(name.as_str()));
        extend(&mut line, &chars_of(" ("));
        extend(&mut line, &decimal_exec(count));
        extend(&mut line, &chars_of(" Episodes)"));
        ids.push(id);
        lines.push(line);
        proof {
            let pre = sv.subrange(0, i + 1);
            assert(pre.drop_last() == sv.subrange(0, i as int));
            assert(pre.last() == sv[i as int]);
            assert(lists_view(episodes@) == kept_lists(pre, m));
        }
        i = i + 1;
    }
    let nl = chars_of("\n");
    let joined = join_exec(&lines, &nl);
    assert(lines@.map_values(|l: Vec<char>| l@) == listing_lines(sv, m));
    assert(ids@.map_values(|s: String| s@) == Seq::new(
        sv.len(),
        |k: int| sv[k].get("_id"@).text()->Some_0,
    ));
    assert(sv.subrange(0, sv.len() as int) == sv);
    Ok(Shows { listing: string_of(&joined), ids, episodes })
}


// ---------------------------------------------------------------------------
// Choosing a show
// ---------------------------------------------------------------------------

/// The show picked from the menu: its position, id and name, its episodes
/// joined into a menu, and the lines of that menu.
pub struct Chosen {
    pub index: u8,
    pub id: String,
    pub anime_name: String,
    pub episode_menu: String,
    pub episodes: Vec<String>,
}

/// Why a picked menu line gave no show.
#[derive(Debug)]
pub enum ChooseError {
    /// The program stops.
    Abort(Abort),
    /// The number before the first space is not a `u8`; holds that text.
    BadIndex(String),
}

/// The view of a list of strings.
pub open spec fn strings_view(v: Seq<String>) -> Seq<Seq<char>> {
    v.map_values(|s: String| s@)
}

/// Reads the menu line `selected`: the number before the first space picks
/// the show, and the name is what follows it up to the last ` (`.
pub fn choose_show(selected: &str, ids: &Vec<String>, episodes: &Vec<Vec<String>>) -> (r: Result<
    Chosen,
    ChooseError,
>)
    ensures
        match split_once(selected@, " "@) {
            None => r matches Err(ChooseError::Abort(Abort::SelectionNotSplit)),
            Some(parts) => match rsplit_once(parts.1, " ("@) {
                None => r matches Err(ChooseError::Abort(Abort::SelectionWithoutCount)),
                Some(named) => match parse_unsigned(parts.0, 255) {
                    None => r matches Err(ChooseError::BadIndex(t)) && t@ == parts.0,
                    Some(n) => if n >= ids@.len() {
                        r matches Err(ChooseError::Abort(Abort::ShowOutOfRange))
                    } else if n >= episodes@.len() {
                        r matches Err(ChooseError::Abort(Abort::EpisodesOutOfRange))
                    } else {
                        r matches Ok(c) && c.index == n && c.id@ == ids@[n as int]@
                            && c.anime_name@ == named.0 && c.episode_menu@ == join(
                            strings_view(episodes@[n as int]@),
                            "\n"@,
                        ) && strings_view(c.episodes@) == lines(c.episode_menu@)
                    },
                },
            },
        },
{
    let sel = chars_of(selected);
    let (index_text, rest) = match split_once_exec(&sel, &chars_of(" ")) {
        None => return Err(ChooseError::Abort(Abort::SelectionNotSplit)),
        Some(p) => p,
    };
    let name = match rsplit_once_exec(&rest, &chars_of(" (")) {
        None => return Err(ChooseError::Abort(Abort::SelectionWithoutCount)),
        Some(p) => p.0,
    };
    let n = match parse_u8(&index_text) {
        None => return Err(ChooseError::BadIndex(string_of(&index_text))),
        Some(n) => n,
    };
    let i = n as usize;
    if i >= ids.len() {
        return Err(ChooseError::Abort(Abort::ShowOutOfRange));
    }
    if i >= episodes.len() {
        return Err(ChooseError::Abort(Abort::EpisodesOutOfRange));
    }
    let list = &episodes[i];
    let mut parts: Vec<Vec<char>> = Vec::new();
    let mut k: usize = 0;
    while k < list.len()
        invariant
            k <= list@.len(),
            parts@.len() == k,
            forall|j: int| 0 <= j < k ==> (#[trigger] parts@[j])@ == list@[j]@,
        decreases list.len() - k,
    {
        parts.push(chars_of(list[k].as_str()));
        k = k + 1;
    }
    assert(parts@.map_values(|p: Vec<char>| p@) == strings_view(list@));
    let menu = join_exec(&parts, &chars_of("\n"));
    let ls = lines_exec(&menu);
    let mut eps: Vec<String> = Vec::new();
    let mut j: usize = 0;
    while j < ls.len()
        invariant
            j <= ls@.len(),
            eps@.len() == j,
            forall|t: int| 0 <= t < j ==> (#[trigger] eps@[t])@ == ls@[t]@,
        decreases ls.len() - j,
    {
        eps.push(string_of(&ls[j]));
        j = j + 1;
    }
    assert(strings_view(eps@) == lines(menu@));
    Ok(Chosen {
        index: n,
        id: ids[i].clone(),
        anime_name: string_of(&name),
        episode_menu: string_of(&menu),
        episodes: eps,
    })
}

// ---------------------------------------------------------------------------
// Episode answers
// ---------------------------------------------------------------------------

/// The number a source name carries (0 for names that are not used):
/// Ak 1, Default 2, S-mp4 3, Sak 4, Luf-mp4 5.
pub open spec fn source_number(name: Seq<char>) -> u8 {
    if name == "Ak"@ {
        1
    } else if name == "Default"@ {
        2
    } else if name == "S-mp4"@ {
        3
    } else if name == "Sak"@ {
        4
    } else if name == "Luf-mp4"@ {
        5
    } else {
        0
    }
}

/// The number of a source name.
pub fn source_number_exec(name: &str) -> (n: u8)
    ensures
        n == source_number(name@),
{
    if str_eq(name, "Ak") {
        1
    } else if str_eq(name, "Default") {
        2
    } else if str_eq(name, "S-mp4") {
        3
    } else if str_eq(name, "Sak") {
        4
    } else if str_eq(name, "Luf-mp4") {
        5
    } else {
        0
    }
}

/// The sources an episode answer lists.
pub open spec fn source_list(doc: Json) -> Option<Seq<Json>> {
    doc.get("data"@).get("episode"@).get("sourceUrls"@).items()
}

/// What decrypting an encrypted source gives.
pub open spec fn decrypt_outcome(url: Seq<char>) -> Result<Seq<char>, HexError> {
    let bytes = encode_utf8(url);
    match hex_decode(bytes.subrange(2, bytes.len() as int)) {
        Ok(b) => Ok(decrypted_link(b)),
        Err(e) => Err(e),
    }
}

/// The sources read from the first `n` entries: the numbers of the used
/// providers, the links that decrypted, and the decryption errors in order;
/// or what stops the program.
pub open spec fn sources_upto(items: Seq<Json>, n: int) -> Result<
    (Seq<u8>, Seq<Seq<char>>, Seq<HexError>),
    Abort,
>
    decreases n,
{
    if n <= 0 {
        Ok((Seq::empty(), Seq::empty(), Seq::empty()))
    } else {
        match sources_upto(items, n - 1) {
            Err(a) => Err(a),
            Ok(acc) => {
                let it = items[n - 1];
                match it.get("sourceName"@).text() {
                    None => Err(Abort::MissingSourceName),
                    Some(name) => match it.get("sourceUrl"@).text() {
                        None => Err(Abort::MissingSourceUrl),
                        Some(url) => if source_number(name) == 0 {
                            Ok(acc)
                        } else if !is_char_boundary(encode_utf8(url), 2) {
                            Err(Abort::SourceTooShort)
                        } else {
                            match decrypt_outcome(url) {
                                Ok(l) => Ok((acc.0.push(source_number(name)), acc.1.push(l), acc.2)),
                                Err(e) => Ok((acc.0.push(source_number(name)), acc.1, acc.2.push(e))),
                            }
                        },
                    },
                }
            },
        }
    }
}

/// Once reading the sources stops, it stays stopped.
pub proof fn lemma_sources_stop(items: Seq<Json>, k: int, n: int)
    requires
        k <= n,
        sources_upto(items, k) is Err,
    ensures
        sources_upto(items, n) == sources_upto(items, k),
    decreases n - k,
{
    if k < n {
        lemma_sources_stop(items, k, n - 1);
    }
}

/// The sources of an episode: provider numbers, decrypted links, and the
/// decryption errors to report.
pub struct Sources {
    pub names: Vec<u8>,
    pub urls: Vec<String>,
    pub errors: Vec<HexError>,
}

/// Reads the sources of an episode answer, keeping those of the five used
/// providers. A source that does not decrypt keeps its provider number but
/// adds no link; its error is reported.
pub fn read_sources(doc: &Json) -> (r: Result<Sources, Abort>)
    ensures
        match source_list(*doc) {
            None => r matches Ok(s) && s.names@.len() == 0 && s.urls@.len() == 0
                && s.errors@.len() == 0,
            Some(items) => match sources_upto(items, items.len() as int) {
                Err(a) => r == Err::<Sources, Abort>(a),
                Ok(acc) => r matches Ok(s) && s.names@ == acc.0 && strings_view(s.urls@)
                    == acc.1 && s.errors@ == acc.2,
            },
        },
{
    let items = match as_items(field(field(field(Some(doc), "data"), "episode"), "sourceUrls")) {
        None => return Ok(Sources { names: Vec::new(), urls: Vec::new(), errors: Vec::new() }),
        Some(items) => items,
    };
    let mut names: Vec<u8> = Vec::new();
    let mut urls: Vec<String> = Vec::new();
    let mut errors: Vec<HexError> = Vec::new();
    let mut i: usize = 0;
    assert(strings_view(urls@) == Seq::<Seq<char>>::empty());
    while i < items.len()
        invariant
            source_list(*doc) == Some(items@),
            i <= items@.len(),
            sources_upto(items@, i as int) == Ok::<(Seq<u8>, Seq<Seq<char>>, Seq<HexError>), Abort>(
                (names@, strings_view(urls@), errors@),
            ),
        decreases items.len() - i,
    {
        let it = Some(&items[i]);
        let ghost old_urls = urls@;
        let name = match as_text(field(it, "sourceName")) {
            None => {
                proof {
                    lemma_sources_stop(items@, i + 1, items@.len() as int);
                }
                return Err(Abort::MissingSourceName);
            },
            Some(n) => n,
        };
        let url = match as_text(field(it, "sourceUrl")) {
            None => {
                proof {
                    lemma_sources_stop(items@, i + 1, items@.len() as int);
                }
                return Err(Abort::MissingSourceUrl);
            },
            Some(u) => u,
        };
        let num = source_number_exec(name.as_str());
        if num != 0 {
            if !url.as_str().is_char_boundary(2) {
                proof {
                    lemma_sources_stop(items@, i + 1, items@.len() as int);
                }
                return Err(Abort::SourceTooShort);
            }
            match decrypt_allanime(url.as_str()) {
                Ok(link) => {
                    urls.push(link);
                    assert(strings_view(urls@) == strings_view(old_urls).push(link@));
                },
                Err(e) => {
                    errors.push(e);
                },
            }
            names.push(num);
        }
        i = i + 1;
    }
    Ok(Sources { names, urls, errors })
}

/// The text after `"<note-split>"` removed from episode notes.
pub open spec fn note_title(notes: Seq<char>) -> Seq<char> {
    match split_once(notes, "<note-split>"@) {
        Some(p) => p.0,
        None => notes,
    }
}

/// The title of an episode: with its own title when the notes give one
/// other than `Untitled`; with the episode number unless the show has a
/// single episode and no notes.
pub open spec fn episode_title_spec(
    anime_name: Seq<char>,
    ep: Seq<char>,
    notes: Option<Seq<char>>,
    total: u16,
) -> Seq<char> {
    match notes {
        Some(n) => if note_title(n) != "Untitled"@ {
            anime_name + " Episode "@ + ep + " - "@ + note_title(n)
        } else {
            anime_name + " Episode "@ + ep
        },
        None => if total > 1 {
            anime_name + " Episode "@ + ep
        } else {
            anime_name
        },
    }
}

/// Notes that hold no `<note-split>` are the episode's own title whole:
/// unless they read `Untitled`, the title is the show's name, ` Episode `,
/// the episode and ` - ` followed by the notes.
pub proof fn lemma_plain_notes_title(
    anime_name: Seq<char>,
    ep: Seq<char>,
    notes: Seq<char>,
    total: u16,
)
    requires
        forall|i: int| !occurs_at(notes, "<note-split>"@, i),
        notes != "Untitled"@,
    ensures
        episode_title_spec(anime_name, ep, Some(notes), total) == anime_name + " Episode "@ + ep
            + " - "@ + notes,
{
    lemma_split_once_absent(notes, "<note-split>"@);
}

/// The notes of an episode answer.
pub open spec fn episode_notes(doc: Json) -> Option<Seq<char>> {
    doc.get("data"@).get("episode"@).get("episodeInfo"@).get("notes"@).text()
}

/// The title of episode `ep` of `anime_name`, from an episode answer.
pub fn episode_title(anime_name: &str, ep: &str, doc: &Json, total: u16) -> (t: String)
    ensures
        t@ == episode_title_spec(anime_name@, ep@, episode_notes(*doc), total),
{
    let notes = as_text(
        field(field(field(field(Some(doc), "data"), "episode"), "episodeInfo"), "notes"),
    );
    let mut v = chars_of(anime_name);
    match notes {
        Some(n) => {
            let nc = chars_of(n.as_str());
            let title = match split_once_exec(&nc, &chars_of("<note-split>")) {
                Some(p) => p.0,
                None => nc,
            };
            extend(&mut v, &chars_of(" Episode "));
            extend(&mut v, &chars_of(ep));
            if !chars_eq(&title, &chars_of("Untitled")) {
                extend(&mut v, &chars_of(" - "));
                extend(&mut v, &title);
            }
        },
        None => {
            if total > 1 {
                extend(&mut v, &chars_of(" Episode "));
                extend(&mut v, &chars_of(ep));
            }
        },
    }
    string_of(&v)
}


/// The menu of search results: one line is picked, with the prompt
/// `Select anime: `, in rofi exactly when rofi was asked for.
pub fn show_selection(listing: &str, is_rofi: bool) -> (m: Menu)
    ensures
        m.items@ == listing@,
        m.prompt@ == "Select anime: "@,
        !m.is_multi,
        m.is_not_rofi == !is_rofi,
{
    menu(listing, "Select anime: ", false, !is_rofi)
}

/// The menu of a show's episodes: several lines may be picked, with the
/// prompt `Select episode: `, in rofi exactly when rofi was asked for.
pub fn episode_selection(episode_menu: &str, is_rofi: bool) -> (m: Menu)
    ensures
        m.items@ == episode_menu@,
        m.prompt@ == "Select episode: "@,
        m.is_multi,
        m.is_not_rofi == !is_rofi,
{
    menu(episode_menu, "Select episode: ", true, !is_rofi)
}

/// The menu of what to do after playback: one line is picked, with the
/// prompt `Enter a choice: `, in rofi exactly when rofi was asked for.
pub fn choice_selection(select: &str, is_rofi: bool) -> (m: Menu)
    ensures
        m.items@ == select@,
        m.prompt@ == "Enter a choice: "@,
        !m.is_multi,
        m.is_not_rofi == !is_rofi,
{
    menu(select, "Enter a choice: ", false, !is_rofi)
}

} // verus!
