//! Resolving the stream of one episode: the providers are tried in turn,
//! each fetched document is read the way its provider lays it out, and
//! the search stops at the first video link.
//!
//! The fetching itself is done by the caller: `LinkSearch::next` says
//! what to fetch, `on_document` and `on_playlist` take what came back.

use crate::failure::{Abort, Failure};
use crate::json::{as_items, as_text, as_unsigned, element, field, Json};
use crate::pattern::{
    captures, compile, group, group_views, regex_captures, regex_compiles, regex_error,
};
use crate::text::{
    chars_of, concat, decimal, decimal_exec, extend, lemma_rsplit_once_last_slash, lines,
    lines_exec, rsplit_once, rsplit_once_exec, string_of, trim_any, trim_any_exec,
};
use crate::Vid;
use vstd::prelude::*;

verus! {

// ---------------------------------------------------------------------------
// Provider order
// ---------------------------------------------------------------------------

/// The provider tried after `p`: 1, 2, 3, 4, 5, then 1 again.
pub open spec fn next_provider(p: u8) -> u8 {
    (p % 5 + 1) as u8
}

/// Where the search stops, from provider `p` at attempt `count`: at the
/// first provider that has a source, or after the fifth attempt.
pub open spec fn seek(names: Seq<u8>, p: u8, count: u8) -> (u8, u8)
    decreases 5 - count,
{
    if count >= 5 || names.contains(p) {
        (p, count)
    } else {
        seek(names, next_provider(p), (count + 1) as u8)
    }
}

/// The provider chosen to start with is tried first when it has a source.
pub proof fn lemma_chosen_provider_first(names: Seq<u8>, p: u8)
    requires
        names.contains(p),
    ensures
        seek(names, p, 0) == (p, 0u8),
{
}

/// Starting from any provider, five attempts visit all five providers: if
/// any of them has a source, the search reaches one of them.
pub proof fn lemma_seek_reaches_a_source(names: Seq<u8>, p: u8, q: u8)
    requires
        1 <= p <= 5,
        1 <= q <= 5,
        names.contains(q),
    ensures
        seek(names, p, 0).1 < 5,
        names.contains(seek(names, p, 0).0),
{
    let p1 = next_provider(p);
    let p2 = next_provider(p1);
    let p3 = next_provider(p2);
    let p4 = next_provider(p3);
    assert(q == p || q == p1 || q == p2 || q == p3 || q == p4);
    reveal_with_fuel(seek, 6);
}

/// The position of the first source of provider `p` at or after `i`
/// (`names.len()` if there is none).
pub open spec fn position_of(names: Seq<u8>, p: u8, i: int) -> int
    decreases names.len() - i,
{
    if i < 0 || i >= names.len() {
        names.len() as int
    } else if names[i] == p {
        i
    } else {
        position_of(names, p, i + 1)
    }
}

// ---------------------------------------------------------------------------
// Reading provider documents
// ---------------------------------------------------------------------------

/// What a provider document (or playlist) does to the search.
pub enum Update {
    /// The video fields and quality become these; the next provider follows.
    Fields {
        link: Seq<char>,
        audio: Option<Seq<char>>,
        subtitle: Option<Seq<char>>,
        quality: u16,
    },
    /// The playlist at this link must be fetched first.
    Playlist(Seq<char>),
    /// This pattern, built from the quality, did not compile.
    BadPattern(Seq<char>),
    /// The program stops.
    Stop(Abort),
}

/// `links[0]` of a provider document.
pub open spec fn first_link(doc: Json) -> Json {
    doc.get("links"@).at(0)
}

/// `s` without surrounding double quotes.
pub open spec fn unquote(s: Seq<char>) -> Seq<char> {
    trim_any(s, seq!['"'])
}

/// The first video at or after `i` whose height is `q`.
pub open spec fn height_match(vids: Seq<Json>, q: u16, i: int) -> Option<int>
    decreases vids.len() - i,
{
    if i < 0 || i >= vids.len() {
        None
    } else if vids[i].get("height"@).unsigned() == Some(q as u64) {
        Some(i)
    } else {
        height_match(vids, q, i + 1)
    }
}

/// The video provider Ak is asked for: the first of height `q`, if a
/// quality was asked for.
pub open spec fn ak_pick(vids: Seq<Json>, q: u16) -> Option<int> {
    if q != 0 {
        height_match(vids, q, 0)
    } else {
        None
    }
}

/// Provider Ak has a video of the asked height but no link for it (a
/// warning is printed then).
pub open spec fn ak_warns(doc: Json, q: u16) -> bool {
    match first_link(doc).get("rawUrls"@).get("vids"@).items() {
        Some(vids) => match ak_pick(vids, q) {
            Some(k) => vids[k].get("url"@).text() is None,
            None => false,
        },
        None => false,
    }
}

/// Provider Ak: the video of the asked height, else the first video, with
/// the first audio track and the first subtitle.
pub open spec fn ak_update(
    doc: Json,
    q: u16,
    link: Seq<char>,
    audio: Option<Seq<char>>,
    subtitle: Option<Seq<char>>,
) -> Update {
    match first_link(doc).get("rawUrls"@).get("vids"@).items() {
        None => Update::Fields { link, audio, subtitle, quality: q },
        Some(vids) => {
            let picked = match ak_pick(vids, q) {
                Some(k) => vids[k].get("url"@).text(),
                None => None,
            };
            let link1 = match picked {
                Some(u) => u,
                None => link,
            };
            if link1.len() == 0 && vids.len() == 0 {
                Update::Stop(Abort::NoAkVideos)
            } else if link1.len() == 0 && vids[0].get("url"@).text() is None {
                Update::Stop(Abort::MissingAkVideo)
            } else {
                let link2 = if link1.len() == 0 {
                    vids[0].get("url"@).text()->Some_0
                } else {
                    link1
                };
                match first_link(doc).get("rawUrls"@).get("audios"@).at(0).get("url"@).text() {
                    None => Update::Stop(Abort::MissingAkAudio),
                    Some(a) => match first_link(doc).get("subtitles"@).at(0).get("src"@).text() {
                        None => Update::Stop(Abort::MissingAkSubtitle),
                        Some(s) => Update::Fields {
                            link: unquote(link2),
                            audio: Some(unquote(a)),
                            subtitle: Some(unquote(s)),
                            quality: q,
                        },
                    },
                }
            }
        },
    }
}

/// The wixmp link pattern for a height.
pub open spec fn wixmp_pattern(q: u16) -> Seq<char> {
    "https://repackager.wixmp.com/(.*/)[^/]*"@ + decimal(q as nat) + "p[^/]*(/mp4/file\\.mp4)"@
}

/// The wixmp link pattern that takes whatever height the link offers.
pub open spec fn wixmp_fallback() -> Seq<char> {
    "https://repackager.wixmp.com/(.*/)[^/]*,([0-9]*p),(/mp4/file\\.mp4)"@
}

/// Group `i` of a match, when it took part.
pub open spec fn group_at(g: Seq<Option<Seq<char>>>, i: int) -> Option<Seq<char>> {
    if 0 <= i < g.len() {
        g[i]
    } else {
        None
    }
}

/// The wixmp link for height `q` built from a match of `wixmp_pattern`:
/// `https://`, the path before the height, the height and `p`, and the
/// file part; nothing when one of those groups took no part.
pub open spec fn wixmp_link_spec(g: Seq<Option<Seq<char>>>, q: u16) -> Option<Seq<char>> {
    if group_at(g, 1) is Some && group_at(g, 2) is Some {
        Some("https://"@ + group_at(g, 1)->Some_0 + decimal(q as nat) + "p"@ + group_at(g, 2)->Some_0)
    } else {
        None
    }
}

/// The wixmp link built from a match of `wixmp_fallback`: `https://`
/// followed by the path, the offered height and the file part.
pub open spec fn wixmp_fallback_link_spec(g: Seq<Option<Seq<char>>>) -> Option<Seq<char>> {
    if group_at(g, 1) is Some && group_at(g, 2) is Some && group_at(g, 3) is Some {
        Some("https://"@ + group_at(g, 1)->Some_0 + group_at(g, 2)->Some_0 + group_at(g, 3)->Some_0)
    } else {
        None
    }
}

/// The playlist entry a match of `episode_pattern` found.
pub open spec fn playlist_entry_spec(g: Seq<Option<Seq<char>>>) -> Option<Seq<char>> {
    group_at(g, 1)
}

/// The quality that the Default provider uses: 1080 when none or more was
/// asked for.
pub open spec fn capped_quality(q: u16) -> u16 {
    if q == 0 || q > 1080 {
        1080
    } else {
        q
    }
}

/// Provider Default: the wixmp link rewritten to the asked height, else to
/// the height it offers.
pub open spec fn default_update(
    doc: Json,
    q: u16,
    link: Seq<char>,
    audio: Option<Seq<char>>,
    subtitle: Option<Seq<char>>,
) -> Update {
    match first_link(doc).get("link"@).text() {
        None => Update::Fields { link, audio, subtitle, quality: q },
        Some(src) => {
            let q2 = capped_quality(q);
            let pat = wixmp_pattern(q2);
            if !regex_compiles(pat) {
                Update::BadPattern(pat)
            } else {
                let direct = regex_captures(pat, src);
                if direct is Some && wixmp_link_spec(direct->Some_0, q2) is None {
                    Update::Stop(Abort::CaptureGroupMissing)
                } else {
                    let link1 = match direct {
                        Some(g) => wixmp_link_spec(g, q2)->Some_0,
                        None => link,
                    };
                    if link1.len() > 0 {
                        Update::Fields { link: link1, audio, subtitle, quality: q2 }
                    } else if !regex_compiles(wixmp_fallback()) {
                        Update::Stop(Abort::WixmpPatternInvalid)
                    } else {
                        match regex_captures(wixmp_fallback(), src) {
                            None => Update::Stop(Abort::WixmpNoMatch),
                            Some(g) => match wixmp_fallback_link_spec(g) {
                                Some(l) => Update::Fields { link: l, audio, subtitle, quality: q2 },
                                None => Update::Stop(Abort::CaptureGroupMissing),
                            },
                        }
                    }
                }
            }
        },
    }
}

/// Providers S-mp4 and Sak: the link as given (empty if there is none).
pub open spec fn plain_update(
    doc: Json,
    q: u16,
    audio: Option<Seq<char>>,
    subtitle: Option<Seq<char>>,
) -> Update {
    let link = match first_link(doc).get("link"@).text() {
        Some(l) => l,
        None => Seq::empty(),
    };
    Update::Fields { link, audio, subtitle, quality: q }
}

/// What a document of provider `p` does to the search.
pub open spec fn document_update(
    p: u8,
    doc: Json,
    q: u16,
    link: Seq<char>,
    audio: Option<Seq<char>>,
    subtitle: Option<Seq<char>>,
) -> Update {
    if p == 1 {
        ak_update(doc, q, link, audio, subtitle)
    } else if p == 2 {
        default_update(doc, q, link, audio, subtitle)
    } else if p == 3 || p == 4 {
        plain_update(doc, q, audio, subtitle)
    } else {
        match first_link(doc).get("link"@).text() {
            None => Update::Fields { link, audio, subtitle, quality: q },
            Some(src) => Update::Playlist(src),
        }
    }
}

/// The playlist entry pattern for a height.
pub open spec fn episode_pattern(q: u16) -> Seq<char> {
    "(ep\\..*\\."@ + decimal(q as nat) + "\\.m3u8)"@
}

/// A playlist: the entry of the asked height, else (with no link yet) the
/// last line, placed next to the playlist link.
pub open spec fn playlist_update(
    base: Seq<char>,
    text: Seq<char>,
    q: u16,
    link: Seq<char>,
    audio: Option<Seq<char>>,
    subtitle: Option<Seq<char>>,
) -> Update {
    if q != 0 && !regex_compiles(episode_pattern(q)) {
        Update::BadPattern(episode_pattern(q))
    } else {
        let caps = if q != 0 {
            regex_captures(episode_pattern(q), text)
        } else {
            None
        };
        if caps is Some && playlist_entry_spec(caps->Some_0) is None {
            Update::Stop(Abort::CaptureGroupMissing)
        } else {
            let m1 = match caps {
                Some(g) => playlist_entry_spec(g)->Some_0,
                None => Seq::empty(),
            };
            let ls = lines(text);
            if link.len() == 0 && m1.len() == 0 && ls.len() == 0 {
                Update::Stop(Abort::EmptyPlaylist)
            } else {
                let m2 = if link.len() == 0 && m1.len() == 0 {
                    ls.last()
                } else {
                    m1
                };
                match rsplit_once(base, "/"@) {
                    None => Update::Stop(Abort::LinkWithoutSlash),
                    Some(parts) => Update::Fields {
                        link: parts.0 + "/"@ + m2,
                        audio,
                        subtitle,
                        quality: q,
                    },
                }
            }
        }
    }
}

/// A playlist with no entry of the asked height (or read with no height
/// asked), while no link is known yet, gives its last line, placed in the
/// directory of the playlist's own link, whatever the height asked.
pub proof fn lemma_playlist_falls_back_to_last_line(
    dir: Seq<char>,
    file: Seq<char>,
    text: Seq<char>,
    q: u16,
    audio: Option<Seq<char>>,
    subtitle: Option<Seq<char>>,
)
    requires
        !file.contains('/'),
        lines(text).len() > 0,
        q == 0 || (regex_compiles(episode_pattern(q)) && regex_captures(episode_pattern(q), text)
            is None),
    ensures
        playlist_update(dir + "/"@ + file, text, q, Seq::empty(), audio, subtitle) == (Update::Fields {
            link: dir + "/"@ + lines(text).last(),
            audio,
            subtitle,
            quality: q,
        }),
{
    lemma_rsplit_once_last_slash(dir, file);
}

/// The view of an optional string.
pub open spec fn opt_view(o: Option<String>) -> Option<Seq<char>> {
    match o {
        Some(s) => Some(s@),
        None => None,
    }
}


// ---------------------------------------------------------------------------
// Readers
// ---------------------------------------------------------------------------

/// What reading a document or playlist gave.
pub enum Reading {
    Fields { link: String, audio: Option<String>, subtitle: Option<String>, quality: u16 },
    Playlist(String),
    Fail(Failure),
}

/// `r` is what the specification `u` describes.
pub open spec fn reading_agrees(r: Reading, u: Update) -> bool {
    match u {
        Update::Fields { link, audio, subtitle, quality } => r matches Reading::Fields {
            link: l,
            audio: a,
            subtitle: s,
            quality: q,
        } && l@ == link && opt_view(a) == audio && opt_view(s) == subtitle && q == quality,
        Update::Playlist(src) => r matches Reading::Playlist(l) && l@ == src,
        Update::BadPattern(pat) => r matches Reading::Fail(Failure::InvalidPattern(m)) && m@
            == regex_error(pat),
        Update::Stop(a) => r matches Reading::Fail(Failure::Abort(b)) && a == b,
    }
}

/// A copy of an optional string.
pub fn copy_opt(o: &Option<String>) -> (r: Option<String>)
    ensures
        opt_view(r) == opt_view(*o),
{
    match o {
        Some(s) => Some(s.clone()),
        None => None,
    }
}

/// `s` without surrounding double quotes (`trim_matches('"')`).
pub fn unquote_exec(s: &String) -> (r: String)
    ensures
        r@ == unquote(s@),
{
    let quote: Vec<char> = vec!['"'];
    assert(quote@ == seq!['"']);
    let t = trim_any_exec(&chars_of(s.as_str()), &quote);
    string_of(&t)
}

/// The first video whose height is `q`.
fn find_height(vids: &Vec<Json>, q: u16) -> (r: Option<usize>)
    ensures
        match r {
            Some(k) => height_match(vids@, q, 0) == Some(k as int) && k < vids@.len(),
            None => height_match(vids@, q, 0) is None,
        },
{
    let mut i: usize = 0;
    while i < vids.len()
        invariant
            i <= vids@.len(),
            height_match(vids@, q, 0) == height_match(vids@, q, i as int),
        decreases vids.len() - i,
    {
        if as_unsigned(field(Some(&vids[i]), "height")) == Some(q as u64) {
            return Some(i);
        }
        i = i + 1;
    }
    None
}

/// `links[0]` of a document.
fn first_link_of(doc: &Json) -> (r: Option<&Json>)
    ensures
        crate::json::value_of(r) == first_link(*doc),
{
    element(field(Some(doc), "links"), 0)
}

/// Whether provider Ak has a video of height `q` without a link.
pub fn ak_warning(doc: &Json, q: u16) -> (r: bool)
    ensures
        r == ak_warns(*doc, q),
{
    let l0 = first_link_of(doc);
    match as_items(field(field(l0, "rawUrls"), "vids")) {
        None => false,
        Some(vids) => {
            if q == 0 {
                return false;
            }
            match find_height(vids, q) {
                Some(k) => as_text(field(Some(&vids[k]), "url")).is_none(),
                None => false,
            }
        },
    }
}

/// Reads a document of provider Ak.
pub fn ak_read(
    doc: &Json,
    q: u16,
    link: &String,
    audio: &Option<String>,
    subtitle: &Option<String>,
) -> (r: Reading)
    ensures
        reading_agrees(r, ak_update(*doc, q, link@, opt_view(*audio), opt_view(*subtitle))),
{
    let l0 = first_link_of(doc);
    let vids = match as_items(field(field(l0, "rawUrls"), "vids")) {
        None => {
            return Reading::Fields {
                link: link.clone(),
                audio: copy_opt(audio),
                subtitle: copy_opt(subtitle),
                quality: q,
            }
        },
        Some(v) => v,
    };
    let picked: Option<&String> = if q != 0 {
        match find_height(vids, q) {
            Some(k) => as_text(field(Some(&vids[k]), "url")),
            None => None,
        }
    } else {
        None
    };
    let link1: String = match picked {
        Some(u) => u.clone(),
        None => link.clone(),
    };
    let link2: String = if link1.as_str().is_empty() {
        if vids.len() == 0 {
            return Reading::Fail(Failure::Abort(Abort::NoAkVideos));
        }
        match as_text(field(Some(&vids[0]), "url")) {
            None => return Reading::Fail(Failure::Abort(Abort::MissingAkVideo)),
            Some(u) => u.clone(),
        }
    } else {
        link1
    };
    let a = match as_text(field(element(field(field(l0, "rawUrls"), "audios"), 0), "url")) {
        None => return Reading::Fail(Failure::Abort(Abort::MissingAkAudio)),
        Some(a) => a,
    };
    let s = match as_text(field(element(field(l0, "subtitles"), 0), "src")) {
        None => return Reading::Fail(Failure::Abort(Abort::MissingAkSubtitle)),
        Some(s) => s,
    };
    Reading::Fields {
        link: unquote_exec(&link2),
        audio: Some(unquote_exec(a)),
        subtitle: Some(unquote_exec(s)),
        quality: q,
    }
}

/// Group `i` of a match, as `group_at` reads it.
fn group_text(groups: &Vec<Option<String>>, i: usize) -> (r: Option<&String>)
    ensures
        match r {
            Some(t) => group_at(group_views(groups@), i as int) == Some(t@),
            None => group_at(group_views(groups@), i as int) is None,
        },
{
    let r = group(groups, i);
    proof {
        if i < groups@.len() {
            assert(group_views(groups@)[i as int] == (match groups@[i as int] {
                Some(t) => Some(t@),
                None => None,
            }));
        }
    }
    r
}

/// The wixmp link for height `q` from the groups of a `wixmp_pattern`
/// match.
pub fn wixmp_link(groups: &Vec<Option<String>>, q: u16) -> (r: Option<String>)
    ensures
        opt_view(r) == wixmp_link_spec(group_views(groups@), q),
{
    let g1 = match group_text(groups, 1) {
        None => return None,
        Some(x) => x,
    };
    let g2 = match group_text(groups, 2) {
        None => return None,
        Some(x) => x,
    };
    let mut v = chars_of("https://");
    extend(&mut v, &chars_of(g1.as_str()));
    extend(&mut v, &decimal_exec(q as u64));
    extend(&mut v, &chars_of("p"));
    extend(&mut v, &chars_of(g2.as_str()));
    Some(string_of(&v))
}

/// The wixmp link from the groups of a `wixmp_fallback` match.
pub fn wixmp_fallback_link(groups: &Vec<Option<String>>) -> (r: Option<String>)
    ensures
        opt_view(r) == wixmp_fallback_link_spec(group_views(groups@)),
{
    let g1 = match group_text(groups, 1) {
        None => return None,
        Some(x) => x,
    };
    let g2 = match group_text(groups, 2) {
        None => return None,
        Some(x) => x,
    };
    let g3 = match group_text(groups, 3) {
        None => return None,
        Some(x) => x,
    };
    let mut v = chars_of("https://");
    extend(&mut v, &chars_of(g1.as_str()));
    extend(&mut v, &chars_of(g2.as_str()));
    extend(&mut v, &chars_of(g3.as_str()));
    Some(string_of(&v))
}

/// The playlist entry from the groups of an `episode_pattern` match.
pub fn playlist_entry(groups: &Vec<Option<String>>) -> (r: Option<String>)
    ensures
        opt_view(r) == playlist_entry_spec(group_views(groups@)),
{
    match group_text(groups, 1) {
        None => None,
        Some(x) => Some(x.clone()),
    }
}

/// The wixmp link pattern for height `q`.
fn wixmp_pattern_exec(q: u16) -> (r: String)
    ensures
        r@ == wixmp_pattern(q),
{
    let mut p = chars_of("https://repackager.wixmp.com/(.*/)[^/]*");
    extend(&mut p, &decimal_exec(q as u64));
    extend(&mut p, &chars_of("p[^/]*(/mp4/file\\.mp4)"));
    string_of(&p)
}

/// Reads a document of provider Default.
pub fn default_read(
    doc: &Json,
    q: u16,
    link: &String,
    audio: &Option<String>,
    subtitle: &Option<String>,
) -> (r: Reading)
    ensures
        reading_agrees(r, default_update(*doc, q, link@, opt_view(*audio), opt_view(*subtitle))),
{
    let l0 = first_link_of(doc);
    let src = match as_text(field(l0, "link")) {
        None => {
            return Reading::Fields {
                link: link.clone(),
                audio: copy_opt(audio),
                subtitle: copy_opt(subtitle),
                quality: q,
            }
        },
        Some(s) => s,
    };
    let q2: u16 = if q == 0 || q > 1080 {
        1080
    } else {
        q
    };
    let pat = wixmp_pattern_exec(q2);
    let re = match compile(pat.as_str()) {
        Err(msg) => return Reading::Fail(Failure::InvalidPattern(msg)),
        Ok(re) => re,
    };
    let link1: String = match captures(&re, src.as_str()) {
        Some(g) => match wixmp_link(&g, q2) {
            None => return Reading::Fail(Failure::Abort(Abort::CaptureGroupMissing)),
            Some(l) => l,
        },
        None => link.clone(),
    };
    if !link1.as_str().is_empty() {
        return Reading::Fields {
            link: link1,
            audio: copy_opt(audio),
            subtitle: copy_opt(subtitle),
            quality: q2,
        };
    }
    let fallback = match compile(
        "https://repackager.wixmp.com/(.*/)[^/]*,([0-9]*p),(/mp4/file\\.mp4)",
    ) {
        Err(_) => return Reading::Fail(Failure::Abort(Abort::WixmpPatternInvalid)),
        Ok(re) => re,
    };
    match captures(&fallback, src.as_str()) {
        None => Reading::Fail(Failure::Abort(Abort::WixmpNoMatch)),
        Some(g) => match wixmp_fallback_link(&g) {
            None => Reading::Fail(Failure::Abort(Abort::CaptureGroupMissing)),
            Some(l) => Reading::Fields {
                link: l,
                audio: copy_opt(audio),
                subtitle: copy_opt(subtitle),
                quality: q2,
            },
        },
    }
}

/// Reads a document of provider `p`.
pub fn document_read(
    p: u8,
    doc: &Json,
    q: u16,
    link: &String,
    audio: &Option<String>,
    subtitle: &Option<String>,
) -> (r: Reading)
    ensures
        reading_agrees(
            r,
            document_update(p, *doc, q, link@, opt_view(*audio), opt_view(*subtitle)),
        ),
{
    if p == 1 {
        ak_read(doc, q, link, audio, subtitle)
    } else if p == 2 {
        default_read(doc, q, link, audio, subtitle)
    } else if p == 3 || p == 4 {
        let l = match as_text(field(first_link_of(doc), "link")) {
            Some(l) => l.clone(),
            None => String::new(),
        };
        Reading::Fields { link: l, audio: copy_opt(audio), subtitle: copy_opt(subtitle), quality: q }
    } else {
        match as_text(field(first_link_of(doc), "link")) {
            None => Reading::Fields {
                link: link.clone(),
                audio: copy_opt(audio),
                subtitle: copy_opt(subtitle),
                quality: q,
            },
            Some(src) => Reading::Playlist(src.clone()),
        }
    }
}

/// The playlist entry pattern for height `q`.
fn episode_pattern_exec(q: u16) -> (r: String)
    ensures
        r@ == episode_pattern(q),
{
    let mut p = chars_of("(ep\\..*\\.");
    extend(&mut p, &decimal_exec(q as u64));
    extend(&mut p, &chars_of("\\.m3u8)"));
    string_of(&p)
}

/// Reads a fetched playlist whose link is `base`.
pub fn playlist_read(
    base: &String,
    text: &str,
    q: u16,
    link: &String,
    audio: &Option<String>,
    subtitle: &Option<String>,
) -> (r: Reading)
    ensures
        reading_agrees(
            r,
            playlist_update(base@, text@, q, link@, opt_view(*audio), opt_view(*subtitle)),
        ),
{
    let m1: Vec<char> = if q != 0 {
        let re = match compile(episode_pattern_exec(q).as_str()) {
            Err(msg) => return Reading::Fail(Failure::InvalidPattern(msg)),
            Ok(re) => re,
        };
        match captures(&re, text) {
            Some(g) => match playlist_entry(&g) {
                None => return Reading::Fail(Failure::Abort(Abort::CaptureGroupMissing)),
                Some(x) => chars_of(x.as_str()),
            },
            None => Vec::new(),
        }
    } else {
        Vec::new()
    };
    let text_chars = chars_of(text);
    let m2: Vec<char> = if link.as_str().is_empty() && m1.len() == 0 {
        let ls = lines_exec(&text_chars);
        if ls.len() == 0 {
            return Reading::Fail(Failure::Abort(Abort::EmptyPlaylist));
        }
        let last = ls.len() - 1;
        concat(&ls[last], &[])
    } else {
        m1
    };
    let slash: Vec<char> = vec!['/'];
    assert(slash@ == "/"@) by {
        reveal_strlit("/");
    }
    match rsplit_once_exec(&chars_of(base.as_str()), &slash) {
        None => Reading::Fail(Failure::Abort(Abort::LinkWithoutSlash)),
        Some(parts) => {
            let mut v = concat(&parts.0, &slash);
            extend(&mut v, &m2);
            Reading::Fields {
                link: string_of(&v),
                audio: copy_opt(audio),
                subtitle: copy_opt(subtitle),
                quality: q,
            }
        },
    }
}


// ---------------------------------------------------------------------------
// The search
// ---------------------------------------------------------------------------

/// The search for one episode's stream: the provider to try, the asked
/// quality, how many providers were tried, the video found so far, and the
/// playlist link being resolved.
pub struct LinkSearch {
    pub provider: u8,
    pub quality: u16,
    pub count: u8,
    pub vid: Vid,
    pub playlist: Option<String>,
}

/// What the search asks for next.
pub enum LinkStep {
    /// Fetch the provider document at this link and pass it to `on_document`.
    FetchDocument(String),
    /// The video is resolved.
    Found,
    /// The search ended without a video.
    Fail(Failure),
}

/// What a document or playlist did to the search.
pub enum Reply {
    /// Ask `next` again.
    Continue,
    /// Fetch the playlist at this link and pass its text to `on_playlist`.
    FetchPlaylist(String),
    /// The search ended without a video.
    Fail(Failure),
}

/// The position of the first source of provider `p`.
fn position_exec(names: &Vec<u8>, p: u8) -> (r: usize)
    ensures
        r as int == position_of(names@, p, 0),
        r <= names@.len(),
{
    let mut i: usize = 0;
    while i < names.len()
        invariant
            i <= names@.len(),
            position_of(names@, p, 0) == position_of(names@, p, i as int),
        decreases names.len() - i,
    {
        if names[i] == p {
            return i;
        }
        i = i + 1;
    }
    i
}

/// Whether provider `p` has a source.
fn has_source(names: &Vec<u8>, p: u8) -> (r: bool)
    ensures
        r == names@.contains(p),
{
    let mut i: usize = 0;
    while i < names.len()
        invariant
            i <= names@.len(),
            forall|k: int| 0 <= k < i ==> names@[k] != p,
        decreases names.len() - i,
    {
        if names[i] == p {
            assert(names@[i as int] == p);
            return true;
        }
        i = i + 1;
    }
    false
}

impl LinkSearch {
    /// A search that starts at `provider`, asks for `quality`, and fills in
    /// `vid`.
    pub fn new(provider: u8, quality: u16, vid: Vid) -> (s: LinkSearch)
        ensures
            s.provider == provider,
            s.quality == quality,
            s.count == 0,
            s.vid == vid,
            s.playlist is None,
    {
        LinkSearch { provider, quality, count: 0, vid, playlist: None }
    }

    /// The next step: done when a link is known; else the document of the
    /// first provider from here that has a source, within five attempts;
    /// else no video.
    pub fn next(&mut self, names: &Vec<u8>, urls: &Vec<String>) -> (step: LinkStep)
        ensures
            old(self).vid.vid_link@.len() > 0 ==> step is Found && *final(self) == *old(self),
            old(self).vid.vid_link@.len() == 0 ==> {
                let (p, c) = seek(names@, old(self).provider, old(self).count);
                let i = position_of(names@, p, 0);
                &&& final(self).provider == p
                &&& final(self).count == c
                &&& final(self).quality == old(self).quality
                &&& final(self).vid == old(self).vid
                &&& final(self).playlist == old(self).playlist
                &&& c >= 5 ==> (step matches LinkStep::Fail(Failure::NoVideoLink))
                &&& c < 5 && i < urls@.len() ==> step is FetchDocument
                    && step->FetchDocument_0@ == urls@[i]@
                &&& c < 5 && i >= urls@.len() ==> (step matches LinkStep::Fail(
                    Failure::Abort(Abort::SourceLinkMissing),
                ))
            },
    {
        if !self.vid.vid_link.as_str().is_empty() {
            return LinkStep::Found;
        }
        while self.count < 5 && !has_source(names, self.provider)
            invariant
                seek(names@, self.provider, self.count) == seek(
                    names@,
                    old(self).provider,
                    old(self).count,
                ),
                self.quality == old(self).quality,
                self.vid == old(self).vid,
                self.playlist == old(self).playlist,
            decreases 5 - self.count,
        {
            self.provider = self.provider % 5 + 1;
            self.count = self.count + 1;
        }
        if self.count >= 5 {
            return LinkStep::Fail(Failure::NoVideoLink);
        }
        let i = position_exec(names, self.provider);
        if i >= urls.len() {
            return LinkStep::Fail(Failure::Abort(Abort::SourceLinkMissing));
        }
        LinkStep::FetchDocument(urls[i].clone())
    }

    /// Takes a reading: new video fields move the search to the next
    /// provider; a playlist link is kept to be fetched; a failure leaves
    /// the search as it was.
    fn apply(&mut self, r: Reading) -> (reply: Reply)
        requires
            old(self).count < 255,
        ensures
            match r {
                Reading::Fields { link, audio, subtitle, quality } => {
                    &&& reply is Continue
                    &&& final(self).vid.title == old(self).vid.title
                    &&& final(self).vid.vid_link == link
                    &&& final(self).vid.audio_link == audio
                    &&& final(self).vid.subtitle_link == subtitle
                    &&& final(self).quality == quality
                    &&& final(self).provider == next_provider(old(self).provider)
                    &&& final(self).count == old(self).count + 1
                    &&& final(self).playlist is None
                },
                Reading::Playlist(l) => {
                    &&& reply is FetchPlaylist && reply->FetchPlaylist_0 == l
                    &&& final(self).playlist == Some(l)
                    &&& final(self).vid == old(self).vid
                    &&& final(self).quality == old(self).quality
                    &&& final(self).provider == old(self).provider
                    &&& final(self).count == old(self).count
                },
                Reading::Fail(f) => reply == Reply::Fail(f) && *final(self) == *old(self),
            },
    {
        match r {
            Reading::Fields { link, audio, subtitle, quality } => {
                self.vid.vid_link = link;
                self.vid.audio_link = audio;
                self.vid.subtitle_link = subtitle;
                self.quality = quality;
                self.provider = self.provider % 5 + 1;
                self.count = self.count + 1;
                self.playlist = None;
                Reply::Continue
            },
            Reading::Playlist(l) => {
                let u = l.clone();
                self.playlist = Some(l);
                Reply::FetchPlaylist(u)
            },
            Reading::Fail(f) => Reply::Fail(f),
        }
    }

    /// Reads the document fetched for the current provider. Also says
    /// whether provider Ak's video of the asked height had no link (a
    /// warning the caller prints).
    pub fn on_document(&mut self, doc: &Json) -> (r: (Reply, bool))
        requires
            old(self).count < 255,
        ensures
            r.1 == (old(self).provider == 1 && ak_warns(*doc, old(self).quality)),
            match document_update(
                old(self).provider,
                *doc,
                old(self).quality,
                old(self).vid.vid_link@,
                opt_view(old(self).vid.audio_link),
                opt_view(old(self).vid.subtitle_link),
            ) {
                Update::Fields { link, audio, subtitle, quality } => {
                    &&& r.0 is Continue
                    &&& final(self).vid.title == old(self).vid.title
                    &&& final(self).vid.vid_link@ == link
                    &&& opt_view(final(self).vid.audio_link) == audio
                    &&& opt_view(final(self).vid.subtitle_link) == subtitle
                    &&& final(self).quality == quality
                    &&& final(self).provider == next_provider(old(self).provider)
                    &&& final(self).count == old(self).count + 1
                    &&& final(self).playlist is None
                },
                Update::Playlist(src) => {
                    &&& r.0 is FetchPlaylist && r.0->FetchPlaylist_0@ == src
                    &&& final(self).playlist is Some && final(self).playlist->Some_0@ == src
                    &&& final(self).vid == old(self).vid
                    &&& final(self).quality == old(self).quality
                    &&& final(self).provider == old(self).provider
                    &&& final(self).count == old(self).count
                },
                Update::BadPattern(pat) => r.0 matches Reply::Fail(Failure::InvalidPattern(m))
                    && m@ == regex_error(pat) && *final(self) == *old(self),
                Update::Stop(a) => r.0 matches Reply::Fail(Failure::Abort(b)) && b == a
                    && *final(self) == *old(self),
            },
    {
        let warned = if self.provider == 1 {
            ak_warning(doc, self.quality)
        } else {
            false
        };
        let reading = document_read(
            self.provider,
            doc,
            self.quality,
            &self.vid.vid_link,
            &self.vid.audio_link,
            &self.vid.subtitle_link,
        );
        (self.apply(reading), warned)
    }

    /// Reads the playlist fetched for provider Luf-mp4.
    pub fn on_playlist(&mut self, text: &str) -> (r: Reply)
        requires
            old(self).count < 255,
            old(self).playlist is Some,
        ensures
            match playlist_update(
                old(self).playlist->Some_0@,
                text@,
                old(self).quality,
                old(self).vid.vid_link@,
                opt_view(old(self).vid.audio_link),
                opt_view(old(self).vid.subtitle_link),
            ) {
                Update::Fields { link, audio, subtitle, quality } => {
                    &&& r is Continue
                    &&& final(self).vid.title == old(self).vid.title
                    &&& final(self).vid.vid_link@ == link
                    &&& opt_view(final(self).vid.audio_link) == audio
                    &&& opt_view(final(self).vid.subtitle_link) == subtitle
                    &&& final(self).quality == quality
                    &&& final(self).provider == next_provider(old(self).provider)
                    &&& final(self).count == old(self).count + 1
                    &&& final(self).playlist is None
                },
                Update::Playlist(_) => false,
                Update::BadPattern(pat) => r matches Reply::Fail(Failure::InvalidPattern(m))
                    && m@ == regex_error(pat) && *final(self) == *old(self),
                Update::Stop(a) => r matches Reply::Fail(Failure::Abort(b)) && b == a
                    && *final(self) == *old(self),
            },
    {
        let base = match &self.playlist {
            Some(b) => b.clone(),
            None => String::new(),
        };
        let reading = playlist_read(
            &base,
            text,
            self.quality,
            &self.vid.vid_link,
            &self.vid.audio_link,
            &self.vid.subtitle_link,
        );
        self.apply(reading)
    }
}

} // verus!
