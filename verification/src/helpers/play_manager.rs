//! What to run for a resolved episode: the player's arguments, the
//! download jobs, or the links to print.

use crate::providers::allanime::strings_view;
use crate::providers::streaming::opt_view;
use crate::text::{
    chars_of, ends_with, ends_with_exec, lemma_delete_char_leaves_none, lemma_replace_all_absent,
    occurs_at, replace_all, replace_all_exec, string_of,
};
use crate::Vid;
use vstd::prelude::*;

verus! {

/// Appends a copy of `s`.
fn push_str(v: &mut Vec<String>, s: &str)
    ensures
        strings_view(final(v)@) == strings_view(old(v)@).push(s@),
{
    let mut t = String::new();
    t.append(s);
    v.push(t);
}

/// Appends `a` followed by `b`.
fn push_pair(v: &mut Vec<String>, a: &str, b: &str)
    ensures
        strings_view(final(v)@) == strings_view(old(v)@).push(a@ + b@),
{
    let mut t = String::new();
    t.append(a);
    t.append(b);
    v.push(t);
}

/// The arguments of `mpv` for a video: the extra audio track and subtitle
/// file, the link, the fixed options and the title.
pub open spec fn player_args_spec(
    link: Seq<char>,
    title: Seq<char>,
    audio: Option<Seq<char>>,
    subtitle: Option<Seq<char>>,
) -> Seq<Seq<char>> {
    let a = match audio {
        Some(x) => seq!["--audio-file="@ + x],
        None => Seq::empty(),
    };
    let s = match subtitle {
        Some(x) => seq!["--sub-file="@ + x],
        None => Seq::empty(),
    };
    a + s + seq![
        link,
        "--no-terminal"@,
        "--force-seekable"@,
        "--force-window=immediate"@,
        "--speed=1"@,
        "--sub-visibility"@,
        "--force-media-title="@ + title,
    ]
}

/// The arguments of `mpv` for `vid`.
pub fn player_args(vid: &Vid) -> (r: Vec<String>)
    ensures
        strings_view(r@) == player_args_spec(
            vid.vid_link@,
            vid.title@,
            opt_view(vid.audio_link),
            opt_view(vid.subtitle_link),
        ),
{
    let mut v: Vec<String> = Vec::new();
    if let Some(a) = &vid.audio_link {
        push_pair(&mut v, "--audio-file=", a.as_str());
    }
    if let Some(s) = &vid.subtitle_link {
        push_pair(&mut v, "--sub-file=", s.as_str());
    }
    push_str(&mut v, vid.vid_link.as_str());
    push_str(&mut v, "--no-terminal");
    push_str(&mut v, "--force-seekable");
    push_str(&mut v, "--force-window=immediate");
    push_str(&mut v, "--speed=1");
    push_str(&mut v, "--sub-visibility");
    push_pair(&mut v, "--force-media-title=", vid.title.as_str());
    v
}

/// The arguments of Android's `am` that open `link` in mpv-android.
pub open spec fn android_args_spec(link: Seq<char>) -> Seq<Seq<char>> {
    seq![
        "start"@,
        "--user"@,
        "0"@,
        "-a"@,
        "android.intent.action.VIEW"@,
        "-d"@,
        link,
        "-n"@,
        "is.xyz.mpv/.MPVActivity"@,
    ]
}

/// The arguments of Android's `am` for `vid`.
pub fn android_args(vid: &Vid) -> (r: Vec<String>)
    ensures
        strings_view(r@) == android_args_spec(vid.vid_link@),
{
    let mut v: Vec<String> = Vec::new();
    push_str(&mut v, "start");
    push_str(&mut v, "--user");
    push_str(&mut v, "0");
    push_str(&mut v, "-a");
    push_str(&mut v, "android.intent.action.VIEW");
    push_str(&mut v, "-d");
    push_str(&mut v, vid.vid_link.as_str());
    push_str(&mut v, "-n");
    push_str(&mut v, "is.xyz.mpv/.MPVActivity");
    v
}

/// A title usable as a file name: `" /"` and then every `/` removed.
pub open spec fn download_title_spec(title: Seq<char>) -> Seq<char> {
    replace_all(replace_all(title, " /"@, ""@), "/"@, ""@)
}

/// A download's file name holds no `/`, whatever the title; a title that
/// holds none is kept as it is.
pub proof fn lemma_download_title_has_no_slash(title: Seq<char>)
    ensures
        !download_title_spec(title).contains('/'),
        !title.contains('/') ==> download_title_spec(title) == title,
{
    reveal_strlit(" /");
    reveal_strlit("/");
    reveal_strlit("");
    lemma_delete_char_leaves_none(replace_all(title, " /"@, ""@), "/"@, ""@);
    if !title.contains('/') {
        assert forall|i: int| !occurs_at(title, " /"@, i) by {
            if occurs_at(title, " /"@, i) {
                assert(title.subrange(i, i + 2)[1] == title[i + 1]);
            }
        }
        lemma_replace_all_absent(title, " /"@, ""@);
        assert forall|i: int| !occurs_at(title, "/"@, i) by {
            if occurs_at(title, "/"@, i) {
                assert(title.subrange(i, i + 1)[0] == title[i]);
            }
        }
        lemma_replace_all_absent(title, "/"@, ""@);
    }
}

/// `title` with `" /"` and then every `/` removed.
pub fn download_title(title: &str) -> (r: String)
    ensures
        r@ == download_title_spec(title@),
        !r@.contains('/'),
{
    proof {
        reveal_strlit(" /");
        reveal_strlit("/");
        lemma_download_title_has_no_slash(title@);
    }
    let t = replace_all_exec(&chars_of(title), &chars_of(" /"), &chars_of(""));
    let t = replace_all_exec(&t, &chars_of("/"), &chars_of(""));
    string_of(&t)
}

/// The arguments of `aria2c` that download `link` to
/// `"{title}{types}.{extension}"`.
pub open spec fn aria_args_spec(
    title: Seq<char>,
    link: Seq<char>,
    types: Seq<char>,
    extension: Seq<char>,
) -> Seq<Seq<char>> {
    seq![
        "--out="@ + title + types + "."@ + extension,
        link,
        "--max-connection-per-server=16"@,
        "--max-concurrent-downloads=16"@,
        "--split=16"@,
        "--min-split-size=1M"@,
        "--check-certificate=false"@,
        "--summary-interval=0"@,
        "--download-result=hide"@,
    ]
}

/// One `aria2c` download: what it fetches (for the progress message) and
/// its arguments.
pub struct AriaJob {
    pub types: &'static str,
    pub args: Vec<String>,
}

/// The `aria2c` download of `link` as `"{title}{types}.{extension}"`.
pub fn aria_job(title: &str, link: &str, types: &'static str, extension: &str) -> (r: AriaJob)
    ensures
        r.types == types,
        strings_view(r.args@) == aria_args_spec(title@, link@, types@, extension@),
{
    let mut out = String::new();
    out.append("--out=");
    out.append(title);
    out.append(types);
    out.append(".");
    out.append(extension);
    let mut v: Vec<String> = Vec::new();
    v.push(out);
    push_str(&mut v, link);
    push_str(&mut v, "--max-connection-per-server=16");
    push_str(&mut v, "--max-concurrent-downloads=16");
    push_str(&mut v, "--split=16");
    push_str(&mut v, "--min-split-size=1M");
    push_str(&mut v, "--check-certificate=false");
    push_str(&mut v, "--summary-interval=0");
    push_str(&mut v, "--download-result=hide");
    AriaJob { types, args: v }
}

/// How the video of an episode is downloaded.
pub enum DownloadPlan {
    /// A playlist, through `hls` with these arguments.
    Hls { args: Vec<String> },
    /// Video and audio apart, then merged by `ffmpeg`; the two files are
    /// removed after a successful merge.
    Merge {
        video: AriaJob,
        audio: AriaJob,
        ffmpeg: Vec<String>,
        video_file: String,
        audio_file: String,
    },
    /// One file.
    Direct { video: AriaJob },
}

/// What downloading an episode runs: the file title, the video plan and
/// the subtitle download.
pub struct Download {
    pub title: String,
    pub plan: DownloadPlan,
    pub subtitle: Option<AriaJob>,
}

/// `job` is the `aria2c` download described by the arguments.
pub open spec fn job_is(
    job: AriaJob,
    title: Seq<char>,
    link: Seq<char>,
    types: Seq<char>,
    extension: Seq<char>,
) -> bool {
    job.types@ == types && strings_view(job.args@) == aria_args_spec(title, link, types, extension)
}

/// The downloads for `vid`: a playlist link goes to `hls`; with a separate
/// audio track, video and audio are fetched and merged; otherwise the video
/// is fetched alone; a subtitle is fetched too.
pub fn download_plan(vid: &Vid) -> (r: Download)
    ensures
        r.title@ == download_title_spec(vid.title@),
        !r.title@.contains('/'),
        ends_with(vid.vid_link@, ".m3u8"@) ==> (r.plan matches DownloadPlan::Hls { args }
            && strings_view(args@) == seq!["-n"@, "38"@, "-o"@, r.title@, vid.vid_link@]),
        !ends_with(vid.vid_link@, ".m3u8"@) && vid.audio_link is Some ==> (r.plan matches DownloadPlan::Merge {
            video,
            audio,
            ffmpeg,
            video_file,
            audio_file,
        } && job_is(video, r.title@, vid.vid_link@, " video"@, "mp4"@) && job_is(
            audio,
            r.title@,
            vid.audio_link->Some_0@,
            " audio"@,
            "mp3"@,
        ) && video_file@ == r.title@ + " video.mp4"@ && audio_file@ == r.title@ + " audio.mp3"@
            && strings_view(ffmpeg@) == seq![
            "-i"@,
            video_file@,
            "-i"@,
            audio_file@,
            "-c"@,
            "copy"@,
            r.title@ + ".mp4"@,
        ]),
        !ends_with(vid.vid_link@, ".m3u8"@) && vid.audio_link is None ==> (r.plan matches DownloadPlan::Direct {
            video,
        } && job_is(video, r.title@, vid.vid_link@, ""@, "mp4"@)),
        match vid.subtitle_link {
            Some(s) => r.subtitle matches Some(job) && job_is(
                job,
                r.title@,
                s@,
                " subtitle"@,
                "srt"@,
            ),
            None => r.subtitle is None,
        },
{
    let title = download_title(vid.title.as_str());
    let link = vid.vid_link.as_str();
    let plan = if ends_with_exec(&chars_of(link), &chars_of(".m3u8")) {
        let mut args: Vec<String> = Vec::new();
        push_str(&mut args, "-n");
        push_str(&mut args, "38");
        push_str(&mut args, "-o");
        push_str(&mut args, title.as_str());
        push_str(&mut args, link);
        DownloadPlan::Hls { args }
    } else {
        match &vid.audio_link {
            Some(audio_link) => {
                let video = aria_job(title.as_str(), link, " video", "mp4");
                let audio = aria_job(title.as_str(), audio_link.as_str(), " audio", "mp3");
                let mut video_file = String::new();
                video_file.append(title.as_str());
                video_file.append(" video.mp4");
                let mut audio_file = String::new();
                audio_file.append(title.as_str());
                audio_file.append(" audio.mp3");
                let mut ffmpeg: Vec<String> = Vec::new();
                push_str(&mut ffmpeg, "-i");
                push_str(&mut ffmpeg, video_file.as_str());
                push_str(&mut ffmpeg, "-i");
                push_str(&mut ffmpeg, audio_file.as_str());
                push_str(&mut ffmpeg, "-c");
                push_str(&mut ffmpeg, "copy");
                push_pair(&mut ffmpeg, title.as_str(), ".mp4");
                DownloadPlan::Merge { video, audio, ffmpeg, video_file, audio_file }
            },
            None => DownloadPlan::Direct { video: aria_job(title.as_str(), link, "", "mp4") },
        }
    };
    let subtitle = match &vid.subtitle_link {
        Some(s) => Some(aria_job(title.as_str(), s.as_str(), " subtitle", "srt")),
        None => None,
    };
    Download { title, plan, subtitle }
}

/// The lines printed for `vid` when only its links are wanted: the video
/// link alone, or after a blank line followed by the audio and subtitle
/// links it has.
pub open spec fn link_lines_spec(
    link: Seq<char>,
    audio: Option<Seq<char>>,
    subtitle: Option<Seq<char>>,
) -> Seq<Seq<char>> {
    match (audio, subtitle) {
        (Some(a), Some(s)) => seq!["\n"@ + link, a, s],
        (Some(a), None) => seq!["\n"@ + link, a],
        (None, Some(s)) => seq!["\n"@ + link, s],
        (None, None) => seq![link],
    }
}

/// The lines to print for `vid` when only its links are wanted.
pub fn link_lines(vid: &Vid) -> (r: Vec<String>)
    ensures
        strings_view(r@) == link_lines_spec(
            vid.vid_link@,
            opt_view(vid.audio_link),
            opt_view(vid.subtitle_link),
        ),
{
    let mut v: Vec<String> = Vec::new();
    let mut printed = false;
    if let Some(a) = &vid.audio_link {
        push_pair(&mut v, "\n", vid.vid_link.as_str());
        push_str(&mut v, a.as_str());
        printed = true;
    }
    if let Some(s) = &vid.subtitle_link {
        if !printed {
            push_pair(&mut v, "\n", vid.vid_link.as_str());
        }
        push_str(&mut v, s.as_str());
        printed = true;
    }
    if !printed {
        push_str(&mut v, vid.vid_link.as_str());
    }
    v
}

} // verus!
