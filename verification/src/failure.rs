//! How a command can end early.

use vstd::prelude::*;

verus! {

/// Places where the program stops at once.
#[derive(Clone, Copy, Debug, PartialEq, Eq, Structural)]
pub enum Abort {
    /// A search result has no `_id` text.
    MissingId,
    /// A search result has no episode count for the mode.
    MissingEpisodeCount,
    /// A search result has neither an English name nor a name.
    MissingName,
    /// An episode listed for a search result is not text.
    EpisodeNotText,
    /// A source has no `sourceName` text.
    MissingSourceName,
    /// A source has no `sourceUrl` text.
    MissingSourceUrl,
    /// An encrypted source is too short to drop its two-byte prefix.
    SourceTooShort,
    /// A source list names a provider whose link was not kept.
    SourceLinkMissing,
    /// The chosen line has no space between number and name.
    SelectionNotSplit,
    /// The chosen line has no ` (` before the episode count.
    SelectionWithoutCount,
    /// The chosen number is past the list of results.
    ShowOutOfRange,
    /// The chosen result has no episode list.
    EpisodesOutOfRange,
    /// No episode was chosen.
    NoEpisodeChosen,
    /// The chosen episode is not in the list.
    EpisodeNotListed,
    /// Playback ran past the last episode.
    EpisodeOutOfRange,
    /// Provider Ak listed no videos.
    NoAkVideos,
    /// The first video of provider Ak has no link.
    MissingAkVideo,
    /// Provider Ak gave no audio link.
    MissingAkAudio,
    /// Provider Ak gave no subtitle link.
    MissingAkSubtitle,
    /// The built-in wixmp pattern did not compile.
    WixmpPatternInvalid,
    /// The wixmp link does not have the expected shape.
    WixmpNoMatch,
    /// A capture group that the link is built from took no part in the match.
    CaptureGroupMissing,
    /// The playlist has no lines.
    EmptyPlaylist,
    /// The playlist link has no `/`.
    LinkWithoutSlash,
}

/// Why resolving a stream ended without a video.
#[derive(Debug)]
pub enum Failure {
    /// The program stops.
    Abort(Abort),
    /// A pattern built from the quality did not compile; holds the
    /// pattern library's message.
    InvalidPattern(String),
    /// No provider gave a video link.
    NoVideoLink,
}

} // verus!
