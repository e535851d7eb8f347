//! eren: the decision logic of a command-line client that searches the
//! allanime catalogue, resolves episode streams and hands them to a player
//! or downloader.

pub mod cli;
pub mod codec;
pub mod failure;
pub mod helpers;
pub mod json;
pub mod pattern;
pub mod providers;
pub mod text;

use vstd::prelude::*;

verus! {

/// One resolved episode: its title, the video stream, and the optional
/// separate audio track and subtitle file.
#[derive(Debug, Clone)]
pub struct Vid {
    pub title: String,
    pub vid_link: String,
    pub audio_link: Option<String>,
    pub subtitle_link: Option<String>,
}

impl Vid {
    /// A video with no title, no link and no extra tracks.
    pub open spec fn is_blank(self) -> bool {
        &&& self.title@ == Seq::<char>::empty()
        &&& self.vid_link@ == Seq::<char>::empty()
        &&& self.audio_link is None
        &&& self.subtitle_link is None
    }
}

impl Default for Vid {
    fn default() -> (v: Vid)
        ensures
            v.is_blank(),
    {
        Vid { title: String::new(), vid_link: String::new(), audio_link: None, subtitle_link: None }
    }
}

/// What to do with each resolved episode.
#[derive(Clone, Copy, Debug, PartialEq, Eq, Structural)]
pub enum Todo {
    Play,
    Download,
    GetLink,
    Debug,
}

} // verus!
