//! Decisions of the audio player that do not touch the audio device:
//! which external tools are missing, which cached files can be played, and
//! the state the playback thread shares with the interface.

use vstd::prelude::*;
use std::time::Duration;
use crate::text::{chars_of, chars_eq};

verus! {

/// The missing external tools, in the order `yt-dlp`, `ffmpeg`, `deno`,
/// each with whether it is essential (`yt-dlp` and `ffmpeg` are, `deno` is
/// optional).
pub open spec fn spec_missing(has_yt_dlp: bool, has_ffmpeg: bool, has_deno: bool) -> Seq<(Seq<char>, bool)> {
    (if has_yt_dlp { Seq::empty() } else { seq![("yt-dlp"@, true)] })
        + (if has_ffmpeg { Seq::empty() } else { seq![("ffmpeg"@, true)] })
        + (if has_deno { Seq::empty() } else { seq![("deno"@, false)] })
}

/// The missing external tools as `(name, essential)` pairs, given whether
/// each was found.
pub fn missing_dependencies(has_yt_dlp: bool, has_ffmpeg: bool, has_deno: bool) -> (r: Vec<(&'static str, bool)>)
    ensures
        r@.map_values(|p: (&'static str, bool)| (p.0@, p.1)) == spec_missing(has_yt_dlp, has_ffmpeg, has_deno),
{
    let mut r: Vec<(&'static str, bool)> = Vec::new();
    if !has_yt_dlp {
        r.push(("yt-dlp", true));
    }
    if !has_ffmpeg {
        r.push(("ffmpeg", true));
    }
    if !has_deno {
        r.push(("deno", false));
    }
    assert(r@.map_values(|p: (&'static str, bool)| (p.0@, p.1)) =~= spec_missing(has_yt_dlp, has_ffmpeg, has_deno));
    r
}

/// The extensions the decoder plays directly.
pub open spec fn playable_ext(ext: Seq<char>) -> bool {
    ext == "aac"@ || ext == "mp3"@ || ext == "ogg"@ || ext == "oga"@ || ext == "flac"@ || ext == "wav"@
}

/// Whether a cached file with extension `ext` can be played directly.
pub fn is_playable_ext(ext: &str) -> (r: bool)
    ensures
        r == playable_ext(ext@),
{
    let e = chars_of(ext);
    chars_eq(&e, &chars_of("aac")) || chars_eq(&e, &chars_of("mp3")) || chars_eq(&e, &chars_of("ogg"))
        || chars_eq(&e, &chars_of("oga")) || chars_eq(&e, &chars_of("flac")) || chars_eq(&e, &chars_of("wav"))
}

/// State shared between the playback thread and the interface.
#[derive(Default)]
pub struct SharedState {
    /// Position in the current track.
    pub position: Duration,
    /// The current track ended on its own.
    pub finished: bool,
    /// A track is loaded or playing.
    pub active: bool,
}

} // verus!
