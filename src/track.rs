//! The playback snapshot every source produces, and the status text it
//! renders to.
use vstd::prelude::*;

use crate::text::{clock_text, format_duration, replace, replace_all};

verus! {

/// What is playing: artists already joined into one string, and the
/// elapsed and total time in milliseconds.
#[derive(Debug)]
pub struct UnifiedTrack {
    pub artist: String,
    pub title: String,
    pub progress_ms: u64,
    pub duration_ms: u64,
}

/// Failures of a source's fetch.
#[derive(Debug)]
pub enum SourceError {
    /// The fetch itself failed (I/O, authorization, parsing), with the reason.
    Fetch(String),
    /// The player reported a state outside the known vocabulary.
    UnknownState(String),
}

/// `template` with `{artist}`, `{title}`, `{progress}` and `{duration}`
/// substituted in that order, times rendered as `m:ss` of whole seconds.
pub open spec fn rendered(template: Seq<char>, t: UnifiedTrack) -> Seq<char> {
    let a = replace_all(template, "{artist}"@, t.artist@);
    let b = replace_all(a, "{title}"@, t.title@);
    let c = replace_all(b, "{progress}"@, clock_text((t.progress_ms / 1000) as nat));
    replace_all(c, "{duration}"@, clock_text((t.duration_ms / 1000) as nat))
}

/// The status text for a fetch result: the rendered template while
/// something plays, else the default text.
pub open spec fn status_text(
    template: Seq<char>,
    default: Seq<char>,
    fetched: Option<UnifiedTrack>,
) -> Seq<char> {
    match fetched {
        Some(t) => rendered(template, t),
        None => default,
    }
}

/// Renders `template` for `track`.
pub fn render(template: &str, track: &UnifiedTrack) -> (r: String)
    ensures
        r@ == rendered(template@, *track),
{
    proof {
        reveal_strlit("{artist}");
        reveal_strlit("{title}");
        reveal_strlit("{progress}");
        reveal_strlit("{duration}");
    }
    let a = replace(template, "{artist}", track.artist.as_str());
    let b = replace(a.as_str(), "{title}", track.title.as_str());
    let progress = format_duration(track.progress_ms / 1000);
    let c = replace(b.as_str(), "{progress}", progress.as_str());
    let duration = format_duration(track.duration_ms / 1000);
    replace(c.as_str(), "{duration}", duration.as_str())
}

/// The status text for what a source returned.
pub fn status_for(template: &str, default: &str, fetched: &Option<UnifiedTrack>) -> (r: String)
    ensures
        r@ == status_text(template@, default@, *fetched),
{
    match fetched {
        Some(t) => render(template, t),
        None => String::from_str(default),
    }
}

} // verus!
