//! The local desktop player source: its reply is a player-state word, the
//! artist, the title and two times; turning that reply into a snapshot is
//! done here, running the script is the caller's.
use vstd::prelude::*;

use crate::track::{SourceError, UnifiedTrack};

verus! {

/// The player states the desktop player reports.
#[derive(Debug, PartialEq, Eq, Structural, Clone, Copy)]
pub enum PlayerState {
    Playing,
    Paused,
    Stopped,
}

/// The state a player-state word names, if it is one of the known three.
pub open spec fn state_named(word: Seq<char>) -> Option<PlayerState> {
    if word == "playing"@ {
        Some(PlayerState::Playing)
    } else if word == "paused"@ {
        Some(PlayerState::Paused)
    } else if word == "stopped"@ {
        Some(PlayerState::Stopped)
    } else {
        None
    }
}

impl PlayerState {
    /// Reads a player-state word; an unknown word is an error that carries it.
    pub fn parse(word: &str) -> (r: Result<PlayerState, SourceError>)
        ensures
            state_named(word@) matches Some(s) ==> r == Ok::<PlayerState, SourceError>(s),
            state_named(word@) is None ==> (r matches Err(SourceError::UnknownState(w))
                && w@ == word@),
    {
        let w = String::from_str(word);
        let playing = String::from_str("playing");
        let paused = String::from_str("paused");
        let stopped = String::from_str("stopped");
        if w == playing {
            Ok(PlayerState::Playing)
        } else if w == paused {
            Ok(PlayerState::Paused)
        } else if w == stopped {
            Ok(PlayerState::Stopped)
        } else {
            Err(SourceError::UnknownState(w))
        }
    }
}

/// A track as the desktop player reports it, times in milliseconds.
#[derive(Debug)]
pub struct Track {
    pub player_state: PlayerState,
    pub artist: String,
    pub title: String,
    pub progress_ms: u64,
    pub duration_ms: u64,
}

/// The script's reply: the state word, artist, title and the two times,
/// already in whole milliseconds.
#[derive(Debug)]
pub struct ScriptReply {
    pub state: String,
    pub artist: String,
    pub title: String,
    pub progress_ms: u64,
    pub duration_ms: u64,
}

impl Track {
    /// The track a script reply describes; fails on an unknown state word.
    pub fn from_reply(reply: ScriptReply) -> (r: Result<Track, SourceError>)
        ensures
            state_named(reply.state@) matches Some(s) ==> (r matches Ok(t) && t.player_state == s
                && t.artist == reply.artist && t.title == reply.title && t.progress_ms
                == reply.progress_ms && t.duration_ms == reply.duration_ms),
            state_named(reply.state@) is None ==> (r matches Err(SourceError::UnknownState(w))
                && w@ == reply.state@),
    {
        match PlayerState::parse(reply.state.as_str()) {
            Ok(player_state) => Ok(
                Track {
                    player_state,
                    artist: reply.artist,
                    title: reply.title,
                    progress_ms: reply.progress_ms,
                    duration_ms: reply.duration_ms,
                },
            ),
            Err(e) => Err(e),
        }
    }

    /// The snapshot of this track.
    pub fn into_unified(self) -> (r: UnifiedTrack)
        ensures
            r.artist == self.artist,
            r.title == self.title,
            r.progress_ms == self.progress_ms,
            r.duration_ms == self.duration_ms,
    {
        UnifiedTrack {
            artist: self.artist,
            title: self.title,
            progress_ms: self.progress_ms,
            duration_ms: self.duration_ms,
        }
    }
}

/// The desktop player as a source. It holds no state of its own: each fetch
/// is one script run, whose reply it turns into a snapshot.
pub struct AppleMusicProvider {}

impl AppleMusicProvider {
    pub fn new() -> (r: Self) {
        AppleMusicProvider {}
    }

    /// The snapshot for a script reply. The player answers whatever its
    /// state, so a reply with a known state word is always a snapshot.
    pub fn get_current_track(&self, reply: ScriptReply) -> (r: Result<
        Option<UnifiedTrack>,
        SourceError,
    >)
        ensures
            state_named(reply.state@) is Some ==> (r matches Ok(Some(t)) && t.artist
                == reply.artist && t.title == reply.title && t.progress_ms == reply.progress_ms
                && t.duration_ms == reply.duration_ms),
            state_named(reply.state@) is None ==> (r matches Err(SourceError::UnknownState(w))
                && w@ == reply.state@),
    {
        match Track::from_reply(reply) {
            Ok(t) => Ok(Some(t.into_unified())),
            Err(e) => Err(e),
        }
    }
}

} // verus!
