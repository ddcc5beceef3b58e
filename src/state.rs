//! The playback state that the controller publishes.
use vstd::prelude::*;

verus! {

/// Whether audio is stopped, playing or paused.
#[derive(Clone, Copy, Debug, PartialEq, Eq, Structural)]
pub enum PlayerMode {
    Stopped,
    Playing,
    Paused,
}

/// What is loaded into the engine.
#[derive(Clone, Debug, PartialEq, Eq)]
pub enum Source {
    Stream { name: String },
    Track { title: String, artist: Option<String>, playlist_name: String },
}

/// The current mode and source.
#[derive(Clone, Debug, PartialEq, Eq)]
pub struct PlayerState {
    pub mode: PlayerMode,
    pub source: Option<Source>,
}

impl PlayerState {
    /// A state is well formed when it has a source exactly when it is not stopped.
    pub open spec fn wf(&self) -> bool {
        (self.mode == PlayerMode::Stopped) == self.source.is_none()
    }

    /// The state with nothing loaded.
    pub open spec fn stopped_spec() -> PlayerState {
        PlayerState { mode: PlayerMode::Stopped, source: None }
    }

    /// The state with nothing loaded.
    pub fn stopped() -> (r: PlayerState)
        ensures
            r == PlayerState::stopped_spec(),
    {
        PlayerState { mode: PlayerMode::Stopped, source: None }
    }

    /// A copy of this state.
    pub fn snapshot(&self) -> (r: PlayerState)
        ensures
            r == *self,
    {
        PlayerState { mode: self.mode, source: copy_source(&self.source) }
    }
}

/// A copy of an optional string.
pub fn copy_text(s: &Option<String>) -> (r: Option<String>)
    ensures
        r == *s,
{
    match s {
        Some(t) => Some(t.clone()),
        None => None,
    }
}

/// A copy of an optional source.
fn copy_source(s: &Option<Source>) -> (r: Option<Source>)
    ensures
        r == *s,
{
    match s {
        Some(Source::Stream { name }) => Some(Source::Stream { name: name.clone() }),
        Some(Source::Track { title, artist, playlist_name }) => Some(
            Source::Track {
                title: title.clone(),
                artist: copy_text(artist),
                playlist_name: playlist_name.clone(),
            },
        ),
        None => None,
    }
}

} // verus!
