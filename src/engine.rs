//! Commands for the external playback engine, and the notifications that the
//! controller publishes to its subscribers.
use vstd::prelude::*;
use crate::queue::QueueItem;
use crate::state::PlayerState;

verus! {

/// How a loaded file enters the engine's playlist.
#[derive(Clone, Copy, Debug, PartialEq, Eq, Structural)]
pub enum LoadMode {
    /// The file replaces the whole playlist and starts playing.
    Replace,
    /// The file is added at the end of the playlist.
    Append,
}

/// One request to the engine, to be run in order by whoever owns the engine
/// connection.
#[derive(Clone, Debug, PartialEq, Eq)]
pub enum EngineCommand {
    /// `loadfile` with a path or URL.
    LoadFile { path: String, mode: LoadMode },
    /// Writes the `loop-playlist` property.
    SetLoopPlaylist(bool),
    /// Writes the `pause` property.
    SetPause(bool),
    /// `stop` with the playlist kept.
    StopKeepPlaylist,
    /// `playlist-next`.
    PlaylistNext,
    /// `playlist-prev`.
    PlaylistPrev,
    /// `playlist-remove` at an absolute playlist index.
    PlaylistRemove(usize),
}

/// A change published to the subscribers.
#[derive(Clone, Debug, PartialEq, Eq)]
pub enum Notification {
    StateChanged(PlayerState),
    LibraryReloaded,
    QueueChanged(Vec<QueueItem>),
}

/// `n` publishes the queue `q`.
pub open spec fn publishes_queue(n: Notification, q: Seq<QueueItem>) -> bool {
    n matches Notification::QueueChanged(v) && v@ == q
}

} // verus!
