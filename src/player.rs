//! The playback controller: a state machine over the library, the playback
//! state and the up-next queue. Each operation updates the controller and
//! returns the engine commands that carry it out, in order; values read from
//! the engine are passed in as arguments.
use vstd::prelude::*;
use crate::engine::{publishes_queue, EngineCommand, LoadMode, Notification};
use crate::library::{source_ref_of, Library, Playlist, SourceRef, Track};
use crate::queue::{copy_items, item_of_track, source_of_item, display_title, QueueItem};
use crate::state::{PlayerMode, PlayerState, Source};

verus! {

/// The playlist and track that were last selected.
#[derive(Clone, Copy, Debug, PartialEq, Eq, Structural)]
pub struct CurrentIndexes {
    pub album: usize,
    pub track: usize,
}

/// The playback controller.
#[derive(Clone, Debug)]
pub struct Player {
    pub library: Library,
    pub state: PlayerState,
    /// Entries that follow the one loaded in the engine, in play order.
    pub queue: Vec<QueueItem>,
    /// Path of the audio file played when a selection is invalid.
    pub error_cue: String,
    /// Highest engine playlist position seen since the last replacing load.
    pub loaded_position: usize,
    pub current_indexes: Option<CurrentIndexes>,
    /// Notifications not yet handed to the subscribers, oldest first.
    pub outbox: Vec<Notification>,
}

/// `src` shows track `t` of the playlist named `playlist_name`.
pub open spec fn is_track_source(src: Source, playlist_name: String, t: Track) -> bool {
    match src {
        Source::Track { title, artist, playlist_name: name } => {
            &&& title@ == display_title(t)
            &&& artist == t.artist
            &&& name == playlist_name
        },
        _ => false,
    }
}

/// The commands that play the error cue.
pub open spec fn error_commands(p: Player) -> Seq<EngineCommand> {
    seq![EngineCommand::LoadFile { path: p.error_cue, mode: LoadMode::Replace }]
}

/// The commands that start a single file from the beginning.
pub open spec fn start_commands(path: String) -> Seq<EngineCommand> {
    seq![
        EngineCommand::LoadFile { path: path, mode: LoadMode::Replace },
        EngineCommand::SetLoopPlaylist(false),
        EngineCommand::SetPause(false),
    ]
}

/// `new` has the library, the error cue and the selection of `old`.
pub open spec fn keeps_setup(old: Player, new: Player) -> bool {
    &&& new.library == old.library
    &&& new.error_cue == old.error_cue
    &&& new.current_indexes == old.current_indexes
}

/// `new` is `old` after publishing its new state, and nothing else.
pub open spec fn publishes_state(old: Player, new: Player) -> bool {
    new.outbox@ == old.outbox@.push(Notification::StateChanged(new.state))
}

/// `new` is `old` after publishing its new queue and then its new state.
pub open spec fn publishes_queue_and_state(old: Player, new: Player) -> bool {
    let n = old.outbox@.len() as int;
    &&& new.outbox@.len() == n + 2
    &&& new.outbox@.subrange(0, n) == old.outbox@
    &&& publishes_queue(new.outbox@[n], new.queue@)
    &&& new.outbox@[n + 1] == Notification::StateChanged(new.state)
}

/// `new` and `cmds` are the outcome of an invalid selection on `old`: the
/// error cue is played and the state becomes stopped; the queue is kept.
pub open spec fn rejected(old: Player, new: Player, cmds: Seq<EngineCommand>) -> bool {
    &&& cmds == error_commands(old)
    &&& new.state == PlayerState::stopped_spec()
    &&& new.queue@ == old.queue@
    &&& new.loaded_position == old.loaded_position
    &&& keeps_setup(old, new)
    &&& publishes_state(old, new)
}

/// `new` and `cmds` are the outcome of stopping `old`.
pub open spec fn stopped(old: Player, new: Player, cmds: Seq<EngineCommand>) -> bool {
    &&& cmds == seq![EngineCommand::StopKeepPlaylist]
    &&& new.state == PlayerState::stopped_spec()
    &&& new.queue@ == old.queue@
    &&& new.loaded_position == old.loaded_position
    &&& keeps_setup(old, new)
    &&& publishes_state(old, new)
}

/// `new` and `cmds` are the outcome of starting stream `i` of `old`'s library.
pub open spec fn stream_started(old: Player, new: Player, i: int, cmds: Seq<EngineCommand>) -> bool {
    let s = old.library.streams@[i];
    &&& cmds == start_commands(s.url)
    &&& new.state == (PlayerState {
        mode: PlayerMode::Playing,
        source: Some(Source::Stream { name: s.name }),
    })
    &&& new.queue@.len() == 0
    &&& new.loaded_position == 0
    &&& keeps_setup(old, new)
    &&& publishes_queue_and_state(old, new)
}

/// Whether playlist `i` of `lib` exists and has tracks.
pub open spec fn playable(lib: Library, i: int) -> bool {
    0 <= i < lib.playlists@.len() && lib.playlists@[i].tracks@.len() > 0
}

/// Whether track `j` of playlist `i` of `lib` exists.
pub open spec fn track_exists(lib: Library, i: int, j: int) -> bool {
    0 <= i < lib.playlists@.len() && 0 <= j < lib.playlists@[i].tracks@.len()
}

/// The commands that load all of `pl`: its first track replaces the engine's
/// playlist, the others are appended in order, then playback is started.
pub open spec fn playlist_commands(pl: Playlist, cmds: Seq<EngineCommand>) -> bool {
    let t = pl.tracks@;
    let n = t.len() as int;
    &&& cmds.len() == n + 2
    &&& cmds[0] == EngineCommand::LoadFile { path: t[0].filename, mode: LoadMode::Replace }
    &&& forall|k: int|
        1 <= k < n ==> cmds[k] == EngineCommand::LoadFile {
            path: t[k].filename,
            mode: LoadMode::Append,
        }
    &&& cmds[n] == EngineCommand::SetLoopPlaylist(false)
    &&& cmds[n + 1] == EngineCommand::SetPause(false)
}

/// `q` holds the entries for all tracks of `pl` but the first, in order.
pub open spec fn queue_of_rest(q: Seq<QueueItem>, pl: Playlist) -> bool {
    let t = pl.tracks@;
    &&& q.len() == t.len() - 1
    &&& forall|k: int| 0 <= k < q.len() ==> item_of_track(#[trigger] q[k], pl.title, t[k + 1])
}

/// `new` and `cmds` are the outcome of starting playlist `i` of `old`'s library:
/// the first track plays and the queue holds the others.
pub open spec fn playlist_started(old: Player, new: Player, i: int, cmds: Seq<EngineCommand>) -> bool {
    let pl = old.library.playlists@[i];
    &&& playlist_commands(pl, cmds)
    &&& queue_of_rest(new.queue@, pl)
    &&& new.state.mode == PlayerMode::Playing
    &&& new.state.source matches Some(src) && is_track_source(src, pl.title, pl.tracks@[0])
    &&& new.loaded_position == 0
    &&& new.current_indexes == Some(CurrentIndexes { album: i as usize, track: 0 })
    &&& new.library == old.library
    &&& new.error_cue == old.error_cue
    &&& publishes_queue_and_state(old, new)
}

/// `new` and `cmds` are the outcome of starting track `j` of playlist `i`
/// alone; the queue is kept.
pub open spec fn track_started(old: Player, new: Player, i: int, j: int, cmds: Seq<EngineCommand>) -> bool {
    let pl = old.library.playlists@[i];
    let t = pl.tracks@[j];
    &&& cmds == start_commands(t.filename)
    &&& new.state.mode == PlayerMode::Playing
    &&& new.state.source matches Some(src) && is_track_source(src, pl.title, t)
    &&& new.queue@ == old.queue@
    &&& new.loaded_position == 0
    &&& new.current_indexes == Some(CurrentIndexes { album: i as usize, track: j as usize })
    &&& new.library == old.library
    &&& new.error_cue == old.error_cue
    &&& publishes_state(old, new)
}

/// `new` and `cmds` are the outcome of toggling pause on `old` when the
/// engine reported `paused`: the engine's flag is inverted and the mode
/// follows it; the source is kept. A stopped controller stays as it is.
pub open spec fn pause_toggled(old: Player, new: Player, paused: bool, cmds: Seq<EngineCommand>) -> bool {
    &&& cmds == seq![EngineCommand::SetPause(!paused)]
    &&& if old.state.mode == PlayerMode::Stopped {
        new == old
    } else {
        &&& new.state == (PlayerState {
            mode: if paused { PlayerMode::Playing } else { PlayerMode::Paused },
            source: old.state.source,
        })
        &&& new.queue@ == old.queue@
        &&& new.loaded_position == old.loaded_position
        &&& keeps_setup(old, new)
        &&& publishes_state(old, new)
    }
}

/// `new` and `cmds` are the outcome of moving to the head of `old`'s
/// non-empty queue: the head replaces what the engine plays and leaves the queue.
pub open spec fn advanced_to_head(old: Player, new: Player, cmds: Seq<EngineCommand>) -> bool {
    let head = old.queue@[0];
    &&& cmds == seq![
        EngineCommand::LoadFile { path: head.file_path, mode: LoadMode::Replace },
        EngineCommand::SetPause(false),
    ]
    &&& new.queue@ == old.queue@.drop_first()
    &&& new.state == (PlayerState { mode: PlayerMode::Playing, source: Some(source_of_item(head)) })
    &&& new.loaded_position == 0
    &&& keeps_setup(old, new)
    &&& publishes_queue_and_state(old, new)
}

/// `new` is `old` after publishing its new queue, and nothing else.
pub open spec fn publishes_queue_only(old: Player, new: Player) -> bool {
    let n = old.outbox@.len() as int;
    &&& new.outbox@.len() == n + 1
    &&& new.outbox@.subrange(0, n) == old.outbox@
    &&& publishes_queue(new.outbox@[n], new.queue@)
}

/// `new` has the state, position and setup of `old`.
pub open spec fn keeps_playback(old: Player, new: Player) -> bool {
    &&& new.state == old.state
    &&& new.loaded_position == old.loaded_position
    &&& keeps_setup(old, new)
}

/// `new` and `cmds` are the outcome of appending track `j` of playlist `i` to
/// `old`'s queue and to the engine's playlist.
pub open spec fn appended(old: Player, new: Player, i: int, j: int, cmds: Seq<EngineCommand>) -> bool {
    let pl = old.library.playlists@[i];
    let t = pl.tracks@[j];
    &&& cmds == seq![EngineCommand::LoadFile { path: t.filename, mode: LoadMode::Append }]
    &&& new.queue@.len() == old.queue@.len() + 1
    &&& new.queue@.drop_last() == old.queue@
    &&& item_of_track(new.queue@.last(), pl.title, t)
    &&& keeps_playback(old, new)
    &&& publishes_queue_only(old, new)
}

/// Absolute engine playlist index of queue entry `k` when the engine plays
/// the entry at `playlist_pos`.
pub open spec fn absolute_queue_index(playlist_pos: int, k: int) -> int {
    playlist_pos + 1 + k
}

/// Whether queue entry `k` of `p` can be removed when the engine plays the
/// entry at `playlist_pos`.
pub open spec fn removable(p: Player, k: int, playlist_pos: int) -> bool {
    0 <= k < p.queue@.len() && absolute_queue_index(playlist_pos, k) <= usize::MAX
}

/// `new` and `cmds` are the outcome of removing queue entry `k` of `old`.
pub open spec fn removed(old: Player, new: Player, k: int, playlist_pos: int, cmds: Seq<EngineCommand>) -> bool {
    &&& cmds == seq![EngineCommand::PlaylistRemove(absolute_queue_index(playlist_pos, k) as usize)]
    &&& new.queue@ == old.queue@.remove(k)
    &&& keeps_playback(old, new)
    &&& publishes_queue_only(old, new)
}

/// The commands that remove every engine playlist entry after `playlist_pos`
/// among `playlist_count`, highest index first.
pub open spec fn clear_commands(playlist_pos: int, playlist_count: int) -> Seq<EngineCommand> {
    let n = if playlist_count > playlist_pos + 1 {
        playlist_count - playlist_pos - 1
    } else {
        0
    };
    Seq::new(n as nat, |k: int| EngineCommand::PlaylistRemove((playlist_count - 1 - k) as usize))
}

/// `new` is `old` after the engine reported that the entry at `playlist_pos`
/// started. Moving past the highest position seen makes the queue head the
/// current track; other reports only record the position.
pub open spec fn reconciled(old: Player, new: Player, playlist_pos: int) -> bool {
    if old.queue@.len() > 0 && playlist_pos > old.loaded_position {
        let head = old.queue@[0];
        &&& new.queue@ == old.queue@.drop_first()
        &&& new.state == (PlayerState {
            mode: PlayerMode::Playing,
            source: Some(source_of_item(head)),
        })
        &&& new.loaded_position == playlist_pos
        &&& keeps_setup(old, new)
        &&& publishes_queue_and_state(old, new)
    } else {
        &&& new.loaded_position == if playlist_pos > old.loaded_position {
            playlist_pos
        } else {
            old.loaded_position as int
        }
        &&& new.state == old.state
        &&& new.queue == old.queue
        &&& new.outbox == old.outbox
        &&& keeps_setup(old, new)
    }
}

impl Player {
    /// The controller is well formed when its state is.
    pub open spec fn wf(&self) -> bool {
        self.state.wf()
    }

    /// A stopped controller over `library` with an empty queue.
    pub fn new(library: Library, error_cue: String) -> (r: Player)
        ensures
            r.library == library,
            r.error_cue == error_cue,
            r.state == PlayerState::stopped_spec(),
            r.queue@.len() == 0,
            r.loaded_position == 0,
            r.current_indexes.is_none(),
            r.outbox@.len() == 0,
            r.wf(),
    {
        Player {
            library,
            state: PlayerState::stopped(),
            queue: Vec::new(),
            error_cue,
            loaded_position: 0,
            current_indexes: None,
            outbox: Vec::new(),
        }
    }

    /// Records `state` as the current state and publishes it.
    fn set_state(&mut self, state: PlayerState)
        ensures
            final(self).state == state,
            final(self).outbox@ == old(self).outbox@.push(Notification::StateChanged(state)),
            final(self).library == old(self).library,
            final(self).queue == old(self).queue,
            final(self).error_cue == old(self).error_cue,
            final(self).loaded_position == old(self).loaded_position,
            final(self).current_indexes == old(self).current_indexes,
    {
        let published = state.snapshot();
        self.state = state;
        self.outbox.push(Notification::StateChanged(published));
    }

    /// Publishes the current queue.
    fn publish_queue(&mut self)
        ensures
            final(self).outbox@.len() == old(self).outbox@.len() + 1,
            final(self).outbox@.subrange(0, old(self).outbox@.len() as int) == old(self).outbox@,
            publishes_queue(final(self).outbox@.last(), old(self).queue@),
            final(self).library == old(self).library,
            final(self).state == old(self).state,
            final(self).queue == old(self).queue,
            final(self).error_cue == old(self).error_cue,
            final(self).loaded_position == old(self).loaded_position,
            final(self).current_indexes == old(self).current_indexes,
    {
        let snapshot = copy_items(&self.queue);
        self.outbox.push(Notification::QueueChanged(snapshot));
        assert(self.outbox@.subrange(0, old(self).outbox@.len() as int) =~= old(self).outbox@);
    }

    /// Publishes the current queue, then records `state` and publishes it.
    fn publish_queue_then_state(&mut self, state: PlayerState)
        ensures
            final(self).state == state,
            publishes_queue_and_state(*old(self), *final(self)),
            final(self).library == old(self).library,
            final(self).queue == old(self).queue,
            final(self).error_cue == old(self).error_cue,
            final(self).loaded_position == old(self).loaded_position,
            final(self).current_indexes == old(self).current_indexes,
    {
        let ghost n = old(self).outbox@.len() as int;
        self.publish_queue();
        let ghost mid = self.outbox@;
        self.set_state(state);
        assert(self.outbox@.subrange(0, n) =~= mid.subrange(0, n));
        assert(self.outbox@[n] == mid[n]);
    }

    /// The commands that play the error cue; the controller is not changed.
    pub fn play_error(&self) -> (r: Vec<EngineCommand>)
        ensures
            r@ == error_commands(*self),
    {
        let mut cmds: Vec<EngineCommand> = Vec::new();
        cmds.push(EngineCommand::LoadFile { path: self.error_cue.clone(), mode: LoadMode::Replace });
        cmds
    }

    /// Handles an invalid selection: plays the error cue and stops.
    pub fn play_invalid(&mut self) -> (r: Vec<EngineCommand>)
        ensures
            rejected(*old(self), *final(self), r@),
            final(self).wf(),
    {
        let cmds = self.play_error();
        self.set_state(PlayerState::stopped());
        cmds
    }

    /// Stops playback, keeping the engine's playlist.
    pub fn stop(&mut self) -> (r: Vec<EngineCommand>)
        ensures
            stopped(*old(self), *final(self), r@),
            final(self).wf(),
    {
        let mut cmds: Vec<EngineCommand> = Vec::new();
        cmds.push(EngineCommand::StopKeepPlaylist);
        self.set_state(PlayerState::stopped());
        cmds
    }

    /// The commands that start `path` from the beginning.
    fn start_file(path: String) -> (r: Vec<EngineCommand>)
        ensures
            r@ == start_commands(path),
    {
        let mut cmds: Vec<EngineCommand> = Vec::new();
        cmds.push(EngineCommand::LoadFile { path, mode: LoadMode::Replace });
        cmds.push(EngineCommand::SetLoopPlaylist(false));
        cmds.push(EngineCommand::SetPause(false));
        cmds
    }

    /// Plays stream `stream_index`, or handles an invalid selection when there
    /// is no such stream.
    pub fn play_stream(&mut self, stream_index: usize) -> (r: Vec<EngineCommand>)
        ensures
            stream_index < old(self).library.streams@.len() ==> stream_started(
                *old(self),
                *final(self),
                stream_index as int,
                r@,
            ),
            stream_index >= old(self).library.streams@.len() ==> rejected(
                *old(self),
                *final(self),
                r@,
            ),
            final(self).wf(),
    {
        if stream_index < self.library.streams.len() {
            let url = self.library.streams[stream_index].url.clone();
            let name = self.library.streams[stream_index].name.clone();
            let cmds = Player::start_file(url);
            self.queue = Vec::new();
            self.loaded_position = 0;
            self.publish_queue_then_state(
                PlayerState { mode: PlayerMode::Playing, source: Some(Source::Stream { name }) },
            );
            cmds
        } else {
            self.play_invalid()
        }
    }

    /// Plays playlist `playlist_index`: its first track starts, the other
    /// tracks follow it in the engine's playlist and fill the queue. Handles an
    /// invalid selection when there is no such playlist or it has no tracks.
    pub fn play_playlist(&mut self, playlist_index: usize) -> (r: Vec<EngineCommand>)
        ensures
            playable(old(self).library, playlist_index as int) ==> playlist_started(
                *old(self),
                *final(self),
                playlist_index as int,
                r@,
            ),
            !playable(old(self).library, playlist_index as int) ==> rejected(
                *old(self),
                *final(self),
                r@,
            ),
            final(self).wf(),
    {
        if playlist_index < self.library.playlists.len()
            && self.library.playlists[playlist_index].tracks.len() > 0 {
            let ghost pl = self.library.playlists@[playlist_index as int];
            let title = self.library.playlists[playlist_index].title.clone();
            let tracks = &self.library.playlists[playlist_index].tracks;
            let first = QueueItem::from_track(&title, &tracks[0]);
            let mut cmds: Vec<EngineCommand> = Vec::new();
            cmds.push(
                EngineCommand::LoadFile { path: first.file_path.clone(), mode: LoadMode::Replace },
            );
            let mut queue: Vec<QueueItem> = Vec::new();
            let n = tracks.len();
            let mut k: usize = 1;
            while k < n
                invariant
                    tracks@ == pl.tracks@,
                    n == tracks@.len(),
                    title == pl.title,
                    1 <= k <= n,
                    cmds@.len() == k,
                    cmds@[0] == (EngineCommand::LoadFile {
                        path: tracks@[0].filename,
                        mode: LoadMode::Replace,
                    }),
                    forall|m: int|
                        1 <= m < k ==> cmds@[m] == (EngineCommand::LoadFile {
                            path: tracks@[m].filename,
                            mode: LoadMode::Append,
                        }),
                    queue@.len() == k - 1,
                    forall|m: int|
                        0 <= m < k - 1 ==> item_of_track(#[trigger] queue@[m], pl.title, tracks@[m + 1]),
                decreases n - k,
            {
                let item = QueueItem::from_track(&title, &tracks[k]);
                cmds.push(
                    EngineCommand::LoadFile { path: item.file_path.clone(), mode: LoadMode::Append },
                );
                queue.push(item);
                k = k + 1;
            }
            cmds.push(EngineCommand::SetLoopPlaylist(false));
            cmds.push(EngineCommand::SetPause(false));
            let source = first.to_source();
            self.queue = queue;
            self.loaded_position = 0;
            self.current_indexes = Some(CurrentIndexes { album: playlist_index, track: 0 });
            self.publish_queue_then_state(
                PlayerState { mode: PlayerMode::Playing, source: Some(source) },
            );
            cmds
        } else {
            self.play_invalid()
        }
    }

    /// Plays track `track_index` of playlist `playlist_index` on its own,
    /// leaving the queue as it is. Handles an invalid selection when there is
    /// no such track.
    pub fn play_playlist_track(&mut self, playlist_index: usize, track_index: usize) -> (r: Vec<EngineCommand>)
        ensures
            track_exists(old(self).library, playlist_index as int, track_index as int)
                ==> track_started(
                *old(self),
                *final(self),
                playlist_index as int,
                track_index as int,
                r@,
            ),
            !track_exists(old(self).library, playlist_index as int, track_index as int)
                ==> rejected(*old(self), *final(self), r@),
            final(self).wf(),
    {
        if playlist_index < self.library.playlists.len()
            && track_index < self.library.playlists[playlist_index].tracks.len() {
            let item = QueueItem::from_track(
                &self.library.playlists[playlist_index].title,
                &self.library.playlists[playlist_index].tracks[track_index],
            );
            let cmds = Player::start_file(item.file_path.clone());
            self.loaded_position = 0;
            self.current_indexes = Some(
                CurrentIndexes { album: playlist_index, track: track_index },
            );
            self.set_state(
                PlayerState { mode: PlayerMode::Playing, source: Some(item.to_source()) },
            );
            cmds
        } else {
            self.play_invalid()
        }
    }

    /// Toggles pause. `engine_paused` is the engine's `pause` flag, or `None`
    /// when no engine session exists yet; then the last selected playlist is
    /// played again, if there is one.
    pub fn play_pause(&mut self, engine_paused: Option<bool>) -> (r: Vec<EngineCommand>)
        ensures
            engine_paused matches Some(paused) ==> pause_toggled(*old(self), *final(self), paused, r@),
            engine_paused.is_none() ==> match old(self).current_indexes {
                Some(c) => {
                    &&& playable(old(self).library, c.album as int) ==> playlist_started(
                        *old(self),
                        *final(self),
                        c.album as int,
                        r@,
                    )
                    &&& !playable(old(self).library, c.album as int) ==> rejected(
                        *old(self),
                        *final(self),
                        r@,
                    )
                },
                None => r@.len() == 0 && *final(self) == *old(self),
            },
            old(self).wf() ==> final(self).wf(),
    {
        match engine_paused {
            Some(paused) => {
                let mut cmds: Vec<EngineCommand> = Vec::new();
                cmds.push(EngineCommand::SetPause(!paused));
                if self.state.mode != PlayerMode::Stopped {
                    let source = self.state.snapshot().source;
                    let mode = if paused {
                        PlayerMode::Playing
                    } else {
                        PlayerMode::Paused
                    };
                    self.set_state(PlayerState { mode, source });
                }
                cmds
            },
            None => match self.current_indexes {
                Some(c) => self.play_playlist(c.album),
                None => Vec::new(),
            },
        }
    }

    /// Moves to the next entry: the head of the queue when there is one,
    /// otherwise the engine's own next entry.
    pub fn play_next_track(&mut self) -> (r: Vec<EngineCommand>)
        ensures
            old(self).queue@.len() > 0 ==> advanced_to_head(*old(self), *final(self), r@),
            old(self).queue@.len() == 0 ==> r@ == seq![EngineCommand::PlaylistNext],
            old(self).queue@.len() == 0 ==> *final(self) == *old(self),
            old(self).wf() ==> final(self).wf(),
    {
        if self.queue.len() > 0 {
            let head = self.queue.remove(0);
            assert(self.queue@ =~= old(self).queue@.drop_first());
            let mut cmds: Vec<EngineCommand> = Vec::new();
            cmds.push(
                EngineCommand::LoadFile { path: head.file_path.clone(), mode: LoadMode::Replace },
            );
            cmds.push(EngineCommand::SetPause(false));
            assert(cmds@ =~= seq![
                EngineCommand::LoadFile { path: head.file_path, mode: LoadMode::Replace },
                EngineCommand::SetPause(false),
            ]);
            self.loaded_position = 0;
            self.publish_queue_then_state(
                PlayerState { mode: PlayerMode::Playing, source: Some(head.to_source()) },
            );
            cmds
        } else {
            let mut cmds: Vec<EngineCommand> = Vec::new();
            cmds.push(EngineCommand::PlaylistNext);
            cmds
        }
    }

    /// Moves to the engine's previous entry; the queue is not consulted.
    pub fn play_previous_track(&self) -> (r: Vec<EngineCommand>)
        ensures
            r@ == seq![EngineCommand::PlaylistPrev],
    {
        let mut cmds: Vec<EngineCommand> = Vec::new();
        cmds.push(EngineCommand::PlaylistPrev);
        cmds
    }


    /// Appends track `track_index` of playlist `playlist_index` to the queue
    /// and to the engine's playlist. Handles an invalid selection when there
    /// is no such track.
    pub fn append_to_queue(&mut self, playlist_index: usize, track_index: usize) -> (r: Vec<EngineCommand>)
        ensures
            track_exists(old(self).library, playlist_index as int, track_index as int)
                ==> appended(
                *old(self),
                *final(self),
                playlist_index as int,
                track_index as int,
                r@,
            ),
            !track_exists(old(self).library, playlist_index as int, track_index as int)
                ==> rejected(*old(self), *final(self), r@),
            old(self).wf() ==> final(self).wf(),
    {
        if playlist_index < self.library.playlists.len()
            && track_index < self.library.playlists[playlist_index].tracks.len() {
            let item = QueueItem::from_track(
                &self.library.playlists[playlist_index].title,
                &self.library.playlists[playlist_index].tracks[track_index],
            );
            let mut cmds: Vec<EngineCommand> = Vec::new();
            cmds.push(
                EngineCommand::LoadFile { path: item.file_path.clone(), mode: LoadMode::Append },
            );
            self.queue.push(item);
            assert(self.queue@.drop_last() =~= old(self).queue@);
            self.publish_queue();
            cmds
        } else {
            self.play_invalid()
        }
    }

    /// Removes queue entry `index`, and the engine playlist entry that mirrors
    /// it, given the engine's current playlist position. Nothing happens when
    /// there is no such entry.
    pub fn remove_from_queue(&mut self, index: usize, playlist_pos: usize) -> (r: Vec<EngineCommand>)
        ensures
            removable(*old(self), index as int, playlist_pos as int) ==> removed(
                *old(self),
                *final(self),
                index as int,
                playlist_pos as int,
                r@,
            ),
            !removable(*old(self), index as int, playlist_pos as int) ==> r@.len() == 0
                && *final(self) == *old(self),
            old(self).wf() ==> final(self).wf(),
    {
        if index < self.queue.len() && playlist_pos < usize::MAX - index {
            let absolute = playlist_pos + 1 + index;
            let mut cmds: Vec<EngineCommand> = Vec::new();
            cmds.push(EngineCommand::PlaylistRemove(absolute));
            self.queue.remove(index);
            self.publish_queue();
            cmds
        } else {
            Vec::new()
        }
    }

    /// Empties the queue and removes every engine playlist entry after the
    /// current one, highest index first so that no removal shifts an index
    /// still to be removed.
    pub fn clear_queue(&mut self, playlist_pos: usize, playlist_count: usize) -> (r: Vec<EngineCommand>)
        ensures
            r@ == clear_commands(playlist_pos as int, playlist_count as int),
            final(self).queue@.len() == 0,
            keeps_playback(*old(self), *final(self)),
            publishes_queue_only(*old(self), *final(self)),
            old(self).wf() ==> final(self).wf(),
    {
        let ghost expected = clear_commands(playlist_pos as int, playlist_count as int);
        let mut cmds: Vec<EngineCommand> = Vec::new();
        let mut next: usize = playlist_count;
        while next > 0 && next - 1 > playlist_pos
            invariant
                next <= playlist_count,
                playlist_count > playlist_pos + 1 ==> next >= playlist_pos + 1,
                playlist_count <= playlist_pos + 1 ==> next == playlist_count,
                cmds@.len() == playlist_count - next,
                forall|k: int|
                    0 <= k < cmds@.len() ==> cmds@[k] == EngineCommand::PlaylistRemove(
                        (playlist_count - 1 - k) as usize,
                    ),
            decreases next,
        {
            cmds.push(EngineCommand::PlaylistRemove(next - 1));
            next = next - 1;
        }
        assert(cmds@ =~= expected);
        self.queue = Vec::new();
        self.publish_queue();
        cmds
    }

    /// Takes in the engine's report that the entry at `playlist_pos` started.
    pub fn on_track_started(&mut self, playlist_pos: usize)
        ensures
            reconciled(*old(self), *final(self), playlist_pos as int),
            old(self).wf() ==> final(self).wf(),
    {
        if playlist_pos > self.loaded_position {
            self.loaded_position = playlist_pos;
            if self.queue.len() > 0 {
                let head = self.queue.remove(0);
                assert(self.queue@ =~= old(self).queue@.drop_first());
                self.publish_queue_then_state(
                    PlayerState { mode: PlayerMode::Playing, source: Some(head.to_source()) },
                );
            }
        }
    }

    /// Replaces the library with a newly loaded one and publishes that.
    pub fn reload_library(&mut self, library: Library)
        ensures
            final(self).library == library,
            final(self).state == old(self).state,
            final(self).queue == old(self).queue,
            final(self).error_cue == old(self).error_cue,
            final(self).loaded_position == old(self).loaded_position,
            final(self).current_indexes == old(self).current_indexes,
            final(self).outbox@ == old(self).outbox@.push(Notification::LibraryReloaded),
            old(self).wf() ==> final(self).wf(),
    {
        self.library = library;
        self.outbox.push(Notification::LibraryReloaded);
    }

    /// Hands out the pending notifications, oldest first.
    pub fn take_notifications(&mut self) -> (r: Vec<Notification>)
        ensures
            r@ == old(self).outbox@,
            final(self).outbox@.len() == 0,
            final(self).library == old(self).library,
            final(self).state == old(self).state,
            final(self).queue == old(self).queue,
            final(self).error_cue == old(self).error_cue,
            final(self).loaded_position == old(self).loaded_position,
            final(self).current_indexes == old(self).current_indexes,
            old(self).wf() ==> final(self).wf(),
    {
        let mut out: Vec<Notification> = Vec::new();
        std::mem::swap(&mut out, &mut self.outbox);
        out
    }


    /// Plays the source that `index` selects: a stream, else a playlist.
    /// Handles an invalid selection when the index selects nothing playable.
    pub fn play_source(&mut self, index: usize) -> (r: Vec<EngineCommand>)
        ensures
            match source_ref_of(
                old(self).library.streams@.len() as int,
                old(self).library.playlists@.len() as int,
                index as int,
            ) {
                Some(SourceRef::Stream(i)) => stream_started(*old(self), *final(self), i as int, r@),
                Some(SourceRef::Playlist(i)) => if playable(old(self).library, i as int) {
                    playlist_started(*old(self), *final(self), i as int, r@)
                } else {
                    rejected(*old(self), *final(self), r@)
                },
                None => rejected(*old(self), *final(self), r@),
            },
            final(self).wf(),
    {
        match self.library.resolve_source(index) {
            Some(SourceRef::Stream(i)) => self.play_stream(i),
            Some(SourceRef::Playlist(i)) => self.play_playlist(i),
            None => self.play_invalid(),
        }
    }

}

} // verus!
