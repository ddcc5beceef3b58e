use miconau::engine::{EngineCommand, LoadMode, Notification};
use miconau::library::{Library, Playlist, Stream, Track};
use miconau::player::{CurrentIndexes, Player};
use miconau::state::{PlayerMode, PlayerState, Source};

fn track(path: &str, title: Option<&str>, artist: Option<&str>) -> Track {
    Track {
        filename: path.to_string(),
        artist: artist.map(|a| a.to_string()),
        title: title.map(|t| t.to_string()),
    }
}

fn stream(name: &str, url: &str) -> Stream {
    Stream { name: name.to_string(), url: url.to_string(), logo_svg: None }
}

fn sample_library() -> Library {
    Library {
        folder: "/music".to_string(),
        streams: vec![
            stream("Radio One", "http://one.example/stream"),
            stream("Radio Two", "http://two.example/stream"),
            stream("Radio Three", "http://three.example/stream"),
        ],
        playlists: vec![
            Playlist {
                title: "Album A".to_string(),
                tracks: vec![
                    track("/music/Album A/01 intro.mp3", Some("Intro"), Some("Band")),
                    track("/music/Album A/02 song.flac", None, None),
                    track("/music/Album A/03 outro.mp3", Some("Outro"), None),
                    track("/music/Album A/04 bonus.mp3", Some("Bonus"), Some("Guest")),
                ],
            },
            Playlist { title: "Empty".to_string(), tracks: vec![] },
        ],
    }
}

fn player() -> Player {
    Player::new(sample_library(), "/assets/error.wav".to_string())
}

fn load(path: &str, mode: LoadMode) -> EngineCommand {
    EngineCommand::LoadFile { path: path.to_string(), mode }
}

fn track_source(title: &str, artist: Option<&str>, playlist: &str) -> Option<Source> {
    Some(Source::Track {
        title: title.to_string(),
        artist: artist.map(|a| a.to_string()),
        playlist_name: playlist.to_string(),
    })
}

#[test]
fn new_player_is_stopped_and_empty() {
    let p = player();
    assert_eq!(p.state, PlayerState { mode: PlayerMode::Stopped, source: None });
    assert!(p.queue.is_empty());
    assert!(p.outbox.is_empty());
    assert_eq!(p.current_indexes, None);
}

#[test]
fn play_stream_loads_url_and_plays() {
    let mut p = player();
    let cmds = p.play_stream(1);
    assert_eq!(
        cmds,
        vec![
            load("http://two.example/stream", LoadMode::Replace),
            EngineCommand::SetLoopPlaylist(false),
            EngineCommand::SetPause(false),
        ]
    );
    assert_eq!(
        p.state,
        PlayerState {
            mode: PlayerMode::Playing,
            source: Some(Source::Stream { name: "Radio Two".to_string() }),
        }
    );
}

#[test]
fn play_stream_out_of_range_plays_error_cue_and_stops() {
    let mut p = player();
    p.play_stream(0);
    let cmds = p.play_stream(5);
    assert_eq!(cmds, vec![load("/assets/error.wav", LoadMode::Replace)]);
    assert_eq!(p.state.mode, PlayerMode::Stopped);
    assert_eq!(p.state.source, None);
}

#[test]
fn play_playlist_fills_queue_with_remaining_tracks() {
    let mut p = player();
    let cmds = p.play_playlist(0);
    assert_eq!(
        cmds,
        vec![
            load("/music/Album A/01 intro.mp3", LoadMode::Replace),
            load("/music/Album A/02 song.flac", LoadMode::Append),
            load("/music/Album A/03 outro.mp3", LoadMode::Append),
            load("/music/Album A/04 bonus.mp3", LoadMode::Append),
            EngineCommand::SetLoopPlaylist(false),
            EngineCommand::SetPause(false),
        ]
    );
    assert_eq!(p.queue.len(), 3);
    let paths: Vec<&str> = p.queue.iter().map(|i| i.file_path.as_str()).collect();
    assert_eq!(
        paths,
        vec!["/music/Album A/02 song.flac", "/music/Album A/03 outro.mp3", "/music/Album A/04 bonus.mp3"]
    );
    // a track without a title tag is shown by its file stem
    assert_eq!(p.queue[0].title, "02 song");
    assert_eq!(p.queue[1].title, "Outro");
    assert_eq!(p.queue[2].artist, Some("Guest".to_string()));
    assert_eq!(p.state.mode, PlayerMode::Playing);
    assert_eq!(p.state.source, track_source("Intro", Some("Band"), "Album A"));
    assert_eq!(p.current_indexes, Some(CurrentIndexes { album: 0, track: 0 }));
    assert!(matches!(p.outbox[0], Notification::QueueChanged(ref q) if q.len() == 3));
    assert!(matches!(p.outbox[1], Notification::StateChanged(ref s) if *s == p.state));
}

#[test]
fn empty_or_missing_playlist_is_rejected() {
    let mut p = player();
    assert_eq!(p.play_playlist(1), vec![load("/assets/error.wav", LoadMode::Replace)]);
    assert_eq!(p.state.mode, PlayerMode::Stopped);
    assert_eq!(p.play_playlist(9), vec![load("/assets/error.wav", LoadMode::Replace)]);
    assert_eq!(p.state.source, None);
}

#[test]
fn play_source_resolves_streams_then_playlists() {
    let mut p = player();
    p.play_source(2);
    assert_eq!(p.state.source, Some(Source::Stream { name: "Radio Three".to_string() }));
    p.play_source(3);
    assert_eq!(p.state.source, track_source("Intro", Some("Band"), "Album A"));
    let cmds = p.play_source(5);
    assert_eq!(cmds, vec![load("/assets/error.wav", LoadMode::Replace)]);
    assert_eq!(p.state.mode, PlayerMode::Stopped);
}

#[test]
fn play_playlist_track_keeps_queue() {
    let mut p = player();
    p.play_playlist(0);
    let cmds = p.play_playlist_track(0, 2);
    assert_eq!(
        cmds,
        vec![
            load("/music/Album A/03 outro.mp3", LoadMode::Replace),
            EngineCommand::SetLoopPlaylist(false),
            EngineCommand::SetPause(false),
        ]
    );
    assert_eq!(p.queue.len(), 3);
    assert_eq!(p.state.source, track_source("Outro", None, "Album A"));
    assert_eq!(p.current_indexes, Some(CurrentIndexes { album: 0, track: 2 }));
    assert_eq!(p.play_playlist_track(0, 4), vec![load("/assets/error.wav", LoadMode::Replace)]);
}

#[test]
fn play_pause_toggles_mode_and_keeps_source() {
    let mut p = player();
    p.play_stream(0);
    let source = p.state.source.clone();
    assert_eq!(p.play_pause(Some(false)), vec![EngineCommand::SetPause(true)]);
    assert_eq!(p.state.mode, PlayerMode::Paused);
    assert_eq!(p.state.source, source);
    assert_eq!(p.play_pause(Some(true)), vec![EngineCommand::SetPause(false)]);
    assert_eq!(p.state.mode, PlayerMode::Playing);
    assert_eq!(p.state.source, source);
}

#[test]
fn play_pause_without_session_replays_last_playlist() {
    let mut p = player();
    assert!(p.play_pause(None).is_empty());
    assert_eq!(p.state.mode, PlayerMode::Stopped);
    p.play_playlist(0);
    p.stop();
    let cmds = p.play_pause(None);
    assert_eq!(cmds[0], load("/music/Album A/01 intro.mp3", LoadMode::Replace));
    assert_eq!(p.state.mode, PlayerMode::Playing);
}

#[test]
fn stop_always_ends_stopped_without_source() {
    let mut p = player();
    assert_eq!(p.stop(), vec![EngineCommand::StopKeepPlaylist]);
    assert_eq!(p.state, PlayerState { mode: PlayerMode::Stopped, source: None });
    p.play_playlist(0);
    p.play_pause(Some(false));
    assert_eq!(p.state.mode, PlayerMode::Paused);
    p.stop();
    assert_eq!(p.state, PlayerState { mode: PlayerMode::Stopped, source: None });
    assert_eq!(p.queue.len(), 3);
}

#[test]
fn next_takes_queue_head_before_engine_next() {
    let mut p = player();
    p.play_playlist(0);
    let cmds = p.play_next_track();
    assert_eq!(
        cmds,
        vec![load("/music/Album A/02 song.flac", LoadMode::Replace), EngineCommand::SetPause(false)]
    );
    assert_eq!(p.queue.len(), 2);
    assert_eq!(p.state.source, track_source("02 song", None, "Album A"));

    let mut q = player();
    assert_eq!(q.play_next_track(), vec![EngineCommand::PlaylistNext]);
    assert_eq!(q.play_previous_track(), vec![EngineCommand::PlaylistPrev]);
}

#[test]
fn next_and_its_start_report_pop_queue_once() {
    let mut p = player();
    p.play_playlist(0);
    p.play_next_track();
    p.on_track_started(0);
    assert_eq!(p.queue.len(), 2);
    assert_eq!(p.queue[0].file_path, "/music/Album A/03 outro.mp3");
}

#[test]
fn engine_advance_pops_head_once_per_position() {
    let mut p = player();
    p.play_playlist(0);
    p.on_track_started(0);
    assert_eq!(p.queue.len(), 3);
    p.on_track_started(1);
    assert_eq!(p.queue.len(), 2);
    assert_eq!(p.state.source, track_source("02 song", None, "Album A"));
    p.on_track_started(1);
    assert_eq!(p.queue.len(), 2);
    // going back does not pop, and neither does returning to a seen position
    p.on_track_started(0);
    p.on_track_started(1);
    assert_eq!(p.queue.len(), 2);
    p.on_track_started(2);
    assert_eq!(p.queue.len(), 1);
    assert_eq!(p.state.source, track_source("Outro", None, "Album A"));
}

#[test]
fn remove_uses_absolute_engine_index() {
    let mut p = player();
    p.play_playlist(0);
    let before = p.queue.clone();
    let cmds = p.remove_from_queue(0, 4);
    assert_eq!(cmds, vec![EngineCommand::PlaylistRemove(5)]);
    assert_eq!(p.queue, vec![before[1].clone(), before[2].clone()]);
    assert!(p.remove_from_queue(2, 0).is_empty());
    assert_eq!(p.queue.len(), 2);
    assert!(p.remove_from_queue(0, usize::MAX).is_empty());
}

#[test]
fn clear_removes_from_highest_index_down() {
    let mut p = player();
    p.play_playlist(0);
    let cmds = p.clear_queue(1, 5);
    assert_eq!(
        cmds,
        vec![
            EngineCommand::PlaylistRemove(4),
            EngineCommand::PlaylistRemove(3),
            EngineCommand::PlaylistRemove(2),
        ]
    );
    assert!(p.queue.is_empty());
    assert!(p.clear_queue(3, 4).is_empty());
    assert!(p.clear_queue(0, 0).is_empty());
}

#[test]
fn append_adds_to_queue_and_engine() {
    let mut p = player();
    let cmds = p.append_to_queue(0, 3);
    assert_eq!(cmds, vec![load("/music/Album A/04 bonus.mp3", LoadMode::Append)]);
    assert_eq!(p.queue.len(), 1);
    assert_eq!(p.queue[0].title, "Bonus");
    assert_eq!(p.queue[0].playlist_name, "Album A");
    let bad = p.append_to_queue(0, 7);
    assert_eq!(bad, vec![load("/assets/error.wav", LoadMode::Replace)]);
    assert_eq!(p.queue.len(), 1);
    assert_eq!(p.state.mode, PlayerMode::Stopped);
}

#[test]
fn notifications_are_handed_out_in_order() {
    let mut p = player();
    p.play_stream(0);
    p.stop();
    p.reload_library(sample_library());
    let out = p.take_notifications();
    assert_eq!(out.len(), 4);
    assert!(matches!(out[0], Notification::QueueChanged(ref q) if q.is_empty()));
    assert!(matches!(out[1], Notification::StateChanged(ref s) if s.mode == PlayerMode::Playing));
    assert!(matches!(out[2], Notification::StateChanged(ref s) if s.mode == PlayerMode::Stopped));
    assert_eq!(out[3], Notification::LibraryReloaded);
    assert!(p.take_notifications().is_empty());
}

#[test]
fn play_error_leaves_player_unchanged() {
    let mut p = player();
    p.play_playlist(0);
    let state = p.state.clone();
    assert_eq!(p.play_error(), vec![load("/assets/error.wav", LoadMode::Replace)]);
    assert_eq!(p.state, state);
    assert_eq!(p.queue.len(), 3);
}
