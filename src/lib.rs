//! Note-triggered media control: key mapping, the media library model, the
//! up-next queue and the playback state machine that drives an external
//! playback engine through explicit command lists.
pub mod keys;
pub mod library;
pub mod state;
pub mod queue;
pub mod engine;
pub mod player;
pub mod laws;
pub mod launch;
pub mod mirror;
