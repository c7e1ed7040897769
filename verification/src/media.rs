//! Media snapshots, as the host's media session reports them: what plays,
//! how long it is, where it stands, and whether it is playing.

use vstd::prelude::*;

verus! {

/// The reported playback state of the host's media session.
#[derive(Debug, Clone, PartialEq, Eq, Structural)]
pub enum PlaybackStatus {
    Unknown,
    Playing,
    Paused,
    Stopped,
}

impl Default for PlaybackStatus {
    /// The state before anything was reported.
    fn default() -> (r: Self)
        ensures
            r == PlaybackStatus::Unknown,
    {
        PlaybackStatus::Unknown
    }
}

/// One snapshot of the playing media: title, artist, duration, position and
/// state, all as the collaborator reported them.
#[derive(Debug, Clone)]
pub struct MediaInfo {
    pub app_name: String,
    pub title: String,
    pub artist: String,
    pub duration_ms: Option<u64>,
    pub position_ms: Option<u64>,
    pub playback_status: PlaybackStatus,
}

impl Default for MediaInfo {
    /// The empty snapshot: no media.
    fn default() -> (r: Self)
        ensures
            r.app_name@.len() == 0,
            r.title@.len() == 0,
            r.artist@.len() == 0,
            r.duration_ms is None,
            r.position_ms is None,
            r.playback_status == PlaybackStatus::Unknown,
    {
        MediaInfo {
            app_name: String::new(),
            title: String::new(),
            artist: String::new(),
            duration_ms: None,
            position_ms: None,
            playback_status: PlaybackStatus::Unknown,
        }
    }
}

/// What the media monitor hands on: a fresh snapshot, a monitoring error,
/// or the end of monitoring.
#[derive(Debug, Clone)]
pub enum MediaEvent {
    InfoUpdated(MediaInfo),
    Error(String),
    Stopped,
}

} // verus!
