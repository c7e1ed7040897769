//! Real-time playback position tracking: extrapolates the position from a
//! stored base and the wall clock, debounces internal advances, and
//! reconciles against media snapshots with drift correction.

use vstd::prelude::*;

use crate::media::{MediaInfo, PlaybackStatus};

verus! {

/// A change in playback that the tracker announces.
#[derive(Debug, Clone)]
pub enum PlaybackEvent {
    /// Another song started.
    SongChanged { title: String, artist: String, duration_ms: Option<u64> },
    /// Playback started or stopped, at the given position.
    PlayStateChanged { is_playing: bool, position_ms: u64 },
    /// The position moved.
    PositionUpdate { position_ms: u64 },
    /// Nothing valid is playing any more.
    Reset,
}

/// The playback position tracker. All methods take the wall clock as a
/// plain `now_ms` argument and are verified for every time value.
#[derive(Debug)]
pub struct PlaybackTimer {
    /// Whether the tracked media is playing.
    pub is_playing: bool,
    /// The last anchored position, in milliseconds.
    pub base_position_ms: u64,
    /// The song's duration in milliseconds; zero when unknown.
    pub duration_ms: u64,
    /// When the base was anchored, in wall-clock milliseconds.
    pub last_update_timestamp: u64,
    /// The identity of the tracked song.
    pub current_song: Option<(String, String)>,
}

/// The position the tracker reports at `now_ms`: the base while paused;
/// while playing, the base advanced by the elapsed time and clipped to the
/// duration when one is known.
pub open spec fn extrapolated(t: &PlaybackTimer, now_ms: u64) -> u64 {
    if !t.is_playing {
        t.base_position_ms
    } else {
        let elapsed: int = if now_ms >= t.last_update_timestamp {
            now_ms - t.last_update_timestamp
        } else {
            0
        };
        let cur: int = if t.base_position_ms + elapsed <= u64::MAX {
            t.base_position_ms + elapsed
        } else {
            u64::MAX as int
        };
        if t.duration_ms > 0 && cur > t.duration_ms {
            t.duration_ms
        } else {
            cur as u64
        }
    }
}

/// The song a snapshot carries, when both fields are present.
pub open spec fn media_song(m: &MediaInfo) -> Option<(Seq<char>, Seq<char>)> {
    if m.title@.len() == 0 || m.artist@.len() == 0 {
        None
    } else {
        Some((m.title@, m.artist@))
    }
}

/// The view of the tracked song.
pub open spec fn song_view(s: Option<(String, String)>) -> Option<(Seq<char>, Seq<char>)> {
    match s {
        Some(p) => Some((p.0@, p.1@)),
        None => None,
    }
}

/// Whether a snapshot names the song the tracker already tracks.
pub open spec fn same_song(t: &PlaybackTimer, m: &MediaInfo) -> bool {
    song_view(t.current_song) == media_song(m)
}

/// The tracker after the play-state step of a same-song sync: a changed
/// flag is taken over and the base re-anchored to now.
pub open spec fn after_flag_step(t: PlaybackTimer, new_playing: bool, now_ms: u64) -> PlaybackTimer {
    if t.is_playing != new_playing {
        PlaybackTimer { is_playing: new_playing, last_update_timestamp: now_ms, ..t }
    } else {
        t
    }
}

/// The absolute difference of two positions.
pub open spec fn abs_diff(a: u64, b: u64) -> int {
    if a >= b {
        a - b
    } else {
        b - a
    }
}

/// The tracker after the drift step of a same-song sync: a reported
/// position replaces the base only when it strays more than 1000 ms from
/// the extrapolated one.
pub open spec fn after_drift_step(t: PlaybackTimer, pos: Option<u64>, now_ms: u64) -> PlaybackTimer {
    match pos {
        Some(actual) => if abs_diff(actual, extrapolated(&t, now_ms)) > 1000 {
            PlaybackTimer { base_position_ms: actual, last_update_timestamp: now_ms, ..t }
        } else {
            t
        },
        None => t,
    }
}

/// The tracker after a same-song sync: a changed play flag is taken over
/// and the clock re-anchored; only an unchanged flag lets the drift
/// comparison run — the two steps are exclusive.
pub open spec fn after_same_song_sync(
    t: PlaybackTimer,
    new_playing: bool,
    pos: Option<u64>,
    now_ms: u64,
) -> PlaybackTimer {
    if t.is_playing != new_playing {
        after_flag_step(t, new_playing, now_ms)
    } else {
        after_drift_step(t, pos, now_ms)
    }
}

/// The events a same-song sync announces: a play-state change at the
/// freshly extrapolated position, or — only with the flag unchanged — a
/// drift correction, when its step fired.
pub open spec fn same_song_events(t: PlaybackTimer, new_playing: bool, pos: Option<u64>, now_ms: u64) -> Seq<PlaybackEvent> {
    if t.is_playing != new_playing {
        seq![PlaybackEvent::PlayStateChanged {
            is_playing: new_playing,
            position_ms: extrapolated(&after_flag_step(t, new_playing, now_ms), now_ms),
        }]
    } else {
        match pos {
            Some(actual) => if abs_diff(actual, extrapolated(&t, now_ms)) > 1000 {
                seq![PlaybackEvent::PositionUpdate { position_ms: actual }]
            } else {
                Seq::empty()
            },
            None => Seq::empty(),
        }
    }
}

/// A value or zero.
pub open spec fn opt_or_zero(o: Option<u64>) -> u64 {
    match o {
        Some(v) => v,
        None => 0,
    }
}

impl PlaybackTimer {
    /// A fresh tracker: nothing playing, nothing tracked, anchored at
    /// `now_ms`.
    pub fn new(now_ms: u64) -> (r: Self)
        ensures
            !r.is_playing,
            r.base_position_ms == 0,
            r.duration_ms == 0,
            r.last_update_timestamp == now_ms,
            r.current_song is None,
    {
        PlaybackTimer {
            is_playing: false,
            base_position_ms: 0,
            duration_ms: 0,
            last_update_timestamp: now_ms,
            current_song: None,
        }
    }

    /// The position at `now_ms`, read without blocking: the stored base,
    /// advanced by the elapsed time only while playing, and clipped to a
    /// known duration.
    pub fn get_current_position(&self, now_ms: u64) -> (r: u64)
        ensures
            r == extrapolated(self, now_ms),
    {
        if !self.is_playing {
            return self.base_position_ms;
        }
        let elapsed = now_ms.saturating_sub(self.last_update_timestamp);
        let cur = self.base_position_ms.saturating_add(elapsed);
        if self.duration_ms > 0 && cur > self.duration_ms {
            self.duration_ms
        } else {
            cur
        }
    }

    /// Advances the stored base while playing, on a tick: only when at
    /// least 50 ms elapsed is the base moved (to the extrapolated
    /// position) and re-anchored, and only an advance of at least 100 ms
    /// is announced.
    pub fn update_internal_position(&mut self, now_ms: u64) -> (r: Option<PlaybackEvent>)
        ensures
            ({
                let elapsed: int = if now_ms >= old(self).last_update_timestamp {
                    now_ms - old(self).last_update_timestamp
                } else {
                    0
                };
                if !old(self).is_playing || elapsed < 50 {
                    *final(self) == *old(self) && r is None
                } else {
                    &&& final(self).base_position_ms == extrapolated(old(self), now_ms)
                    &&& final(self).last_update_timestamp == now_ms
                    &&& final(self).is_playing == old(self).is_playing
                    &&& final(self).duration_ms == old(self).duration_ms
                    &&& final(self).current_song == old(self).current_song
                    &&& r == if elapsed >= 100 {
                        Some(PlaybackEvent::PositionUpdate {
                            position_ms: extrapolated(old(self), now_ms),
                        })
                    } else {
                        None::<PlaybackEvent>
                    }
                }
            }),
    {
        if !self.is_playing {
            return None;
        }
        let elapsed = now_ms.saturating_sub(self.last_update_timestamp);
        if elapsed < 50 {
            return None;
        }
        let new_position = self.base_position_ms.saturating_add(elapsed);
        let final_position = if self.duration_ms > 0 && new_position > self.duration_ms {
            self.duration_ms
        } else {
            new_position
        };
        self.base_position_ms = final_position;
        self.last_update_timestamp = now_ms;
        if elapsed >= 100 {
            Some(PlaybackEvent::PositionUpdate { position_ms: final_position })
        } else {
            None
        }
    }

    /// Reconciles the tracker with a snapshot. A different identity resets
    /// every field from the snapshot and announces the new song (or a
    /// reset, when the snapshot names none). The same identity takes over
    /// a changed play flag, re-anchoring the clock so no drift jump
    /// follows; only an unchanged flag lets the reported position correct
    /// drift beyond 1000 ms.
    pub fn sync_with_media(&mut self, media: &MediaInfo, now_ms: u64) -> (r: Vec<PlaybackEvent>)
        ensures
            !same_song(old(self), media) ==> {
                &&& final(self).base_position_ms == opt_or_zero(media.position_ms)
                &&& final(self).duration_ms == opt_or_zero(media.duration_ms)
                &&& final(self).is_playing == (media.playback_status == PlaybackStatus::Playing)
                &&& final(self).last_update_timestamp == now_ms
                &&& song_view(final(self).current_song) == media_song(media)
                &&& r@.len() == 1
                &&& (media_song(media) is Some ==> (r@[0] matches PlaybackEvent::SongChanged {
                    title, artist, duration_ms
                } && title@ == media.title@ && artist@ == media.artist@
                    && duration_ms == media.duration_ms))
                &&& (media_song(media) is None ==> r@[0] is Reset)
            },
            same_song(old(self), media) && old(self).current_song is Some ==> {
                let new_playing = media.playback_status == PlaybackStatus::Playing;
                &&& *final(self) == after_same_song_sync(
                    *old(self),
                    new_playing,
                    media.position_ms,
                    now_ms,
                )
                &&& r@ == same_song_events(*old(self), new_playing, media.position_ms, now_ms)
            },
            same_song(old(self), media) && old(self).current_song is None ==> {
                *final(self) == *old(self) && r@.len() == 0
            },
    {
        let ghost t0 = *old(self);
        let mut events: Vec<PlaybackEvent> = Vec::new();
        let new_playing = match media.playback_status {
            PlaybackStatus::Playing => true,
            _ => false,
        };
        let has_song = !media.title.as_str().is_empty() && !media.artist.as_str().is_empty();
        let is_same = match &self.current_song {
            Some(cur) => {
                has_song && cur.0 == media.title && cur.1 == media.artist
            },
            None => !has_song,
        };
        proof {
            assert(is_same == same_song(&t0, media));
        }
        if !is_same {
            let new_position = match media.position_ms {
                Some(p) => p,
                None => 0,
            };
            let new_duration = match media.duration_ms {
                Some(d) => d,
                None => 0,
            };
            self.base_position_ms = new_position;
            self.duration_ms = new_duration;
            self.is_playing = new_playing;
            self.last_update_timestamp = now_ms;
            if has_song {
                self.current_song = Some((media.title.clone(), media.artist.clone()));
                events.push(PlaybackEvent::SongChanged {
                    title: media.title.clone(),
                    artist: media.artist.clone(),
                    duration_ms: media.duration_ms,
                });
            } else {
                self.current_song = None;
                events.push(PlaybackEvent::Reset);
            }
            return events;
        }
        if self.current_song.is_none() {
            return events;
        }
        if self.is_playing != new_playing {
            self.is_playing = new_playing;
            self.last_update_timestamp = now_ms;
            let current_position = self.get_current_position(now_ms);
            events.push(PlaybackEvent::PlayStateChanged {
                is_playing: new_playing,
                position_ms: current_position,
            });
            proof {
                assert(*self == after_flag_step(t0, new_playing, now_ms));
            }
        } else if let Some(actual) = media.position_ms {
            let current = self.get_current_position(now_ms);
            let diff = if actual >= current {
                actual - current
            } else {
                current - actual
            };
            if diff > 1000 {
                self.base_position_ms = actual;
                self.last_update_timestamp = now_ms;
                events.push(PlaybackEvent::PositionUpdate { position_ms: actual });
            }
        }
        proof {
            assert(*self == after_same_song_sync(t0, new_playing, media.position_ms, now_ms));
            assert(events@ =~= same_song_events(t0, new_playing, media.position_ms, now_ms));
        }
        events
    }

    /// The tracked song, when one is known.
    pub fn get_current_song(&self) -> (r: Option<&(String, String)>)
        ensures
            match r {
                Some(p) => song_view(self.current_song) == Some((p.0@, p.1@)),
                None => self.current_song is None,
            },
    {
        match &self.current_song {
            Some(p) => Some(p),
            None => None,
        }
    }

    /// The song's duration, when one is known.
    pub fn get_duration(&self) -> (r: Option<u64>)
        ensures
            r == if self.duration_ms > 0 {
                Some(self.duration_ms)
            } else {
                None::<u64>
            },
    {
        if self.duration_ms > 0 {
            Some(self.duration_ms)
        } else {
            None
        }
    }

    /// Whether the tracked media is playing.
    pub fn is_playing(&self) -> (r: bool)
        ensures
            r == self.is_playing,
    {
        self.is_playing
    }

    /// Forgets everything and announces a reset.
    pub fn reset(&mut self, now_ms: u64) -> (r: PlaybackEvent)
        ensures
            !final(self).is_playing,
            final(self).base_position_ms == 0,
            final(self).duration_ms == 0,
            final(self).last_update_timestamp == now_ms,
            final(self).current_song is None,
            r is Reset,
    {
        self.base_position_ms = 0;
        self.duration_ms = 0;
        self.is_playing = false;
        self.last_update_timestamp = now_ms;
        self.current_song = None;
        PlaybackEvent::Reset
    }
}

/// While paused, the reported position is exactly the stored base, for any
/// elapsed wall-clock time.
pub proof fn lemma_paused_position_is_base(t: &PlaybackTimer, now_ms: u64)
    requires
        !t.is_playing,
    ensures
        extrapolated(t, now_ms) == t.base_position_ms,
{
}

/// While playing, the reported position never decreases as the clock
/// advances.
pub proof fn lemma_playing_position_monotonic(t: &PlaybackTimer, n1: u64, n2: u64)
    requires
        n1 <= n2,
    ensures
        extrapolated(t, n1) <= extrapolated(t, n2),
{
}

/// While playing with a known duration, the reported position never
/// exceeds that duration, wherever the base stands.
pub proof fn lemma_playing_position_bounded(t: &PlaybackTimer, now_ms: u64)
    requires
        t.is_playing,
        t.duration_ms > 0,
    ensures
        extrapolated(t, now_ms) <= t.duration_ms,
{
}

/// While playing, after `e` elapsed milliseconds the reported position is
/// the base advanced by `e`, clipped to a known duration.
pub proof fn lemma_playing_position_extrapolates(t: &PlaybackTimer, e: u64)
    requires
        t.is_playing,
        t.last_update_timestamp + e <= u64::MAX,
        t.base_position_ms + e <= u64::MAX,
    ensures
        extrapolated(t, (t.last_update_timestamp + e) as u64)
            == if t.duration_ms > 0 && t.base_position_ms + e > t.duration_ms {
                t.duration_ms
            } else {
                (t.base_position_ms + e) as u64
            },
{
}

/// A same-identity sync with an unchanged play flag whose reported
/// position strays at most 1000 ms from the extrapolated one leaves the
/// stored base untouched.
pub proof fn lemma_sync_within_tolerance(t: PlaybackTimer, actual: u64, now_ms: u64)
    requires
        abs_diff(actual, extrapolated(&t, now_ms)) <= 1000,
    ensures
        after_drift_step(t, Some(actual), now_ms) == t,
{
}

/// A same-identity sync with an unchanged play flag whose reported
/// position strays by more than 1000 ms — 1001 ms already suffices —
/// forces the stored base to the reported value and re-anchors the clock.
pub proof fn lemma_sync_beyond_tolerance(t: PlaybackTimer, actual: u64, now_ms: u64)
    requires
        abs_diff(actual, extrapolated(&t, now_ms)) > 1000,
    ensures
        after_drift_step(t, Some(actual), now_ms).base_position_ms == actual,
        after_drift_step(t, Some(actual), now_ms).last_update_timestamp == now_ms,
        after_drift_step(t, Some(actual), now_ms).is_playing == t.is_playing,
        after_drift_step(t, Some(actual), now_ms).duration_ms == t.duration_ms,
        after_drift_step(t, Some(actual), now_ms).current_song == t.current_song,
{
}

} // verus!
