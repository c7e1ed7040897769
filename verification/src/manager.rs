//! The lyrics orchestrator: reacts to playback and media events, keeps the
//! externally observed lyrics state, and moves the line cursor. Retrieval
//! itself is the driver's: the orchestrator hands out a load request and
//! is told later how it ended.

use vstd::prelude::*;

use crate::data::{LyricsData, SongInfo};
use crate::errors::LyricsError;
use crate::lrc::{
    cursor_line_at, find_cursor_line, find_next_time, lines_view, lrc_lines_of, next_time_scan,
    opt_text, parse_lrc_text, sel_sort, sorted_ts,
};
use crate::media::MediaEvent;
use crate::playback_timer::PlaybackEvent;

verus! {

/// What the orchestrator announces to its observers.
#[derive(Debug, Clone)]
pub enum LyricsEvent {
    /// Retrieval for a song just began; show its identity now.
    LoadingStarted { song_info: SongInfo },
    /// Retrieval succeeded.
    LoadingCompleted { song_info: SongInfo, lyrics: LyricsData },
    /// Retrieval failed; lyrics stay absent.
    LoadingFailed { song_info: SongInfo, error: String },
    /// The cursor moved to another line.
    CurrentLineUpdated { line: Option<String>, position_ms: u64 },
    /// Nothing is shown any more.
    Cleared,
}

/// The externally observed lyrics state.
#[derive(Debug)]
pub struct LyricsState {
    pub current_song: Option<SongInfo>,
    pub current_lyrics: Option<LyricsData>,
    pub is_loading: bool,
    pub current_line: Option<String>,
    pub current_position_ms: u64,
}

impl Default for LyricsState {
    /// Nothing playing, nothing loading, nothing shown.
    fn default() -> (r: Self)
        ensures
            r.current_song is None,
            r.current_lyrics is None,
            !r.is_loading,
            r.current_line is None,
            r.current_position_ms == 0,
    {
        LyricsState {
            current_song: None,
            current_lyrics: None,
            is_loading: false,
            current_line: None,
            current_position_ms: 0,
        }
    }
}

/// The orchestrator: the observed state and the current song's parsed,
/// timestamp-sorted line list.
#[derive(Debug)]
pub struct LyricsManager {
    pub state: LyricsState,
    pub parsed_lines: Option<Vec<(u64, String)>>,
}

/// Whether the stored identity equals the given one, comparing the stored
/// fields exactly.
pub open spec fn song_is(cur: &Option<SongInfo>, song: &SongInfo) -> bool {
    match cur {
        Some(s) => s.title@ == song.title@ && s.artist@ == song.artist@,
        None => false,
    }
}

/// Everything cleared, with exactly the clearing announced and no load
/// requested.
pub open spec fn cleared_now(m: LyricsManager, r: (Vec<LyricsEvent>, Option<SongInfo>)) -> bool {
    &&& m.state.current_song is None
    &&& m.state.current_lyrics is None
    &&& !m.state.is_loading
    &&& m.state.current_line is None
    &&& m.state.current_position_ms == 0
    &&& m.parsed_lines is None
    &&& r.1 is None
    &&& r.0@.len() == 1
    &&& r.0@[0] is Cleared
}

/// The line the cursor resolves at a position, from the stored parsed
/// list; none without a list.
pub open spec fn cursor_of(m: &LyricsManager, pos: u64) -> Option<Seq<char>> {
    match m.parsed_lines {
        Some(l) => cursor_line_at(lines_view(l@), pos),
        None => None,
    }
}

/// A state equal to `st` except as the other clauses say.
pub open spec fn same_song_fields(a: &LyricsState, b: &LyricsState) -> bool {
    &&& a.current_song == b.current_song
    &&& a.current_lyrics == b.current_lyrics
    &&& a.is_loading == b.is_loading
}

impl LyricsManager {
    /// A fresh orchestrator: default state, no parsed lines.
    pub fn new() -> (r: Self)
        ensures
            r.state.current_song is None,
            r.state.current_lyrics is None,
            !r.state.is_loading,
            r.state.current_line is None,
            r.state.current_position_ms == 0,
            r.parsed_lines is None,
    {
        LyricsManager { state: LyricsState::default(), parsed_lines: None }
    }

    /// Moves the cursor for a new position: with a song set and loading
    /// finished, the stored line becomes the one the parsed list resolves,
    /// the position is taken over, and a change of line — only a change —
    /// is announced. While loading, or without a song, nothing happens.
    pub fn update_current_lyrics_line(&mut self, position_ms: u64) -> (r: Option<LyricsEvent>)
        ensures
            final(self).parsed_lines == old(self).parsed_lines,
            same_song_fields(&final(self).state, &old(self).state),
            (old(self).state.current_song is None || old(self).state.is_loading) ==> {
                &&& final(self).state.current_line == old(self).state.current_line
                &&& final(self).state.current_position_ms == old(self).state.current_position_ms
                &&& r is None
            },
            (old(self).state.current_song is Some && !old(self).state.is_loading) ==> {
                let line = cursor_of(old(self), position_ms);
                &&& opt_text(final(self).state.current_line) == line
                &&& final(self).state.current_position_ms == position_ms
                &&& (line == opt_text(old(self).state.current_line) ==> r is None)
                &&& (line != opt_text(old(self).state.current_line)
                    ==> (r matches Some(LyricsEvent::CurrentLineUpdated { line: l, position_ms: p })
                        && opt_text(l) == line && p == position_ms))
            },
    {
        if self.state.current_song.is_none() {
            return None;
        }
        if self.state.is_loading {
            return None;
        }
        let current_line = match &self.parsed_lines {
            Some(lines) => find_cursor_line(lines, position_ms),
            None => None,
        };
        let changed = !opt_string_eq(&self.state.current_line, &current_line);
        let line_for_event = clone_opt_string(&current_line);
        self.state.current_line = current_line;
        self.state.current_position_ms = position_ms;
        if changed {
            Some(LyricsEvent::CurrentLineUpdated { line: line_for_event, position_ms })
        } else {
            None
        }
    }

    /// Takes over a new position and moves the cursor; the position is
    /// stored even while the cursor stays frozen.
    pub fn update_current_position(&mut self, position_ms: u64) -> (r: Option<LyricsEvent>)
        ensures
            final(self).parsed_lines == old(self).parsed_lines,
            same_song_fields(&final(self).state, &old(self).state),
            final(self).state.current_position_ms == position_ms,
            (old(self).state.current_song is None || old(self).state.is_loading) ==> {
                final(self).state.current_line == old(self).state.current_line && r is None
            },
            (old(self).state.current_song is Some && !old(self).state.is_loading) ==> {
                let line = cursor_of(old(self), position_ms);
                &&& opt_text(final(self).state.current_line) == line
                &&& (line == opt_text(old(self).state.current_line) ==> r is None)
                &&& (line != opt_text(old(self).state.current_line)
                    ==> (r matches Some(LyricsEvent::CurrentLineUpdated { line: l, position_ms: p })
                        && opt_text(l) == line && p == position_ms))
            },
    {
        self.state.current_position_ms = position_ms;
        self.update_current_lyrics_line(position_ms)
    }

    /// Forgets song, document, cursor and parsed lines, and announces the
    /// clearing.
    pub fn clear_lyrics(&mut self) -> (r: LyricsEvent)
        ensures
            final(self).state.current_song is None,
            final(self).state.current_lyrics is None,
            !final(self).state.is_loading,
            final(self).state.current_line is None,
            final(self).state.current_position_ms == 0,
            final(self).parsed_lines is None,
            r is Cleared,
    {
        self.state = LyricsState::default();
        self.parsed_lines = None;
        LyricsEvent::Cleared
    }

    /// Marks a song as loading: the state shows the identity at once, with
    /// no document, no line, position zero, and the stale parsed list
    /// dropped; the start is announced unless this very song already
    /// loads. The caller then performs the retrieval.
    pub fn begin_loading(&mut self, song_info: SongInfo) -> (r: Vec<LyricsEvent>)
        ensures
            (song_is(&old(self).state.current_song, &song_info) && old(self).state.is_loading)
                ==> (*final(self) == *old(self) && r@.len() == 0),
            !(song_is(&old(self).state.current_song, &song_info) && old(self).state.is_loading)
                ==> {
                &&& song_is(&final(self).state.current_song, &song_info)
                &&& final(self).state.is_loading
                &&& final(self).state.current_lyrics is None
                &&& final(self).state.current_line is None
                &&& final(self).state.current_position_ms == 0
                &&& final(self).parsed_lines is None
                &&& r@.len() == 1
                &&& (r@[0] matches LyricsEvent::LoadingStarted { song_info: s }
                    && s.title@ == song_info.title@ && s.artist@ == song_info.artist@)
            },
    {
        let mut events: Vec<LyricsEvent> = Vec::new();
        let already = match &self.state.current_song {
            Some(cur) => {
                self.state.is_loading && cur.title == song_info.title
                    && cur.artist == song_info.artist
            },
            None => false,
        };
        if already {
            return events;
        }
        self.state.current_song = Some(SongInfo {
            title: song_info.title.clone(),
            artist: song_info.artist.clone(),
        });
        self.state.is_loading = true;
        self.state.current_lyrics = None;
        self.state.current_line = None;
        self.state.current_position_ms = 0;
        self.parsed_lines = None;
        events.push(LyricsEvent::LoadingStarted { song_info });
        events
    }

    /// Applies how a retrieval ended. Success stores the document, parses
    /// its original text into the sorted line list, announces the
    /// completion, and moves the cursor for the stored position. Failure
    /// leaves lyrics absent and announces the failure. Either way loading
    /// is over.
    pub fn complete_loading(&mut self, song_info: SongInfo, outcome: Result<LyricsData, LyricsError>) -> (r: Vec<LyricsEvent>)
        ensures
            !final(self).state.is_loading,
            final(self).state.current_song == old(self).state.current_song,
            final(self).state.current_position_ms == old(self).state.current_position_ms,
            outcome matches Err(_) ==> {
                &&& final(self).state.current_lyrics == old(self).state.current_lyrics
                &&& final(self).state.current_line == old(self).state.current_line
                &&& final(self).parsed_lines == old(self).parsed_lines
                &&& r@.len() == 1
                &&& (r@[0] matches LyricsEvent::LoadingFailed { song_info: s, error }
                    && s.title@ == song_info.title@ && s.artist@ == song_info.artist@
                    && error@.len() > 0)
            },
            outcome matches Ok(doc) ==> {
                &&& final(self).state.current_lyrics == Some(doc)
                &&& (doc.original matches Some(t) ==> (final(self).parsed_lines matches Some(l)
                    && lines_view(l@) == sel_sort(lrc_lines_of(t@))
                    && sorted_ts(lines_view(l@))
                    && lines_view(l@).to_multiset() == lrc_lines_of(t@).to_multiset()))
                &&& (doc.original is None ==> final(self).parsed_lines is None)
                &&& (r@[0] matches LyricsEvent::LoadingCompleted { song_info: s, lyrics }
                    && s.title@ == song_info.title@ && s.artist@ == song_info.artist@
                    && lyrics == doc)
                &&& (old(self).state.current_song is None ==> {
                    final(self).state.current_line == old(self).state.current_line
                        && r@.len() == 1
                })
                &&& (old(self).state.current_song is Some ==> {
                    let line = cursor_of(final(self), old(self).state.current_position_ms);
                    &&& opt_text(final(self).state.current_line) == line
                    &&& (line == opt_text(old(self).state.current_line) ==> r@.len() == 1)
                    &&& (line != opt_text(old(self).state.current_line) ==> r@.len() == 2
                        && (r@[1] matches LyricsEvent::CurrentLineUpdated { line: l, position_ms: p }
                            && opt_text(l) == line
                            && p == old(self).state.current_position_ms))
                })
            },
    {
        match outcome {
            Ok(lyrics_data) => {
                match &lyrics_data.original {
                    Some(original) => {
                        let parsed = parse_lrc_text(original.as_str());
                        self.parsed_lines = Some(parsed);
                    },
                    None => {
                        self.parsed_lines = None;
                    },
                }
                self.state.current_lyrics = Some(clone_lyrics_data(&lyrics_data));
                self.state.is_loading = false;
                let mut events: Vec<LyricsEvent> = Vec::new();
                events.push(LyricsEvent::LoadingCompleted { song_info, lyrics: lyrics_data });
                let position = self.state.current_position_ms;
                if let Some(ev) = self.update_current_lyrics_line(position) {
                    events.push(ev);
                }
                events
            },
            Err(e) => {
                self.state.is_loading = false;
                let mut events: Vec<LyricsEvent> = Vec::new();
                events.push(LyricsEvent::LoadingFailed { song_info, error: e.describe() });
                events
            },
        }
    }

    /// Reacts to one playback event: a changed song begins loading and is
    /// handed back as a load request; position updates move the cursor; a
    /// play-state change stores the position and moves the cursor only
    /// when playing; a reset clears everything.
    pub fn handle_playback_event(&mut self, event: PlaybackEvent) -> (r: (Vec<LyricsEvent>, Option<SongInfo>))
        ensures
            event matches PlaybackEvent::SongChanged { title, artist, duration_ms: _ } ==> {
                if song_is(&old(self).state.current_song, &SongInfo { title, artist }) {
                    *final(self) == *old(self) && r.0@.len() == 0 && r.1 is None
                } else {
                    &&& song_is(&final(self).state.current_song, &SongInfo { title, artist })
                    &&& final(self).state.is_loading
                    &&& final(self).state.current_lyrics is None
                    &&& final(self).state.current_line is None
                    &&& final(self).state.current_position_ms == 0
                    &&& final(self).parsed_lines is None
                    &&& (r.1 matches Some(s) && s.title@ == title@ && s.artist@ == artist@)
                    &&& r.0@.len() == 1
                    &&& (r.0@[0] matches LyricsEvent::LoadingStarted { song_info }
                        && song_info.title@ == title@ && song_info.artist@ == artist@)
                }
            },
            event matches PlaybackEvent::PositionUpdate { position_ms } ==> {
                &&& r.1 is None
                &&& same_song_fields(&final(self).state, &old(self).state)
                &&& final(self).parsed_lines == old(self).parsed_lines
                &&& final(self).state.current_position_ms == position_ms
                &&& ((old(self).state.current_song is None || old(self).state.is_loading) ==> {
                    final(self).state.current_line == old(self).state.current_line
                        && r.0@.len() == 0
                })
                &&& ((old(self).state.current_song is Some && !old(self).state.is_loading) ==> {
                    let line = cursor_of(old(self), position_ms);
                    &&& opt_text(final(self).state.current_line) == line
                    &&& (line == opt_text(old(self).state.current_line) ==> r.0@.len() == 0)
                    &&& (line != opt_text(old(self).state.current_line) ==> r.0@.len() == 1
                        && (r.0@[0] matches LyricsEvent::CurrentLineUpdated { line: l, position_ms: p }
                            && opt_text(l) == line && p == position_ms))
                })
            },
            event matches PlaybackEvent::PlayStateChanged { is_playing, position_ms } ==> {
                &&& r.1 is None
                &&& same_song_fields(&final(self).state, &old(self).state)
                &&& final(self).parsed_lines == old(self).parsed_lines
                &&& final(self).state.current_position_ms == position_ms
                &&& (!is_playing ==> {
                    final(self).state.current_line == old(self).state.current_line
                        && r.0@.len() == 0
                })
                &&& (is_playing && (old(self).state.current_song is None
                    || old(self).state.is_loading) ==> {
                    final(self).state.current_line == old(self).state.current_line
                        && r.0@.len() == 0
                })
                &&& (is_playing && old(self).state.current_song is Some
                    && !old(self).state.is_loading ==> {
                    let line = cursor_of(old(self), position_ms);
                    &&& opt_text(final(self).state.current_line) == line
                    &&& (line == opt_text(old(self).state.current_line) ==> r.0@.len() == 0)
                    &&& (line != opt_text(old(self).state.current_line) ==> r.0@.len() == 1
                        && (r.0@[0] matches LyricsEvent::CurrentLineUpdated { line: l, position_ms: p }
                            && opt_text(l) == line && p == position_ms))
                })
            },
            event is Reset ==> {
                &&& final(self).state.current_song is None
                &&& final(self).state.current_lyrics is None
                &&& !final(self).state.is_loading
                &&& final(self).state.current_line is None
                &&& final(self).state.current_position_ms == 0
                &&& final(self).parsed_lines is None
                &&& r.1 is None
                &&& r.0@.len() == 1
                &&& r.0@[0] is Cleared
            },
    {
        match event {
            PlaybackEvent::SongChanged { title, artist, duration_ms: _ } => {
                let song_info = SongInfo { title, artist };
                let is_different = match &self.state.current_song {
                    Some(cur) => !(cur.title == song_info.title && cur.artist == song_info.artist),
                    None => true,
                };
                if is_different {
                    let request = SongInfo {
                        title: song_info.title.clone(),
                        artist: song_info.artist.clone(),
                    };
                    let events = self.begin_loading(song_info);
                    (events, Some(request))
                } else {
                    (Vec::new(), None)
                }
            },
            PlaybackEvent::PositionUpdate { position_ms } => {
                let mut events: Vec<LyricsEvent> = Vec::new();
                if let Some(ev) = self.update_current_position(position_ms) {
                    events.push(ev);
                }
                (events, None)
            },
            PlaybackEvent::PlayStateChanged { is_playing, position_ms } => {
                self.state.current_position_ms = position_ms;
                let mut events: Vec<LyricsEvent> = Vec::new();
                if is_playing {
                    if let Some(ev) = self.update_current_lyrics_line(position_ms) {
                        events.push(ev);
                    }
                }
                (events, None)
            },
            PlaybackEvent::Reset => {
                let ev = self.clear_lyrics();
                let mut events: Vec<LyricsEvent> = Vec::new();
                events.push(ev);
                (events, None)
            },
        }
    }

    /// Reacts to one media event: a snapshot with a new, non-blank
    /// identity begins loading and is handed back as a load request, and
    /// its position moves the cursor; a blank snapshot, an error or the
    /// end of monitoring clears everything.
    pub fn handle_media_event(&mut self, event: MediaEvent) -> (r: (Vec<LyricsEvent>, Option<SongInfo>))
        ensures
            event matches MediaEvent::InfoUpdated(m) ==> (m.title@.len() > 0
                && m.artist@.len() > 0 ==> {
                &&& (!song_is(&old(self).state.current_song, &SongInfo { title: m.title, artist: m.artist })
                    ==> {
                    &&& (r.1 matches Some(s) && s.title@ == m.title@ && s.artist@ == m.artist@)
                    &&& song_is(&final(self).state.current_song, &SongInfo { title: m.title, artist: m.artist })
                    &&& final(self).state.is_loading
                    &&& final(self).state.current_lyrics is None
                    &&& final(self).state.current_line is None
                    &&& final(self).parsed_lines is None
                    &&& final(self).state.current_position_ms == (match m.position_ms {
                        Some(p) => p,
                        None => 0,
                    })
                    &&& r.0@.len() == 1
                    &&& (r.0@[0] matches LyricsEvent::LoadingStarted { song_info }
                        && song_info.title@ == m.title@ && song_info.artist@ == m.artist@)
                })
                &&& (song_is(&old(self).state.current_song, &SongInfo { title: m.title, artist: m.artist })
                    ==> {
                    &&& r.1 is None
                    &&& same_song_fields(&final(self).state, &old(self).state)
                    &&& final(self).parsed_lines == old(self).parsed_lines
                    &&& (m.position_ms is None ==> (*final(self) == *old(self)
                        && r.0@.len() == 0))
                    &&& (m.position_ms matches Some(p) ==> {
                        &&& final(self).state.current_position_ms == p
                        &&& (old(self).state.is_loading ==> {
                            final(self).state.current_line == old(self).state.current_line
                                && r.0@.len() == 0
                        })
                        &&& (!old(self).state.is_loading ==> {
                            let line = cursor_of(old(self), p);
                            &&& opt_text(final(self).state.current_line) == line
                            &&& (line == opt_text(old(self).state.current_line)
                                ==> r.0@.len() == 0)
                            &&& (line != opt_text(old(self).state.current_line)
                                ==> r.0@.len() == 1
                                    && (r.0@[0] matches LyricsEvent::CurrentLineUpdated {
                                        line: l, position_ms: pp
                                    } && opt_text(l) == line && pp == p))
                        })
                    })
                })
            }),
            event matches MediaEvent::InfoUpdated(m) ==> ((m.title@.len() == 0
                || m.artist@.len() == 0) ==> cleared_now(*final(self), r)),
            (event is Error || event is Stopped) ==> cleared_now(*final(self), r),
    {
        match event {
            MediaEvent::InfoUpdated(media_info) => {
                if !media_info.title.as_str().is_empty() && !media_info.artist.as_str().is_empty() {
                    let song_info = SongInfo {
                        title: media_info.title.clone(),
                        artist: media_info.artist.clone(),
                    };
                    let is_new = match &self.state.current_song {
                        Some(cur) => !(cur.title == song_info.title
                            && cur.artist == song_info.artist),
                        None => true,
                    };
                    let mut events: Vec<LyricsEvent> = Vec::new();
                    let mut request: Option<SongInfo> = None;
                    if is_new {
                        let req = SongInfo {
                            title: song_info.title.clone(),
                            artist: song_info.artist.clone(),
                        };
                        let mut started = self.begin_loading(song_info);
                        events.append(&mut started);
                        request = Some(req);
                    }
                    if let Some(p) = media_info.position_ms {
                        if let Some(ev) = self.update_current_position(p) {
                            events.push(ev);
                        }
                    }
                    (events, request)
                } else {
                    let ev = self.clear_lyrics();
                    let mut events: Vec<LyricsEvent> = Vec::new();
                    events.push(ev);
                    (events, None)
                }
            },
            MediaEvent::Error(_) | MediaEvent::Stopped => {
                let ev = self.clear_lyrics();
                let mut events: Vec<LyricsEvent> = Vec::new();
                events.push(ev);
                (events, None)
            },
        }
    }

    /// Parses an LRC text into its timestamp-sorted line list.
    pub fn parse_lyrics_to_timestamps(&self, lyrics: &str) -> (r: Vec<(u64, String)>)
        ensures
            lines_view(r@).to_multiset() == lrc_lines_of(lyrics@).to_multiset(),
            sorted_ts(lines_view(r@)),
    {
        parse_lrc_text(lyrics)
    }

    /// Picks the line to show at a position from a given line list.
    pub fn find_current_lyrics_line(&self, lyrics_list: &Vec<(u64, String)>, position_ms: u64) -> (r: Option<String>)
        ensures
            opt_text(r) == cursor_line_at(lines_view(lyrics_list@), position_ms),
    {
        find_cursor_line(lyrics_list, position_ms)
    }

    /// The start of the next non-blank line after a position, for the
    /// display surface's pacing.
    pub fn get_next_lyrics_time(&self, current_position_ms: u64) -> (r: Option<u64>)
        ensures
            r == match (self.state.current_song, self.parsed_lines) {
                (Some(_), Some(l)) => next_time_scan(lines_view(l@), current_position_ms, 0),
                _ => None,
            },
    {
        if self.state.current_song.is_none() {
            return None;
        }
        match &self.parsed_lines {
            Some(lines) => find_next_time(lines, current_position_ms),
            None => None,
        }
    }

    /// The observed state.
    pub fn get_current_state(&self) -> (r: &LyricsState)
        ensures
            r == &self.state,
    {
        &self.state
    }

    /// The line currently shown.
    pub fn get_current_line(&self) -> (r: Option<String>)
        ensures
            opt_text(r) == opt_text(self.state.current_line),
    {
        clone_opt_string(&self.state.current_line)
    }

    /// Whether a retrieval is under way.
    pub fn is_loading(&self) -> (r: bool)
        ensures
            r == self.state.is_loading,
    {
        self.state.is_loading
    }

    /// Drops the parsed lines and begins loading the current song again;
    /// without a song nothing happens.
    pub fn refresh_lyrics(&mut self) -> (r: (Vec<LyricsEvent>, Option<SongInfo>))
        ensures
            old(self).state.current_song is None ==> (*final(self) == *old(self) && r.1 is None),
            old(self).state.current_song matches Some(s) ==> {
                &&& final(self).state.is_loading
                &&& song_is(&final(self).state.current_song, &s)
                &&& (r.1 matches Some(req) && req.title@ == s.title@ && req.artist@ == s.artist@)
            },
    {
        let song = match &self.state.current_song {
            Some(s) => SongInfo { title: s.title.clone(), artist: s.artist.clone() },
            None => {
                return (Vec::new(), None);
            },
        };
        self.parsed_lines = None;
        let req = SongInfo { title: song.title.clone(), artist: song.artist.clone() };
        self.state.is_loading = false;
        let events = self.begin_loading(song);
        (events, Some(req))
    }
}

/// Whether two optional texts hold the same characters.
fn opt_string_eq(a: &Option<String>, b: &Option<String>) -> (r: bool)
    ensures
        r == (opt_text(*a) == opt_text(*b)),
{
    match a {
        Some(x) => match b {
            Some(y) => x.eq(y),
            None => false,
        },
        None => b.is_none(),
    }
}

/// An equal copy of a document.
fn clone_lyrics_data(d: &LyricsData) -> (r: LyricsData)
    ensures
        r == *d,
{
    LyricsData {
        original: clone_opt_string(&d.original),
        translated: clone_opt_string(&d.translated),
        romanized: clone_opt_string(&d.romanized),
        has_lyrics: d.has_lyrics,
        source: d.source,
        fetched_at_ms: d.fetched_at_ms,
    }
}

/// An equal copy of an optional text.
fn clone_opt_string(a: &Option<String>) -> (r: Option<String>)
    ensures
        r == *a,
{
    match a {
        Some(x) => Some(x.clone()),
        None => None,
    }
}

} // verus!
