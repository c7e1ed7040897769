//! Core data model: song identity, lyrics documents, provider response
//! shapes, and the LRC timestamp and line parsing shared by the engine.

use vstd::prelude::*;
use vstd::string::StrSliceExecFns;
use vstd::string::StringExecFns;

use crate::strutil::{
    trim_of, trim_str, lower_of, to_lowercase_str, unescape_spec, unescape_chars, str_chars,
    string_from_chars,
};
use crate::hashing::{sha256_of_str, sha256_str, hex_str, to_hex_lower};
use crate::lrc::{
    lrc_timestamp_spec, parse_lrc_timestamp_chars, lrc_lines_of, lines_view, sel_sort,
    parse_lrc_text, opt_text,
};
use crate::clock::now_utc_ms;

verus! {

/// Where a lyrics document came from.
#[derive(Debug, Clone, Copy, PartialEq, Eq, Structural)]
pub enum LyricsSource {
    NetEase,
    QQMusic,
    Unknown,
}

impl Default for LyricsSource {
    /// The source of a document nobody fetched.
    fn default() -> (r: Self)
        ensures
            r == LyricsSource::Unknown,
    {
        LyricsSource::Unknown
    }
}

/// A song's logical identity: title and artist, compared case-sensitively.
#[derive(Debug, Clone, Eq, Hash)]
pub struct SongInfo {
    pub title: String,
    pub artist: String,
}

impl PartialEq for SongInfo {
    fn eq(&self, other: &SongInfo) -> (r: bool)
        ensures
            r == (self.title@ == other.title@ && self.artist@ == other.artist@),
    {
        self.title == other.title && self.artist == other.artist
    }
}

impl vstd::std_specs::cmp::PartialEqSpecImpl for SongInfo {
    open spec fn obeys_eq_spec() -> bool {
        true
    }

    open spec fn eq_spec(&self, other: &SongInfo) -> bool {
        self.title@ == other.title@ && self.artist@ == other.artist@
    }
}

/// The character sequence whose SHA-256 digest keys the cache: the trimmed,
/// lowercased title and artist joined by a bar.
pub open spec fn cache_key_input(title: Seq<char>, artist: Seq<char>) -> Seq<char> {
    lower_of(trim_of(title)) + seq!['|'] + lower_of(trim_of(artist))
}

/// The cache key of an identity: lowercase hex of the SHA-256 digest of
/// its case-folded, trimmed fields.
pub open spec fn spec_cache_key(title: Seq<char>, artist: Seq<char>) -> Seq<char> {
    hex_str(sha256_of_str(cache_key_input(title, artist)))
}

impl SongInfo {
    pub fn new(title: String, artist: String) -> (r: Self)
        ensures
            r.title@ == title@,
            r.artist@ == artist@,
    {
        SongInfo { title, artist }
    }

    /// The key under which this identity is cached: identical for
    /// identities that agree up to surrounding whitespace and letter case.
    pub fn cache_key(&self) -> (r: String)
        ensures
            r@ == spec_cache_key(self.title@, self.artist@),
    {
        let t = to_lowercase_str(trim_str(self.title.as_str()));
        let a = to_lowercase_str(trim_str(self.artist.as_str()));
        let combined = t.concat("|").concat(a.as_str());
        proof {
            reveal_strlit("|");
            assert("|"@ =~= seq!['|']);
            assert(combined@ =~= cache_key_input(self.title@, self.artist@));
        }
        let digest = sha256_str(combined.as_str());
        to_hex_lower(&digest)
    }

    /// An identity is usable when both fields are non-blank after trimming.
    pub fn is_valid(&self) -> (r: bool)
        ensures
            r == (trim_of(self.title@).len() > 0 && trim_of(self.artist@).len() > 0),
    {
        !trim_str(self.title.as_str()).is_empty() && !trim_str(self.artist.as_str()).is_empty()
    }
}

/// Identities that agree after trimming and case folding share one cache
/// key, whatever their spelling; identity equality itself stays
/// case-sensitive, being plain equality of the stored fields.
pub proof fn lemma_cache_key_case_insensitive(t1: Seq<char>, a1: Seq<char>, t2: Seq<char>, a2: Seq<char>)
    requires
        lower_of(trim_of(t1)) == lower_of(trim_of(t2)),
        lower_of(trim_of(a1)) == lower_of(trim_of(a2)),
    ensures
        spec_cache_key(t1, a1) == spec_cache_key(t2, a2),
{
    assert(cache_key_input(t1, a1) =~= cache_key_input(t2, a2));
}

/// A field is non-blank when something remains after trimming.
pub open spec fn nonblank(s: Seq<char>) -> bool {
    trim_of(s).len() > 0
}

/// What an optional API text field contributes to a document: its
/// un-escaped text when present and non-blank, nothing otherwise.
pub open spec fn payload_field(o: Option<Seq<char>>) -> Option<Seq<char>> {
    match o {
        Some(s) => if nonblank(s) {
            Some(unescape_spec(s))
        } else {
            None
        },
        None => None,
    }
}

/// A lyrics document: optional original, translated and romanized texts,
/// the source that supplied it, and when it was fetched.
#[derive(Debug, Clone)]
pub struct LyricsData {
    pub original: Option<String>,
    pub translated: Option<String>,
    pub romanized: Option<String>,
    pub has_lyrics: bool,
    pub source: LyricsSource,
    pub fetched_at_ms: i64,
}

impl Default for LyricsData {
    /// An empty document from nowhere.
    fn default() -> (r: Self)
        ensures
            r.original is None,
            r.translated is None,
            r.romanized is None,
            !r.has_lyrics,
            r.source == LyricsSource::Unknown,
            r.fetched_at_ms == 0,
    {
        LyricsData {
            original: None,
            translated: None,
            romanized: None,
            has_lyrics: false,
            source: LyricsSource::Unknown,
            fetched_at_ms: 0,
        }
    }
}

/// Whether a document holds any content: at least one text field present
/// and non-blank.
pub open spec fn has_content_spec(d: &LyricsData) -> bool {
    ||| (d.original matches Some(s) && nonblank(s@))
    ||| (d.translated matches Some(s) && nonblank(s@))
    ||| (d.romanized matches Some(s) && nonblank(s@))
}

/// A generic lyrics API payload: optional original, translated and
/// romanized texts, plus a status code nothing here reads.
#[derive(Debug, Clone)]
pub struct LyricsApiResponse {
    pub code: Option<String>,
    pub lrc: Option<String>,
    pub trans: Option<String>,
    pub roma: Option<String>,
}

impl LyricsData {
    /// Empties the document; the fetch time stays as it was.
    pub fn clear(&mut self)
        ensures
            final(self).original is None,
            final(self).translated is None,
            final(self).romanized is None,
            !final(self).has_lyrics,
            final(self).source == LyricsSource::Unknown,
            final(self).fetched_at_ms == old(self).fetched_at_ms,
    {
        self.original = None;
        self.translated = None;
        self.romanized = None;
        self.has_lyrics = false;
        self.source = LyricsSource::Unknown;
    }

    /// Whether at least one text field is non-blank.
    pub fn has_any_content(&self) -> (r: bool)
        ensures
            r == has_content_spec(self),
    {
        let a = match &self.original {
            Some(s) => !trim_str(s.as_str()).is_empty(),
            None => false,
        };
        let b = match &self.translated {
            Some(s) => !trim_str(s.as_str()).is_empty(),
            None => false,
        };
        let c = match &self.romanized {
            Some(s) => !trim_str(s.as_str()).is_empty(),
            None => false,
        };
        a || b || c
    }

    /// Un-escapes literal backslash-n, backslash-r and backslash-t
    /// sequences in a lyrics text.
    pub fn process_lyrics_string(lyrics: &str) -> (r: String)
        ensures
            r@ == unescape_spec(lyrics@),
    {
        let chars = str_chars(lyrics);
        let out = unescape_chars(&chars);
        string_from_chars(&out)
    }

    /// Takes an optional payload field: the un-escaped text when non-blank.
    fn take_field(o: &Option<String>) -> (r: Option<String>)
        ensures
            opt_text(r) == payload_field(opt_text(*o)),
    {
        match o {
            Some(s) => {
                if !trim_str(s.as_str()).is_empty() {
                    Some(Self::process_lyrics_string(s.as_str()))
                } else {
                    None
                }
            },
            None => None,
        }
    }

    /// Builds a document from a generic payload, stamped `now_ms`: each text
    /// field is kept exactly when non-blank, un-escaped; the document has
    /// lyrics exactly when the original text was non-blank.
    pub fn from_api_response_at(response: LyricsApiResponse, source: LyricsSource, now_ms: i64) -> (r: Self)
        ensures
            opt_text(r.original) == payload_field(opt_text(response.lrc)),
            opt_text(r.translated) == payload_field(opt_text(response.trans)),
            opt_text(r.romanized) == payload_field(opt_text(response.roma)),
            r.has_lyrics == (response.lrc matches Some(s) && nonblank(s@)),
            r.source == source,
            r.fetched_at_ms == now_ms,
    {
        let original = Self::take_field(&response.lrc);
        let has_lyrics = match &response.lrc {
            Some(s) => !trim_str(s.as_str()).is_empty(),
            None => false,
        };
        let translated = Self::take_field(&response.trans);
        let romanized = Self::take_field(&response.roma);
        LyricsData { original, translated, romanized, has_lyrics, source, fetched_at_ms: now_ms }
    }

    /// Builds a document from a generic payload, stamped with the clock.
    pub fn from_api_response(response: LyricsApiResponse, source: LyricsSource) -> (r: Self)
        ensures
            opt_text(r.original) == payload_field(opt_text(response.lrc)),
            opt_text(r.translated) == payload_field(opt_text(response.trans)),
            opt_text(r.romanized) == payload_field(opt_text(response.roma)),
            r.has_lyrics == (response.lrc matches Some(s) && nonblank(s@)),
            r.source == source,
    {
        let now = now_utc_ms();
        Self::from_api_response_at(response, source, now)
    }

    /// Builds a document from a NetEase lyrics payload, stamped `now_ms`:
    /// only a successful status contributes, and only the original text.
    pub fn from_netease_response_at(response: NetEaseLyricsResponse, now_ms: i64) -> (r: Self)
        ensures
            opt_text(r.original) == netease_original(&response),
            r.translated is None,
            r.romanized is None,
            r.has_lyrics == (netease_original(&response) is Some),
            r.source == LyricsSource::NetEase,
            r.fetched_at_ms == now_ms,
    {
        let mut original: Option<String> = None;
        if response.code == 200 {
            if let Some(lyrics_data) = &response.data {
                original = Self::take_field(&lyrics_data.lrc);
            }
        }
        let has_lyrics = original.is_some();
        LyricsData {
            original,
            translated: None,
            romanized: None,
            has_lyrics,
            source: LyricsSource::NetEase,
            fetched_at_ms: now_ms,
        }
    }

    /// Builds a document from a NetEase lyrics payload, stamped with the
    /// clock.
    pub fn from_netease_response(response: NetEaseLyricsResponse) -> (r: Self)
        ensures
            opt_text(r.original) == netease_original(&response),
            r.translated is None,
            r.romanized is None,
            r.has_lyrics == (netease_original(&response) is Some),
            r.source == LyricsSource::NetEase,
    {
        let now = now_utc_ms();
        Self::from_netease_response_at(response, now)
    }

    /// Builds a document from a QQ Music lyrics payload, stamped `now_ms`:
    /// only a successful status contributes; original, translated and
    /// romanized texts are each kept when non-blank.
    pub fn from_qqmusic_response_at(response: QQMusicLyricsResponse, now_ms: i64) -> (r: Self)
        ensures
            opt_text(r.original) == qq_field(&response, QQField::Original),
            opt_text(r.translated) == qq_field(&response, QQField::Translated),
            opt_text(r.romanized) == qq_field(&response, QQField::Romanized),
            r.has_lyrics == (qq_field(&response, QQField::Original) is Some),
            r.source == LyricsSource::QQMusic,
            r.fetched_at_ms == now_ms,
    {
        let mut original: Option<String> = None;
        let mut translated: Option<String> = None;
        let mut romanized: Option<String> = None;
        if response.code == 200 {
            if let Some(lyrics_data) = &response.data {
                original = Self::take_field(&lyrics_data.lrc);
                translated = Self::take_field(&lyrics_data.trans);
                romanized = Self::take_field(&lyrics_data.roma);
            }
        }
        let has_lyrics = original.is_some();
        LyricsData {
            original,
            translated,
            romanized,
            has_lyrics,
            source: LyricsSource::QQMusic,
            fetched_at_ms: now_ms,
        }
    }

    /// Builds a document from a QQ Music lyrics payload, stamped with the
    /// clock.
    pub fn from_qqmusic_response(response: QQMusicLyricsResponse) -> (r: Self)
        ensures
            opt_text(r.original) == qq_field(&response, QQField::Original),
            opt_text(r.translated) == qq_field(&response, QQField::Translated),
            opt_text(r.romanized) == qq_field(&response, QQField::Romanized),
            r.has_lyrics == (qq_field(&response, QQField::Original) is Some),
            r.source == LyricsSource::QQMusic,
    {
        let now = now_utc_ms();
        Self::from_qqmusic_response_at(response, now)
    }

    /// The text the cursor works from: the original, else the translation.
    pub fn display_text(lyrics_data: &LyricsData) -> (r: Option<&String>)
        ensures
            opt_ref_text(r) == display_text_spec(lyrics_data),
    {
        if let Some(original) = &lyrics_data.original {
            Some(original)
        } else if let Some(translated) = &lyrics_data.translated {
            Some(translated)
        } else {
            None
        }
    }

    /// The line to show at `position_ms`, from the document's original
    /// text, falling back to its translation.
    pub fn get_current_lyrics_line(lyrics_data: &LyricsData, position_ms: u64) -> (r: Option<String>)
        ensures
            match display_text_spec(lyrics_data) {
                None => r is None,
                Some(text) => opt_text(r) == for_time_result(text, position_ms),
            },
    {
        let lyrics_text = match Self::display_text(lyrics_data) {
            Some(t) => t,
            None => {
                return None;
            },
        };
        Self::parse_lrc_for_time(lyrics_text.as_str(), position_ms)
    }

    /// Parses an LRC text and picks the line at `position_ms`: the last
    /// line at or before the position in the stable timestamp order,
    /// filtered away when its text is empty.
    pub fn parse_lrc_for_time(lyrics: &str, position_ms: u64) -> (r: Option<String>)
        ensures
            opt_text(r) == for_time_result(lyrics@, position_ms),
    {
        let lines = parse_lrc_text(lyrics);
        let n = lines.len();
        let ghost lv = lines_view(lines@);
        let mut acc: Option<String> = None;
        let mut i: usize = 0;
        while i < n
            invariant
                n == lines@.len(),
                lv == lines_view(lines@),
                i <= n,
                last_line_scan(lv, position_ms, 0, None)
                    == last_line_scan(lv, position_ms, i as int, opt_text(acc)),
            decreases n - i,
        {
            let e = &lines[i];
            if e.0 > position_ms {
                proof {
                    assert(last_line_scan(lv, position_ms, i as int, opt_text(acc))
                        == opt_text(acc));
                }
                i = n;
            } else {
                acc = Some(e.1.clone());
                proof {
                    assert(opt_text(acc) == Some(lv[i as int].1));
                }
                i += 1;
            }
        }
        match acc {
            Some(t) => {
                if !t.as_str().is_empty() {
                    Some(t)
                } else {
                    None
                }
            },
            None => None,
        }
    }

    /// Parses a `mm:ss.xx` timestamp body to milliseconds.
    pub fn parse_lrc_timestamp(time_str: &str) -> (r: Option<u64>)
        ensures
            r == lrc_timestamp_spec(time_str@),
    {
        let chars = str_chars(time_str);
        parse_lrc_timestamp_chars(&chars)
    }
}

/// The view of an optional borrowed text.
pub open spec fn opt_ref_text(o: Option<&String>) -> Option<Seq<char>> {
    match o {
        Some(s) => Some(s@),
        None => None,
    }
}

/// The text a document's cursor works from: the original, else the
/// translation.
pub open spec fn display_text_spec(d: &LyricsData) -> Option<Seq<char>> {
    match d.original {
        Some(s) => Some(s@),
        None => match d.translated {
            Some(s) => Some(s@),
            None => None,
        },
    }
}

/// The last line at or before `pos` in scan order, empty texts included,
/// stopping at the first line past `pos`.
pub open spec fn last_line_scan(
    lines: Seq<(u64, Seq<char>)>,
    pos: u64,
    i: int,
    acc: Option<Seq<char>>,
) -> Option<Seq<char>>
    decreases lines.len() - i,
{
    if i < 0 || i >= lines.len() {
        acc
    } else if lines[i].0 > pos {
        acc
    } else {
        last_line_scan(lines, pos, i + 1, Some(lines[i].1))
    }
}

/// What picking the line at `pos` from an LRC text yields: over the text's
/// contributions in the stable timestamp order, the last line at or before
/// `pos`, dropped when empty.
pub open spec fn for_time_result(text: Seq<char>, pos: u64) -> Option<Seq<char>> {
    match last_line_scan(sel_sort(lrc_lines_of(text)), pos, 0, None) {
        Some(t) => if t.len() > 0 {
            Some(t)
        } else {
            None::<Seq<char>>
        },
        None => None::<Seq<char>>,
    }
}

/// A found song from a provider search.
#[derive(Debug, Clone)]
pub struct SearchResult {
    pub id: String,
    pub title: String,
    pub artist: String,
    pub duration_ms: Option<u64>,
}

/// A found song from a QQ Music search.
#[derive(Debug, Clone)]
pub struct QQSearchResult {
    pub song_id: String,
    pub song_mid: String,
    pub title: String,
    pub artist: String,
}

/// The shape of a NetEase search payload.
#[derive(Debug, Clone)]
pub struct NetEaseSearchResponse {
    pub result: Option<NetEaseSearchResult>,
}

#[derive(Debug, Clone)]
pub struct NetEaseSearchResult {
    pub songs: Option<Vec<NetEaseSong>>,
}

#[derive(Debug, Clone)]
pub struct NetEaseSong {
    pub id: u64,
    pub name: String,
    pub ar: Vec<NetEaseArtist>,
    pub dt: Option<u64>,
}

#[derive(Debug, Clone)]
pub struct NetEaseArtist {
    pub name: String,
}

/// The shape of a QQ Music search payload.
#[derive(Debug, Clone)]
pub struct QQSearchResponse {
    pub data: Option<QQSearchData>,
}

#[derive(Debug, Clone)]
pub struct QQSearchData {
    pub song: Option<QQSongData>,
}

#[derive(Debug, Clone)]
pub struct QQSongData {
    pub list: Option<Vec<QQSong>>,
}

#[derive(Debug, Clone)]
pub struct QQSong {
    pub songid: u64,
    pub songmid: String,
    pub songname: String,
    pub singer: Vec<QQSinger>,
    pub interval: Option<u64>,
}

#[derive(Debug, Clone)]
pub struct QQSinger {
    pub name: String,
}

/// The shape of a NetEase lyrics payload.
#[derive(Debug, Clone)]
pub struct NetEaseLyricsResponse {
    pub code: i32,
    pub message: String,
    pub data: Option<NetEaseLyricsData>,
    pub time: String,
    pub tips: String,
}

#[derive(Debug, Clone)]
pub struct NetEaseLyricsData {
    pub lrc: Option<String>,
    pub yrc: Option<String>,
}

/// The shape of a QQ Music lyrics payload.
#[derive(Debug, Clone)]
pub struct QQMusicLyricsResponse {
    pub code: i32,
    pub message: String,
    pub data: Option<QQMusicLyricsData>,
    pub time: String,
    pub pid: Option<i32>,
    pub tips: String,
}

#[derive(Debug, Clone)]
pub struct QQMusicLyricsData {
    pub lrc: Option<String>,
    pub trans: Option<String>,
    pub yrc: Option<String>,
    pub roma: Option<String>,
}

/// What a NetEase lyrics payload contributes as original text: its `lrc`
/// field, un-escaped, when the status is success and the field non-blank.
pub open spec fn netease_original(response: &NetEaseLyricsResponse) -> Option<Seq<char>> {
    if response.code == 200 {
        match response.data {
            Some(d) => payload_field(opt_text(d.lrc)),
            None => None,
        }
    } else {
        None
    }
}

/// The three text fields a QQ Music lyrics payload can contribute.
pub enum QQField {
    Original,
    Translated,
    Romanized,
}

/// What a QQ Music lyrics payload contributes in a given field: the text,
/// un-escaped, when the status is success and the field non-blank.
pub open spec fn qq_field(response: &QQMusicLyricsResponse, f: QQField) -> Option<Seq<char>> {
    if response.code == 200 {
        match response.data {
            Some(d) => match f {
                QQField::Original => payload_field(opt_text(d.lrc)),
                QQField::Translated => payload_field(opt_text(d.trans)),
                QQField::Romanized => payload_field(opt_text(d.roma)),
            },
            None => None,
        }
    } else {
        None
    }
}

} // verus!
