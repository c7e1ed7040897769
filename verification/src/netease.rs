//! The NetEase provider client: search and lyrics URL construction, the
//! structured decode of its search and lyrics payloads, and the manual
//! fallback scanner that survives schema drift.

use vstd::prelude::*;
use vstd::string::StrSliceExecFns;
use vstd::string::StringExecFns;

use crate::common::{build_query, url_encode, urlencode_of};
use crate::data::{
    LyricsData, LyricsSource, SearchResult, SongInfo, NetEaseLyricsResponse, NetEaseLyricsData,
    netease_original, nonblank, payload_field,
};
use crate::lrc::opt_text;
use crate::errors::LyricsError;
use crate::jsonval::{json_parse, json_get, json_index, json_as_string, json_as_u64, json_array_len};
use crate::strutil::{
    all_digits, all_digits_exec, find_from, find_sub, is_digit, is_ws, char_is_digit, char_is_ws,
    opt_int, str_chars, string_from_chars, trim_of, u64_to_dec, dec_str,
};

verus! {

/// The NetEase client: the two endpoints it talks to.
pub struct NetEaseApi {
    pub base_search_url: String,
    pub base_lyrics_url: String,
}

/// The key that announces the song array in a search payload.
pub open spec fn songs_key() -> Seq<char> {
    "\"songs\":"@
}

/// The marker whose colon announces an id field.
pub open spec fn id_marker() -> Seq<char> {
    "\"id\""@
}

/// The id scan: walks the text after the song-array key, tracking whether
/// an id field is open, where its value began, and quote and escape
/// state, and yields the first plausible id.
pub open spec fn song_id_scan(
    s: Seq<char>,
    i: int,
    in_id: bool,
    vstart: Option<int>,
    in_q: bool,
    esc: bool,
) -> Option<Seq<char>>
    decreases s.len() - i,
{
    if i < 0 {
        None
    } else if i >= s.len() {
        match vstart {
            Some(st) => {
                let id = s.subrange(st, s.len() as int);
                if id.len() > 0 && all_digits(id) {
                    Some(id)
                } else {
                    None
                }
            },
            None => None,
        }
    } else if esc {
        song_id_scan(s, i + 1, in_id, vstart, in_q, false)
    } else if s[i] == '\\' {
        song_id_scan(s, i + 1, in_id, vstart, in_q, true)
    } else if s[i] == '"' {
        if in_id && !in_q {
            song_id_scan(s, i + 1, in_id, vstart, true, false)
        } else if in_q {
            match vstart {
                Some(st) => {
                    let id = s.subrange(st, i);
                    if id.len() > 0 && all_digits(id) {
                        Some(id)
                    } else {
                        song_id_scan(s, i + 1, false, None, false, false)
                    }
                },
                None => song_id_scan(s, i + 1, false, None, false, false),
            }
        } else {
            song_id_scan(s, i + 1, in_id, vstart, in_q, false)
        }
    } else if s[i] == ':' && !in_q {
        let opens = i >= 4 && s.subrange(i - 4, i) == id_marker();
        song_id_scan(s, i + 1, in_id || opens, vstart, in_q, false)
    } else if in_id && !in_q && is_digit(s[i]) {
        let v2 = if vstart is None {
            Some(i)
        } else {
            vstart
        };
        song_id_scan(s, i + 1, in_id, v2, in_q, false)
    } else if in_id && !in_q && !is_digit(s[i]) && !is_ws(s[i]) {
        match vstart {
            Some(st) => {
                let id = s.subrange(st, i);
                if id.len() > 0 {
                    Some(id)
                } else {
                    song_id_scan(s, i + 1, false, None, in_q, false)
                }
            },
            None => song_id_scan(s, i + 1, false, None, in_q, false),
        }
    } else {
        song_id_scan(s, i + 1, in_id, vstart, in_q, false)
    }
}

/// What the fallback scan of a whole search payload yields: the scan of
/// everything after the first song-array key.
pub open spec fn first_song_id_spec(resp: Seq<char>) -> Option<Seq<char>> {
    match find_from(resp, songs_key(), 0) {
        None => None,
        Some(p) => song_id_scan(
            resp.subrange(p + songs_key().len(), resp.len() as int),
            0,
            false,
            None,
            false,
            false,
        ),
    }
}

/// Copies `s[from..to]`.
fn copy_range(s: &Vec<char>, from: usize, to: usize) -> (r: Vec<char>)
    requires
        from <= to <= s@.len(),
    ensures
        r@ == s@.subrange(from as int, to as int),
{
    let mut r: Vec<char> = Vec::new();
    let mut k: usize = from;
    while k < to
        invariant
            from <= k <= to <= s@.len(),
            r@ == s@.subrange(from as int, k as int),
        decreases to - k,
    {
        let c = s[k];
        r.push(c);
        proof {
            assert(s@.subrange(from as int, k as int).push(s@[k as int])
                =~= s@.subrange(from as int, k + 1));
        }
        k += 1;
    }
    proof {
        assert(r@ =~= s@.subrange(from as int, to as int));
    }
    r
}

impl NetEaseApi {
    /// A client against NetEase's public search endpoint and the lyrics
    /// proxy the engine uses.
    pub fn new() -> (r: Self)
        ensures
            r.base_search_url@ == "https://music.163.com/api/search/get/web"@,
            r.base_lyrics_url@ == "https://api.vkeys.cn/v2/music/netease/lyric"@,
    {
        NetEaseApi {
            base_search_url: String::from_str("https://music.163.com/api/search/get/web"),
            base_lyrics_url: String::from_str("https://api.vkeys.cn/v2/music/netease/lyric"),
        }
    }

    /// The search URL for a song: the query is the trimmed title and
    /// artist joined by a space, percent-encoded. A blank identity is
    /// rejected.
    pub fn search_url(&self, song_info: &SongInfo) -> (r: Result<String, LyricsError>)
        ensures
            r is Ok <==> (trim_of(song_info.title@).len() > 0
                && trim_of(song_info.artist@).len() > 0),
            r matches Ok(u) ==> u@ == self.base_search_url@
                + "?csrf_token=hlpretag=&hlposttag=&s="@
                + urlencode_of(trim_of(song_info.title@) + seq![' '] + trim_of(song_info.artist@))
                + "&type=1&offset=0&total=true&limit=1"@,
            r matches Err(e) ==> e is InvalidSongInfo,
    {
        if !song_info.is_valid() {
            return Err(LyricsError::InvalidSongInfo);
        }
        let query = build_query(song_info.title.as_str(), song_info.artist.as_str());
        let encoded = url_encode(query.as_str());
        let url = self.base_search_url.clone()
            .concat("?csrf_token=hlpretag=&hlposttag=&s=")
            .concat(encoded.as_str())
            .concat("&type=1&offset=0&total=true&limit=1");
        Ok(url)
    }

    /// The lyrics URL for a found song; an empty id means the song was
    /// never found.
    pub fn lyrics_url(&self, music_id: &str) -> (r: Result<String, LyricsError>)
        ensures
            r is Ok <==> music_id@.len() > 0,
            r matches Ok(u) ==> u@ == self.base_lyrics_url@ + "?id="@ + music_id@,
            r matches Err(e) ==> e is SongNotFound,
    {
        if music_id.is_empty() {
            return Err(LyricsError::SongNotFound);
        }
        Ok(self.base_lyrics_url.clone().concat("?id=").concat(music_id))
    }

    /// Scans a raw search payload for the first song's id: digits after an
    /// `"id"` field inside the song array, quoted or bare.
    pub fn extract_first_song_id(&self, response: &str) -> (r: Option<String>)
        ensures
            match r {
                Some(s) => first_song_id_spec(response@) == Some(s@),
                None => first_song_id_spec(response@) is None,
            },
    {
        let rc = str_chars(response);
        let pat = str_chars("\"songs\":");
        let p = match find_sub(&rc, &pat, 0) {
            None => {
                return None;
            },
            Some(p) => p,
        };
        proof {
            crate::strutil::lemma_find_from_some(rc@, pat@, 0);
        }
        let n = rc.len();
        let start = p + pat.len();
        let sec = copy_range(&rc, start, n);
        let m = sec.len();
        proof {
            assert(first_song_id_spec(response@)
                == song_id_scan(sec@, 0, false, None, false, false));
        }
        let mut i: usize = 0;
        let mut in_id = false;
        let mut vstart: Option<usize> = None;
        let mut in_q = false;
        let mut esc = false;
        while i < m
            invariant
                m == sec@.len(),
                i <= m,
                (vstart matches Some(v) ==> v < i),
                first_song_id_spec(response@)
                    == song_id_scan(sec@, 0, false, None, false, false),
                song_id_scan(sec@, 0, false, None, false, false)
                    == song_id_scan(sec@, i as int, in_id, opt_int(vstart), in_q, esc),
            decreases m - i,
        {
            let c = sec[i];
            if esc {
                esc = false;
            } else if c == '\\' {
                esc = true;
            } else if c == '"' {
                if in_id && !in_q {
                    in_q = true;
                } else if in_q {
                    match vstart {
                        Some(st) => {
                            let id = copy_range(&sec, st, i);
                            if id.len() > 0 && all_digits_exec(&id) {
                                proof {
                                    assert(song_id_scan(sec@, i as int, in_id, opt_int(vstart), in_q, esc)
                                        == Some(sec@.subrange(st as int, i as int)));
                                }
                                return Some(string_from_chars(&id));
                            }
                            in_q = false;
                            in_id = false;
                            vstart = None;
                        },
                        None => {
                            in_q = false;
                            in_id = false;
                            vstart = None;
                        },
                    }
                }
            } else if c == ':' && !in_q {
                let opens = i >= 4 && sec[i - 4] == '"' && sec[i - 3] == 'i'
                    && sec[i - 2] == 'd' && sec[i - 1] == '"';
                proof {
                    reveal_strlit("\"id\"");
                    if i >= 4 {
                        assert(opens == (sec@.subrange(i - 4, i as int) == id_marker())) by {
                            if opens {
                                assert(sec@.subrange(i - 4, i as int) =~= id_marker());
                            }
                            if sec@.subrange(i - 4, i as int) == id_marker() {
                                assert(sec@.subrange(i - 4, i as int)[0] == sec@[i - 4]);
                                assert(sec@.subrange(i - 4, i as int)[1] == sec@[i - 3]);
                                assert(sec@.subrange(i - 4, i as int)[2] == sec@[i - 2]);
                                assert(sec@.subrange(i - 4, i as int)[3] == sec@[i - 1]);
                            }
                        }
                    }
                }
                if opens {
                    in_id = true;
                }
            } else if in_id && !in_q && char_is_digit(c) {
                if vstart.is_none() {
                    vstart = Some(i);
                }
            } else if in_id && !in_q && !char_is_digit(c) && !char_is_ws(c) {
                match vstart {
                    Some(st) => {
                        let id = copy_range(&sec, st, i);
                        if id.len() > 0 {
                            proof {
                                assert(song_id_scan(sec@, i as int, in_id, opt_int(vstart), in_q, esc)
                                    == Some(sec@.subrange(st as int, i as int)));
                            }
                            return Some(string_from_chars(&id));
                        }
                        in_id = false;
                        vstart = None;
                    },
                    None => {
                        in_id = false;
                        vstart = None;
                    },
                }
            }
            i += 1;
        }
        match vstart {
            Some(st) => {
                let id = copy_range(&sec, st, m);
                if id.len() > 0 && all_digits_exec(&id) {
                    Some(string_from_chars(&id))
                } else {
                    None
                }
            },
            None => None,
        }
    }

    /// The manual fallback: a found id becomes a placeholder result, an
    /// implausible or missing one simply no result; this path never fails
    /// hard.
    pub fn parse_search_response_manual(&self, response: &str) -> (r: Result<Option<SearchResult>, LyricsError>)
        ensures
            match first_song_id_spec(response@) {
                Some(id) => if id.len() > 0 && id != seq!['0'] {
                    r matches Ok(Some(sr)) && sr.id@ == id && sr.duration_ms is None
                } else {
                    r matches Ok(None)
                },
                None => r matches Ok(None),
            },
    {
        if let Some(id) = self.extract_first_song_id(response) {
            let idc = str_chars(id.as_str());
            let is_zero = idc.len() == 1 && idc[0] == '0';
            if !id.as_str().is_empty() && !is_zero {
                proof {
                    assert(seq!['0'].len() == 1 && seq!['0'][0] == '0');
                    assert(id@ != seq!['0']);
                }
                return Ok(Some(SearchResult {
                    id,
                    title: String::from_str("Unknown"),
                    artist: String::from_str("Unknown"),
                    duration_ms: None,
                }));
            }
            proof {
                if idc@.len() == 1 && idc@[0] == '0' {
                    assert(id@ =~= seq!['0']);
                }
            }
            return Ok(None);
        }
        Ok(None)
    }

    /// Decodes a search payload: the structured decode names the first
    /// song's numeric id, and a found id forces a result carrying exactly
    /// that id in decimal; JSON that will not parse falls back to the
    /// manual scanner. This path never fails hard.
    pub fn parse_search_response(&self, response: &str) -> (r: Result<Option<SearchResult>, LyricsError>)
        ensures
            r is Ok,
            netease_search_id_of(response@) matches Some(found) ==> match found {
                Some(n) => r matches Ok(Some(sr)) && sr.id@ == dec_str(n as int),
                None => r matches Ok(None),
            },
            netease_search_id_of(response@) is None ==> match first_song_id_spec(response@) {
                Some(id) => if id.len() > 0 && id != seq!['0'] {
                    r matches Ok(Some(sr)) && sr.id@ == id
                } else {
                    r matches Ok(None)
                },
                None => r matches Ok(None),
            },
            r matches Ok(Some(sr)) ==> sr.id@.len() > 0,
    {
        match netease_search_id(response) {
            None => self.parse_search_response_manual(response),
            Some(None) => Ok(None),
            Some(Some(id)) => {
                let digits = u64_to_dec(id);
                let id_str = string_from_chars(&digits);
                proof {
                    crate::strutil::lemma_dec_str_nonempty(id as int);
                }
                let (title, artist, duration_ms) = Self::search_extras(response);
                Ok(Some(SearchResult { id: id_str, title, artist, duration_ms }))
            },
        }
    }

    /// The cosmetic parts of a found song — name, artists joined by a
    /// comma, duration — read leniently from the payload, with empty
    /// defaults where a field is missing or mistyped.
    fn search_extras(response: &str) -> (String, String, Option<u64>) {
        let v = match json_parse(response) {
            Ok(v) => v,
            Err(_) => {
                return (String::new(), String::new(), None);
            },
        };
        let song = match json_get(&v, "result") {
            Some(result) => match json_get(result, "songs") {
                Some(songs) => json_index(songs, 0),
                None => None,
            },
            None => None,
        };
        match song {
            Some(s) => {
                let title = match json_get(s, "name") {
                    Some(x) => match json_as_string(x) {
                        Some(t) => t,
                        None => String::new(),
                    },
                    None => String::new(),
                };
                let artist = match json_get(s, "ar") {
                    Some(ar) => join_artist_names(ar),
                    None => String::new(),
                };
                let duration_ms = match json_get(s, "dt") {
                    Some(dt) => json_as_u64(dt),
                    None => None,
                };
                (title, artist, duration_ms)
            },
            None => (String::new(), String::new(), None),
        }
    }

    /// Decodes a lyrics payload: a decoded success status with a non-blank
    /// text yields a document holding exactly that text, un-escaped; a
    /// failed status or blank text is no lyrics; a payload whose status or
    /// shape will not decode is a parse error.
    pub fn parse_lyrics_response(&self, response: &str) -> (r: Result<LyricsData, LyricsError>)
        ensures
            netease_lyrics_decode_of(response@) is None ==> (r matches Err(e)
                && e is JsonParseError),
            netease_lyrics_decode_of(response@) matches Some(d) ==> {
                let original = if d.0 == 200 {
                    payload_field(d.1)
                } else {
                    None::<Seq<char>>
                };
                if original matches Some(text) && nonblank(text) {
                    r matches Ok(doc) && opt_text(doc.original) == original
                        && doc.has_lyrics && doc.translated is None && doc.romanized is None
                        && doc.source == LyricsSource::NetEase
                } else {
                    r matches Err(e) && e is LyricsNotFound
                }
            },
    {
        let decoded = match netease_lyrics_decode(response) {
            Some(d) => d,
            None => {
                return Err(LyricsError::JsonParseError(String::from_str(
                    "payload is not the expected JSON",
                )));
            },
        };
        let (code, lrc) = decoded;
        let response_shape = NetEaseLyricsResponse {
            code: clamp_i32(code),
            message: String::new(),
            data: Some(NetEaseLyricsData { lrc, yrc: None }),
            time: String::new(),
            tips: String::new(),
        };
        let lyrics_data = LyricsData::from_netease_response(response_shape);
        if !lyrics_data.has_any_content() {
            Err(LyricsError::LyricsNotFound)
        } else {
            Ok(lyrics_data)
        }
    }
}

/// The numeric id of the first song in a decoded search payload: nothing
/// when the text is not JSON; otherwise the `id` of the first song under
/// `result.songs`, when it is there and numeric. A function of the
/// response text alone.
pub uninterp spec fn netease_search_id_of(resp: Seq<char>) -> Option<Option<u64>>;

/// Relies on serde_json's `from_str::<Value>` with `Value::get` and
/// `as_u64`: decodes the first song's numeric id.
#[verifier::external_body]
fn netease_search_id(resp: &str) -> (r: Option<Option<u64>>)
    ensures
        r == netease_search_id_of(resp@),
{
    match serde_json::from_str::<serde_json::Value>(resp) {
        Ok(v) => Some(
            v.get("result")
                .and_then(|result| result.get("songs"))
                .and_then(|songs| songs.get(0))
                .and_then(|song| song.get("id"))
                .and_then(|id| id.as_u64()),
        ),
        Err(_) => None,
    }
}

/// The decoded status code and lrc text of a lyrics payload: nothing when
/// the text is not JSON or carries no numeric status; otherwise the code
/// and the `data.lrc` string, when one is there. A function of the
/// response text alone.
pub uninterp spec fn netease_lyrics_decode_of(resp: Seq<char>) -> Option<(int, Option<Seq<char>>)>;

/// The view of a decoded status and text.
pub open spec fn lyrics_decode_view(r: Option<(i64, Option<String>)>) -> Option<(int, Option<Seq<char>>)> {
    match r {
        Some(d) => Some((d.0 as int, opt_text(d.1))),
        None => None,
    }
}

/// Relies on serde_json's `from_str::<Value>` with `Value::get`, `as_i64`
/// and `as_str`: decodes a lyrics payload's status code and lrc text.
#[verifier::external_body]
fn netease_lyrics_decode(resp: &str) -> (r: Option<(i64, Option<String>)>)
    ensures
        lyrics_decode_view(r) == netease_lyrics_decode_of(resp@),
{
    let v: serde_json::Value = serde_json::from_str(resp).ok()?;
    let code = v.get("code").and_then(|c| c.as_i64())?;
    let lrc = v.get("data").and_then(|d| d.get("lrc")).and_then(|x| x.as_str()).map(str::to_owned);
    Some((code, lrc))
}

/// The artists' names joined by a comma and a space.
fn join_artist_names(ar: &serde_json::Value) -> (r: String)
{
    let n = match json_array_len(ar) {
        Some(n) => n,
        None => {
            return String::new();
        },
    };
    let mut out = String::new();
    let mut first = true;
    let mut i: usize = 0;
    while i < n
        decreases n - i,
    {
        if let Some(item) = json_index(ar, i) {
            if let Some(name) = match json_get(item, "name") {
                Some(x) => json_as_string(x),
                None => None,
            } {
                if !first {
                    out.append(", ");
                }
                out.append(name.as_str());
                first = false;
            }
        }
        i += 1;
    }
    out
}

/// Narrows a decoded status code into `i32`, saturating at its bounds.
fn clamp_i32(x: i64) -> (r: i32)
    ensures
        i32::MIN <= x <= i32::MAX ==> r == x,
        x > i32::MAX ==> r == i32::MAX,
        x < i32::MIN ==> r == i32::MIN,
{
    if x > i32::MAX as i64 {
        i32::MAX
    } else if x < i32::MIN as i64 {
        i32::MIN
    } else {
        x as i32
    }
}

} // verus!
