//! The QQ Music provider client: search and lyrics URL construction, the
//! structured decode of its payloads, and the manual fallback scanners.

use vstd::prelude::*;
use vstd::string::StrSliceExecFns;
use vstd::string::StringExecFns;

use crate::common::{
    build_query, url_encode, urlencode_of, key_pattern, key_pattern_exec, brace_scan,
};
use crate::data::{
    LyricsData, LyricsSource, QQSearchResult, SongInfo, QQMusicLyricsResponse,
    QQMusicLyricsData, nonblank, payload_field,
};
use crate::lrc::opt_text;
use crate::errors::LyricsError;
use crate::jsonval::{json_parse, json_get, json_index, json_as_string, json_array_len};
use crate::strutil::{
    find_from, find_sub, is_digit, char_is_digit, skip_ws_from, skip_ws, str_chars,
    string_from_chars, trim_of, u64_to_dec, dec_str, lemma_find_from_some,
};

verus! {

/// The QQ Music client: the two endpoints it talks to.
pub struct QQMusicApi {
    pub base_search_url: String,
    pub base_lyrics_url: String,
}

/// The last position of an unbroken digit run that starts at `i`.
pub open spec fn digits_end(s: Seq<char>, i: int) -> int
    decreases s.len() - i,
{
    if i < 0 || i >= s.len() || !is_digit(s[i]) {
        i
    } else {
        digits_end(s, i + 1)
    }
}

/// What scanning `json` for the numeric field `key` yields: the digit run
/// after the first `"key":` (whitespace skipped), possibly empty.
pub open spec fn numeric_field_spec(json: Seq<char>, key: Seq<char>) -> Seq<char> {
    match find_from(json, key_pattern(key), 0) {
        None => Seq::empty(),
        Some(p) => {
            let cur = skip_ws_from(json, p + key_pattern(key).len());
            json.subrange(cur, digits_end(json, cur))
        },
    }
}

/// What scanning `json` for the string field `key` yields: the text
/// between the quote after the first `"key":` (whitespace skipped) and the
/// very next quote; empty when the key is missing, the value is not a
/// string, or the quote never closes.
pub open spec fn string_field_spec(json: Seq<char>, key: Seq<char>) -> Seq<char> {
    match find_from(json, key_pattern(key), 0) {
        None => Seq::empty(),
        Some(p) => {
            let cur = skip_ws_from(json, p + key_pattern(key).len());
            if cur < json.len() && json[cur] == '"' {
                match find_from(json, seq!['"'], cur + 1) {
                    Some(e) => json.subrange(cur + 1, e),
                    None => Seq::empty(),
                }
            } else {
                Seq::empty()
            }
        },
    }
}

/// How the manual scan of a whole search payload can end.
pub enum QQScanOutcome {
    /// The song object key is not there.
    MissingSong,
    /// The list key is not there after it.
    MissingList,
    /// No array or object opens after the list key.
    MissingStart,
    /// The object's braces never balance.
    Unterminated,
    /// Both ids were found.
    Found(Seq<char>, Seq<char>),
    /// The object lacks one of the ids.
    Incomplete,
}

/// What the manual scan of a search payload yields: inside the first
/// object of the list under the song key, the numeric `songid` and the
/// string `songmid`, both required non-empty.
pub open spec fn qq_manual_spec(resp: Seq<char>) -> QQScanOutcome {
    match find_from(resp, "\"song\":"@, 0) {
        None => QQScanOutcome::MissingSong,
        Some(song_pos) => match find_from(resp, "\"list\":"@, song_pos) {
            None => QQScanOutcome::MissingList,
            Some(list_pos) => match find_from(resp, seq!['['], list_pos) {
                None => QQScanOutcome::MissingStart,
                Some(arr) => match find_from(resp, seq!['{'], arr) {
                    None => QQScanOutcome::MissingStart,
                    Some(obj) => match brace_scan(resp, obj + 1, 1) {
                        None => QQScanOutcome::Unterminated,
                        Some(end) => {
                            let content = resp.subrange(obj, end);
                            let id = numeric_field_spec(content, "songid"@);
                            let mid = string_field_spec(content, "songmid"@);
                            if id.len() > 0 && mid.len() > 0 {
                                QQScanOutcome::Found(id, mid)
                            } else {
                                QQScanOutcome::Incomplete
                            }
                        },
                    },
                },
            },
        },
    }
}

impl QQMusicApi {
    /// A client against QQ Music's public search endpoint and the lyrics
    /// proxy the engine uses.
    pub fn new() -> (r: Self)
        ensures
            r.base_search_url@ == "http://c.y.qq.com/soso/fcgi-bin/search_cp"@,
            r.base_lyrics_url@ == "https://api.vkeys.cn/v2/music/tencent/lyric"@,
    {
        QQMusicApi {
            base_search_url: String::from_str("http://c.y.qq.com/soso/fcgi-bin/search_cp"),
            base_lyrics_url: String::from_str("https://api.vkeys.cn/v2/music/tencent/lyric"),
        }
    }

    /// The search URL for a song: the query is the trimmed title and
    /// artist joined by a space, percent-encoded. A blank identity is
    /// rejected.
    pub fn search_url(&self, song_info: &SongInfo) -> (r: Result<String, LyricsError>)
        ensures
            r is Ok <==> (trim_of(song_info.title@).len() > 0
                && trim_of(song_info.artist@).len() > 0),
            r matches Ok(u) ==> u@ == self.base_search_url@
                + "?t=0&aggr=1&cr=1&catZhida=1&lossless=0&flag_qc=0&p=1&w="@
                + urlencode_of(trim_of(song_info.title@) + seq![' '] + trim_of(song_info.artist@))
                + "&n=1&g_tk=938407465&loginUin=0&hostUin=0&format=json&inCharset=utf8&outCharset=utf-8&notice=0&platform=yqq&needNewCode=0"@,
            r matches Err(e) ==> e is InvalidSongInfo,
    {
        if !song_info.is_valid() {
            return Err(LyricsError::InvalidSongInfo);
        }
        let query = build_query(song_info.title.as_str(), song_info.artist.as_str());
        let encoded = url_encode(query.as_str());
        let url = self.base_search_url.clone()
            .concat("?t=0&aggr=1&cr=1&catZhida=1&lossless=0&flag_qc=0&p=1&w=")
            .concat(encoded.as_str())
            .concat("&n=1&g_tk=938407465&loginUin=0&hostUin=0&format=json&inCharset=utf8&outCharset=utf-8&notice=0&platform=yqq&needNewCode=0");
        Ok(url)
    }

    /// The lyrics URL for a found song: the mid is preferred, the numeric
    /// id the fallback; with neither the song was never found.
    pub fn lyrics_url(&self, song_id: &str, song_mid: &str) -> (r: Result<String, LyricsError>)
        ensures
            r is Ok <==> (song_id@.len() > 0 || song_mid@.len() > 0),
            song_mid@.len() > 0 ==> (r matches Ok(u)
                && u@ == self.base_lyrics_url@ + "?mid="@ + song_mid@),
            song_mid@.len() == 0 && song_id@.len() > 0 ==> (r matches Ok(u)
                && u@ == self.base_lyrics_url@ + "?id="@ + song_id@),
            r matches Err(e) ==> e is SongNotFound,
    {
        if song_id.is_empty() && song_mid.is_empty() {
            return Err(LyricsError::SongNotFound);
        }
        if !song_mid.is_empty() {
            Ok(self.base_lyrics_url.clone().concat("?mid=").concat(song_mid))
        } else {
            Ok(self.base_lyrics_url.clone().concat("?id=").concat(song_id))
        }
    }

    /// Pulls a numeric field's digits out of raw JSON text; empty when the
    /// field cannot be found.
    pub fn extract_numeric_field(&self, json: &str, field: &str) -> (r: Result<String, LyricsError>)
        ensures
            r matches Ok(s) && s@ == numeric_field_spec(json@, field@),
    {
        let jc = str_chars(json);
        let fc = str_chars(field);
        let pat = key_pattern_exec(&fc);
        let p = match find_sub(&jc, &pat, 0) {
            None => {
                return Ok(String::new());
            },
            Some(p) => p,
        };
        proof {
            lemma_find_from_some(jc@, pat@, 0);
        }
        let n = jc.len();
        let cur = skip_ws(&jc, p + pat.len());
        let mut e: usize = cur;
        while e < n && char_is_digit(jc[e])
            invariant
                n == jc@.len(),
                cur <= e <= n,
                digits_end(jc@, cur as int) == digits_end(jc@, e as int),
            decreases n - e,
        {
            e += 1;
        }
        let mut out: Vec<char> = Vec::new();
        let mut k: usize = cur;
        while k < e
            invariant
                cur <= k <= e <= jc@.len(),
                out@ == jc@.subrange(cur as int, k as int),
            decreases e - k,
        {
            let c = jc[k];
            out.push(c);
            proof {
                assert(jc@.subrange(cur as int, k as int).push(jc@[k as int])
                    =~= jc@.subrange(cur as int, k + 1));
            }
            k += 1;
        }
        proof {
            assert(out@ =~= jc@.subrange(cur as int, e as int));
        }
        Ok(string_from_chars(&out))
    }

    /// Pulls a string field's text out of raw JSON text, up to the next
    /// quote; empty when the field cannot be found.
    pub fn extract_string_field(&self, json: &str, field: &str) -> (r: Result<String, LyricsError>)
        ensures
            r matches Ok(s) && s@ == string_field_spec(json@, field@),
    {
        let jc = str_chars(json);
        let fc = str_chars(field);
        let pat = key_pattern_exec(&fc);
        let p = match find_sub(&jc, &pat, 0) {
            None => {
                return Ok(String::new());
            },
            Some(p) => p,
        };
        proof {
            lemma_find_from_some(jc@, pat@, 0);
        }
        let n = jc.len();
        let cur = skip_ws(&jc, p + pat.len());
        if cur >= n {
            return Ok(String::new());
        }
        if jc[cur] != '"' {
            return Ok(String::new());
        }
        let mut quote: Vec<char> = Vec::new();
        quote.push('"');
        proof {
            assert(quote@ =~= seq!['"']);
        }
        let e = match find_sub(&jc, &quote, cur + 1) {
            None => {
                return Ok(String::new());
            },
            Some(e) => e,
        };
        proof {
            lemma_find_from_some(jc@, quote@, cur as int + 1);
        }
        let mut out: Vec<char> = Vec::new();
        let mut k: usize = cur + 1;
        while k < e
            invariant
                cur + 1 <= k <= e <= jc@.len(),
                out@ == jc@.subrange(cur + 1, k as int),
            decreases e - k,
        {
            let c = jc[k];
            out.push(c);
            proof {
                assert(jc@.subrange(cur + 1, k as int).push(jc@[k as int])
                    =~= jc@.subrange(cur + 1, k + 1));
            }
            k += 1;
        }
        proof {
            assert(out@ =~= jc@.subrange(cur + 1, e as int));
        }
        Ok(string_from_chars(&out))
    }

    /// The manual fallback: brace-matches the first song object and pulls
    /// both ids. The scan never fails hard: missing structure, unbalanced
    /// braces and a missing id are all simply no result.
    pub fn parse_search_response_manual(&self, response: &str) -> (r: Result<Option<QQSearchResult>, LyricsError>)
        ensures
            r is Ok,
            match qq_manual_spec(response@) {
                QQScanOutcome::Found(id, mid) => r matches Ok(Some(sr))
                    && sr.song_id@ == id && sr.song_mid@ == mid,
                _ => r matches Ok(None),
            },
    {
        let rc = str_chars(response);
        let song_pat = str_chars("\"song\":");
        let song_pos = match find_sub(&rc, &song_pat, 0) {
            None => {
                return Ok(None);
            },
            Some(p) => p,
        };
        let list_pat = str_chars("\"list\":");
        let list_pos = match find_sub(&rc, &list_pat, song_pos) {
            None => {
                return Ok(None);
            },
            Some(p) => p,
        };
        proof {
            lemma_find_from_some(rc@, list_pat@, song_pos as int);
        }
        let mut bracket: Vec<char> = Vec::new();
        bracket.push('[');
        proof {
            assert(bracket@ =~= seq!['[']);
        }
        let arr = match find_sub(&rc, &bracket, list_pos) {
            None => {
                return Ok(None);
            },
            Some(p) => p,
        };
        proof {
            lemma_find_from_some(rc@, bracket@, list_pos as int);
        }
        let mut brace: Vec<char> = Vec::new();
        brace.push('{');
        proof {
            assert(brace@ =~= seq!['{']);
        }
        let obj = match find_sub(&rc, &brace, arr) {
            None => {
                return Ok(None);
            },
            Some(p) => p,
        };
        proof {
            lemma_find_from_some(rc@, brace@, arr as int);
        }
        let end = match crate::common::find_object_end(&rc, obj) {
            None => {
                return Ok(None);
            },
            Some(e) => e,
        };
        let content = copy_chars(&rc, obj, end);
        let content_str = string_from_chars(&content);
        let song_id = match self.extract_numeric_field(content_str.as_str(), "songid") {
            Ok(s) => s,
            Err(_) => {
                return Ok(None);
            },
        };
        let song_mid = match self.extract_string_field(content_str.as_str(), "songmid") {
            Ok(s) => s,
            Err(_) => {
                return Ok(None);
            },
        };
        if !song_id.as_str().is_empty() && !song_mid.as_str().is_empty() {
            Ok(Some(QQSearchResult {
                song_id,
                song_mid,
                title: String::from_str("Unknown"),
                artist: String::from_str("Unknown"),
            }))
        } else {
            Ok(None)
        }
    }

    /// Decodes a search payload: the structured decode names the first
    /// song's ids, and found ids force a result carrying exactly them, the
    /// numeric one in decimal; JSON that will not parse falls back to the
    /// manual scanner. This path never fails hard.
    pub fn parse_search_response(&self, response: &str) -> (r: Result<Option<QQSearchResult>, LyricsError>)
        ensures
            r is Ok,
            qq_search_ids_of(response@) matches Some(found) ==> match found {
                Some(ids) => r matches Ok(Some(sr)) && sr.song_id@ == dec_str(ids.0 as int)
                    && sr.song_mid@ == ids.1,
                None => r matches Ok(None),
            },
            qq_search_ids_of(response@) is None ==> match qq_manual_spec(response@) {
                QQScanOutcome::Found(id, mid) => r matches Ok(Some(sr))
                    && sr.song_id@ == id && sr.song_mid@ == mid,
                _ => r matches Ok(None),
            },
            r matches Ok(Some(sr)) ==> sr.song_id@.len() > 0,
    {
        match qq_search_ids(response) {
            None => self.parse_search_response_manual(response),
            Some(None) => Ok(None),
            Some(Some(ids)) => {
                let (songid, songmid) = ids;
                let digits = u64_to_dec(songid);
                let id_str = string_from_chars(&digits);
                proof {
                    crate::strutil::lemma_dec_str_nonempty(songid as int);
                }
                let (title, artist) = Self::search_extras(response);
                Ok(Some(QQSearchResult { song_id: id_str, song_mid: songmid, title, artist }))
            },
        }
    }

    /// The cosmetic parts of a found song — name and singers joined by a
    /// comma — read leniently from the payload, with empty defaults where
    /// a field is missing or mistyped.
    fn search_extras(response: &str) -> (String, String) {
        let v = match json_parse(response) {
            Ok(v) => v,
            Err(_) => {
                return (String::new(), String::new());
            },
        };
        let song = match json_get(&v, "data") {
            Some(data) => match json_get(data, "song") {
                Some(song) => match json_get(song, "list") {
                    Some(list) => json_index(list, 0),
                    None => None,
                },
                None => None,
            },
            None => None,
        };
        match song {
            Some(first) => {
                let title = match json_get(first, "songname") {
                    Some(x) => match json_as_string(x) {
                        Some(t) => t,
                        None => String::new(),
                    },
                    None => String::new(),
                };
                let artist = match json_get(first, "singer") {
                    Some(singers) => join_singer_names(singers),
                    None => String::new(),
                };
                (title, artist)
            },
            None => (String::new(), String::new()),
        }
    }

    /// Decodes a lyrics payload: a decoded success status with at least
    /// one non-blank text yields a document holding exactly those texts,
    /// un-escaped; a failed status or all-blank texts is no lyrics; a
    /// payload whose status or shape will not decode is a parse error.
    pub fn parse_lyrics_response(&self, response: &str) -> (r: Result<LyricsData, LyricsError>)
        ensures
            qq_lyrics_decode_of(response@) is None ==> (r matches Err(e) && e is JsonParseError),
            qq_lyrics_decode_of(response@) matches Some(d) ==> {
                let o = if d.0 == 200 { payload_field(d.1) } else { None::<Seq<char>> };
                let t = if d.0 == 200 { payload_field(d.2) } else { None::<Seq<char>> };
                let m = if d.0 == 200 { payload_field(d.3) } else { None::<Seq<char>> };
                let has = (o matches Some(x) && nonblank(x)) || (t matches Some(x) && nonblank(x))
                    || (m matches Some(x) && nonblank(x));
                if has {
                    r matches Ok(doc) && opt_text(doc.original) == o
                        && opt_text(doc.translated) == t && opt_text(doc.romanized) == m
                        && doc.has_lyrics == (o is Some)
                        && doc.source == LyricsSource::QQMusic
                } else {
                    r matches Err(e) && e is LyricsNotFound
                }
            },
    {
        let decoded = match qq_lyrics_decode(response) {
            Some(d) => d,
            None => {
                return Err(LyricsError::JsonParseError(String::from_str(
                    "payload is not the expected JSON",
                )));
            },
        };
        let (code, lrc, trans, roma) = decoded;
        let response_shape = QQMusicLyricsResponse {
            code: narrow_i32(code),
            message: String::new(),
            data: Some(QQMusicLyricsData { lrc, trans, yrc: None, roma }),
            time: String::new(),
            pid: None,
            tips: String::new(),
        };
        let lyrics_data = LyricsData::from_qqmusic_response(response_shape);
        if !lyrics_data.has_any_content() {
            Err(LyricsError::LyricsNotFound)
        } else {
            Ok(lyrics_data)
        }
    }
}

/// The first song's ids in a decoded search payload: nothing when the text
/// is not JSON; otherwise the numeric `songid` and string `songmid` of the
/// first song under `data.song.list`, when both are there. A function of
/// the response text alone.
pub uninterp spec fn qq_search_ids_of(resp: Seq<char>) -> Option<Option<(u64, Seq<char>)>>;

/// The view of a decoded id pair.
pub open spec fn qq_ids_view(r: Option<Option<(u64, String)>>) -> Option<Option<(u64, Seq<char>)>> {
    match r {
        Some(Some(p)) => Some(Some((p.0, p.1@))),
        Some(None) => Some(None),
        None => None,
    }
}

/// Relies on serde_json's `from_str::<Value>` with `Value::get`, `as_u64`
/// and `as_str`: decodes the first song's ids.
#[verifier::external_body]
fn qq_search_ids(resp: &str) -> (r: Option<Option<(u64, String)>>)
    ensures
        qq_ids_view(r) == qq_search_ids_of(resp@),
{
    let v: serde_json::Value = serde_json::from_str(resp).ok()?;
    let first = v.get("data").and_then(|d| d.get("song")).and_then(|sg| sg.get("list")).and_then(|l| l.get(0));
    let id = first.and_then(|sg| sg.get("songid")).and_then(|x| x.as_u64());
    let mid = first.and_then(|sg| sg.get("songmid")).and_then(|x| x.as_str());
    match (id, mid) {
        (Some(id), Some(mid)) => Some(Some((id, mid.to_owned()))),
        _ => Some(None),
    }
}

/// The decoded status code and the three texts of a lyrics payload:
/// nothing when the text is not JSON or carries no numeric status;
/// otherwise the code and the `data.lrc`, `data.trans` and `data.roma`
/// strings, each when it is there. A function of the response text alone.
pub uninterp spec fn qq_lyrics_decode_of(resp: Seq<char>) -> Option<(int, Option<Seq<char>>, Option<Seq<char>>, Option<Seq<char>>)>;

/// The view of a decoded status and texts.
pub open spec fn qq_lyrics_view(r: Option<(i64, Option<String>, Option<String>, Option<String>)>) -> Option<(int, Option<Seq<char>>, Option<Seq<char>>, Option<Seq<char>>)> {
    match r {
        Some(d) => Some((d.0 as int, opt_text(d.1), opt_text(d.2), opt_text(d.3))),
        None => None,
    }
}

/// Relies on serde_json's `from_str::<Value>` with `Value::get`, `as_i64`
/// and `as_str`: decodes a lyrics payload's status code and texts.
#[verifier::external_body]
fn qq_lyrics_decode(resp: &str) -> (r: Option<(i64, Option<String>, Option<String>, Option<String>)>)
    ensures
        qq_lyrics_view(r) == qq_lyrics_decode_of(resp@),
{
    let v: serde_json::Value = serde_json::from_str(resp).ok()?;
    let code = v.get("code").and_then(|c| c.as_i64())?;
    let d = v.get("data");
    let lrc = d.and_then(|d| d.get("lrc")).and_then(|x| x.as_str()).map(str::to_owned);
    let trans = d.and_then(|d| d.get("trans")).and_then(|x| x.as_str()).map(str::to_owned);
    let roma = d.and_then(|d| d.get("roma")).and_then(|x| x.as_str()).map(str::to_owned);
    Some((code, lrc, trans, roma))
}

/// The singers' names joined by a comma and a space.
fn join_singer_names(singers: &serde_json::Value) -> (r: String)
{
    let n = match json_array_len(singers) {
        Some(n) => n,
        None => {
            return String::new();
        },
    };
    let mut out = String::new();
    let mut first = true;
    let mut i: usize = 0;
    while i < n
        decreases n - i,
    {
        if let Some(item) = json_index(singers, i) {
            if let Some(name) = match json_get(item, "name") {
                Some(x) => json_as_string(x),
                None => None,
            } {
                if !first {
                    out.append(", ");
                }
                out.append(name.as_str());
                first = false;
            }
        }
        i += 1;
    }
    out
}

/// Copies `s[from..to]`.
fn copy_chars(s: &Vec<char>, from: usize, to: usize) -> (r: Vec<char>)
    requires
        from <= to <= s@.len(),
    ensures
        r@ == s@.subrange(from as int, to as int),
{
    let mut r: Vec<char> = Vec::new();
    let mut k: usize = from;
    while k < to
        invariant
            from <= k <= to <= s@.len(),
            r@ == s@.subrange(from as int, k as int),
        decreases to - k,
    {
        let c = s[k];
        r.push(c);
        proof {
            assert(s@.subrange(from as int, k as int).push(s@[k as int])
                =~= s@.subrange(from as int, k + 1));
        }
        k += 1;
    }
    proof {
        assert(r@ =~= s@.subrange(from as int, to as int));
    }
    r
}

/// Narrows a decoded status code into `i32`, saturating at its bounds.
fn narrow_i32(x: i64) -> (r: i32)
    ensures
        i32::MIN <= x <= i32::MAX ==> r == x,
        x > i32::MAX ==> r == i32::MAX,
        x < i32::MIN ==> r == i32::MIN,
{
    if x > i32::MAX as i64 {
        i32::MAX
    } else if x < i32::MIN as i64 {
        i32::MIN
    } else {
        x as i32
    }
}

} // verus!
