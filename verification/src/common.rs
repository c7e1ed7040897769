//! What the provider clients share: URL encoding, query building, and the
//! best-effort JSON field scanners used when a response no longer matches
//! the expected schema.

use vstd::prelude::*;
use vstd::string::StrSliceExecFns;
use vstd::string::StringExecFns;

use crate::errors::LyricsError;
use crate::strutil::{
    find_from, find_sub, skip_ws_from, skip_ws, str_chars, string_from_chars, trim_of, trim_str,
    lemma_find_from_some,
};

verus! {

/// What the form serializer returns for a given character sequence; it
/// writes each space as a plus sign.
pub uninterp spec fn form_encoded_of(s: Seq<char>) -> Seq<char>;

/// Relies on `form_urlencoded::byte_serialize` from the url crate, applied
/// to the input's UTF-8 bytes: the encoding is a function of the input
/// characters alone, and encodes nothing to nothing.
#[verifier::external_body]
fn form_urlencode(input: &str) -> (r: String)
    ensures
        r@ == form_encoded_of(input@),
        input@.len() == 0 ==> r@.len() == 0,
{
    url::form_urlencoded::byte_serialize(input.as_bytes()).collect()
}

/// `s` with every plus sign written as the standard `%20`. The form
/// serializer emits a plus only for a space — a literal plus comes out of
/// it percent-encoded — so this loses nothing.
pub open spec fn plus_to_pct(s: Seq<char>) -> Seq<char>
    decreases s.len(),
{
    if s.len() == 0 {
        s
    } else if s[0] == '+' {
        seq!['%', '2', '0'] + plus_to_pct(s.drop_first())
    } else {
        seq![s[0]] + plus_to_pct(s.drop_first())
    }
}

/// What percent-encoding per standard URL rules returns: the form
/// serialization with spaces as `%20`.
pub open spec fn urlencode_of(s: Seq<char>) -> Seq<char> {
    plus_to_pct(form_encoded_of(s))
}

/// Percent-encodes per standard URL rules: spaces become `%20`.
pub fn url_encode(input: &str) -> (r: String)
    ensures
        r@ == urlencode_of(input@),
        input@.len() == 0 ==> r@.len() == 0,
{
    let raw = form_urlencode(input);
    let chars = str_chars(raw.as_str());
    let n = chars.len();
    let mut out: Vec<char> = Vec::new();
    let mut i: usize = 0;
    proof {
        assert(chars@.subrange(0, n as int) =~= chars@);
        assert(out@ + plus_to_pct(chars@) =~= plus_to_pct(chars@));
    }
    while i < n
        invariant
            n == chars@.len(),
            i <= n,
            plus_to_pct(chars@) == out@ + plus_to_pct(chars@.subrange(i as int, n as int)),
        decreases n - i,
    {
        let ghost rest = chars@.subrange(i as int, n as int);
        let ghost out0 = out@;
        let c = chars[i];
        if c == '+' {
            out.push('%');
            out.push('2');
            out.push('0');
        } else {
            out.push(c);
        }
        proof {
            assert(rest[0] == chars@[i as int]);
            assert(rest.drop_first() =~= chars@.subrange(i + 1, n as int));
            if c == '+' {
                assert(plus_to_pct(rest)
                    == seq!['%', '2', '0'] + plus_to_pct(chars@.subrange(i + 1, n as int)));
                assert(out@ + plus_to_pct(chars@.subrange(i + 1, n as int))
                    =~= out0 + plus_to_pct(rest));
            } else {
                assert(plus_to_pct(rest)
                    == seq![rest[0]] + plus_to_pct(chars@.subrange(i + 1, n as int)));
                assert(out@ + plus_to_pct(chars@.subrange(i + 1, n as int))
                    =~= out0 + plus_to_pct(rest));
            }
        }
        i += 1;
    }
    proof {
        assert(chars@.subrange(n as int, n as int) =~= Seq::<char>::empty());
        assert(out@ + Seq::<char>::empty() =~= out@);
        if input@.len() == 0 {
            assert(plus_to_pct(chars@) =~= Seq::<char>::empty());
        }
    }
    string_from_chars(&out)
}

/// Builds the provider search query: the trimmed title and artist joined
/// by one space.
pub fn build_query(title: &str, artist: &str) -> (r: String)
    ensures
        r@ == trim_of(title@) + seq![' '] + trim_of(artist@),
{
    let t = trim_str(title);
    let a = trim_str(artist);
    let q = t.to_owned().concat(" ").concat(a);
    proof {
        reveal_strlit(" ");
        assert(" "@ =~= seq![' ']);
        assert(q@ =~= trim_of(title@) + seq![' '] + trim_of(artist@));
    }
    q
}

/// The text that announces a field in a JSON object: the quoted key
/// followed by a colon.
pub open spec fn key_pattern(key: Seq<char>) -> Seq<char> {
    seq!['"'] + key + seq!['"', ':']
}

/// Builds the field-announcing pattern for a key.
pub fn key_pattern_exec(key: &Vec<char>) -> (r: Vec<char>)
    ensures
        r@ == key_pattern(key@),
{
    let n = key.len();
    let mut r: Vec<char> = Vec::new();
    r.push('"');
    let mut i: usize = 0;
    while i < n
        invariant
            n == key@.len(),
            i <= n,
            r@ == seq!['"'] + key@.subrange(0, i as int),
        decreases n - i,
    {
        let c = key[i];
        r.push(c);
        proof {
            assert((seq!['"'] + key@.subrange(0, i as int)).push(key@[i as int])
                =~= seq!['"'] + key@.subrange(0, i + 1));
        }
        i += 1;
    }
    r.push('"');
    r.push(':');
    proof {
        assert(key@.subrange(0, n as int) =~= key@);
        assert(r@ =~= key_pattern(key@));
    }
    r
}

/// The first closing quote at or after `e` that is not preceded by a
/// backslash; the quote right at the value's start always closes it.
pub open spec fn close_quote_from(s: Seq<char>, vstart: int, e: int) -> Option<int>
    decreases s.len() - e,
{
    if e < vstart || e >= s.len() {
        None
    } else if s[e] == '"' && (e == vstart || s[e - 1] != '\\') {
        Some(e)
    } else {
        close_quote_from(s, vstart, e + 1)
    }
}

/// What scanning `json` for a string-valued `key` yields: the text between
/// the quote after the first `"key":` (whitespace skipped) and the next
/// unescaped quote; nothing when the key is missing, the value is not a
/// string, or the quote never closes.
pub open spec fn extract_json_string_spec(json: Seq<char>, key: Seq<char>) -> Option<Seq<char>> {
    match find_from(json, key_pattern(key), 0) {
        None => None,
        Some(p) => {
            let start = p + key_pattern(key).len();
            let cur = skip_ws_from(json, start);
            if cur < json.len() && json[cur] == '"' {
                match close_quote_from(json, cur + 1, cur + 1) {
                    None => None,
                    Some(e) => Some(json.subrange(cur + 1, e)),
                }
            } else {
                None
            }
        },
    }
}

/// Scans characters for the closing quote of a string value.
fn find_close_quote(s: &Vec<char>, vstart: usize) -> (r: Option<usize>)
    requires
        vstart <= s@.len(),
    ensures
        match r {
            Some(e) => close_quote_from(s@, vstart as int, vstart as int) == Some(e as int)
                && vstart <= e < s@.len(),
            None => close_quote_from(s@, vstart as int, vstart as int) is None,
        },
{
    let n = s.len();
    let mut e: usize = vstart;
    while e < n
        invariant
            n == s@.len(),
            vstart <= e <= n,
            close_quote_from(s@, vstart as int, vstart as int)
                == close_quote_from(s@, vstart as int, e as int),
        decreases n - e,
    {
        if s[e] == '"' && (e == vstart || s[e - 1] != '\\') {
            return Some(e);
        }
        e += 1;
    }
    None
}

/// Pulls the first string value stored under `key`, scanning the raw JSON
/// text; `None` when no such string field can be found.
pub fn extract_json_string(json: &str, key: &str) -> (r: Option<String>)
    ensures
        match r {
            Some(s) => extract_json_string_spec(json@, key@) == Some(s@),
            None => extract_json_string_spec(json@, key@) is None,
        },
{
    let jc = str_chars(json);
    let kc = str_chars(key);
    let pat = key_pattern_exec(&kc);
    let p = match find_sub(&jc, &pat, 0) {
        None => {
            return None;
        },
        Some(p) => p,
    };
    proof {
        lemma_find_from_some(jc@, pat@, 0);
    }
    let start = p + pat.len();
    let cur = skip_ws(&jc, start);
    if cur >= jc.len() {
        return None;
    }
    if jc[cur] != '"' {
        return None;
    }
    let e = match find_close_quote(&jc, cur + 1) {
        None => {
            return None;
        },
        Some(e) => e,
    };
    let mut out: Vec<char> = Vec::new();
    let mut k: usize = cur + 1;
    while k < e
        invariant
            cur + 1 <= k <= e < jc@.len(),
            out@ == jc@.subrange(cur + 1, k as int),
        decreases e - k,
    {
        let c = jc[k];
        out.push(c);
        proof {
            assert(jc@.subrange(cur + 1, k as int).push(jc@[k as int])
                =~= jc@.subrange(cur + 1, k + 1));
        }
        k += 1;
    }
    proof {
        assert(out@ =~= jc@.subrange(cur + 1, e as int));
    }
    Some(string_from_chars(&out))
}

/// The position one past the brace that closes `depth` open braces,
/// scanning from `i`; nothing when the text ends first.
pub open spec fn brace_scan(s: Seq<char>, i: int, depth: int) -> Option<int>
    decreases s.len() - i,
{
    if depth <= 0 {
        Some(i)
    } else if i < 0 || i >= s.len() {
        None
    } else {
        let d2: int = if s[i] == '{' {
            depth + 1
        } else if s[i] == '}' {
            depth - 1
        } else {
            depth
        };
        brace_scan(s, i + 1, d2)
    }
}

/// Scans for the end of the object whose opening brace stands at `start`.
pub fn find_object_end(s: &Vec<char>, start: usize) -> (r: Option<usize>)
    requires
        start < s@.len(),
    ensures
        match r {
            Some(e) => brace_scan(s@, start + 1, 1) == Some(e as int) && start < e <= s@.len(),
            None => brace_scan(s@, start + 1, 1) is None,
        },
{
    let n = s.len();
    let mut depth: usize = 1;
    let mut i: usize = start + 1;
    while i < n && depth > 0
        invariant
            n == s@.len(),
            start + 1 <= i <= n,
            depth <= i,
            brace_scan(s@, start + 1, 1) == brace_scan(s@, i as int, depth as int),
        decreases n - i,
    {
        let c = s[i];
        if c == '{' {
            depth += 1;
        } else if c == '}' {
            depth -= 1;
        }
        i += 1;
    }
    if depth == 0 {
        Some(i)
    } else {
        None
    }
}

/// How a best-effort id scan can end.
pub enum FindIdOutcome {
    /// The parent key is not there.
    MissingParent,
    /// No array follows the parent key.
    MissingArray,
    /// No object opens inside the array.
    MissingObject,
    /// The object's braces never balance.
    Unterminated,
    /// An id was found.
    Found(Seq<char>),
    /// The object holds no usable id.
    NotFound,
}

/// What the best-effort id scan yields: inside the first object of the
/// array under `parent_key`, the string value of `id_key`, accepted only
/// when non-empty and not the literal zero.
pub open spec fn find_first_id_spec(json: Seq<char>, parent_key: Seq<char>, id_key: Seq<char>) -> FindIdOutcome {
    match find_from(json, key_pattern(parent_key), 0) {
        None => FindIdOutcome::MissingParent,
        Some(parent_pos) => match find_from(json, seq!['['], parent_pos) {
            None => FindIdOutcome::MissingArray,
            Some(array_pos) => match find_from(json, seq!['{'], array_pos) {
                None => FindIdOutcome::MissingObject,
                Some(obj_pos) => match brace_scan(json, obj_pos + 1, 1) {
                    None => FindIdOutcome::Unterminated,
                    Some(obj_end) => {
                        let content = json.subrange(obj_pos, obj_end);
                        match extract_json_string_spec(content, id_key) {
                            Some(id) => if id.len() > 0 && id != seq!['0'] {
                                FindIdOutcome::Found(id)
                            } else {
                                FindIdOutcome::NotFound
                            },
                            None => FindIdOutcome::NotFound,
                        }
                    },
                },
            },
        },
    }
}

/// Finds the id of the first object in the array stored under
/// `parent_key`, matching brace nesting to bound the object. The scan
/// never fails hard: missing structure, unbalanced braces, a missing id
/// and the literal zero are all simply not found.
pub fn find_first_id(json: &str, parent_key: &str, id_key: &str) -> (r: Result<Option<String>, LyricsError>)
    ensures
        r is Ok,
        match find_first_id_spec(json@, parent_key@, id_key@) {
            FindIdOutcome::Found(id) => r matches Ok(Some(s)) && s@ == id,
            _ => r matches Ok(None),
        },
{
    let jc = str_chars(json);
    let pc = str_chars(parent_key);
    let parent_pat = key_pattern_exec(&pc);
    let parent_pos = match find_sub(&jc, &parent_pat, 0) {
        None => {
            return Ok(None);
        },
        Some(p) => p,
    };
    proof {
        lemma_find_from_some(jc@, parent_pat@, 0);
    }
    let mut bracket: Vec<char> = Vec::new();
    bracket.push('[');
    proof {
        assert(bracket@ =~= seq!['[']);
    }
    let array_pos = match find_sub(&jc, &bracket, parent_pos) {
        None => {
            return Ok(None);
        },
        Some(p) => p,
    };
    proof {
        lemma_find_from_some(jc@, bracket@, parent_pos as int);
    }
    let mut brace: Vec<char> = Vec::new();
    brace.push('{');
    proof {
        assert(brace@ =~= seq!['{']);
    }
    let obj_pos = match find_sub(&jc, &brace, array_pos) {
        None => {
            return Ok(None);
        },
        Some(p) => p,
    };
    proof {
        lemma_find_from_some(jc@, brace@, array_pos as int);
    }
    let obj_end = match find_object_end(&jc, obj_pos) {
        None => {
            return Ok(None);
        },
        Some(e) => e,
    };
    let mut content: Vec<char> = Vec::new();
    let mut k: usize = obj_pos;
    while k < obj_end
        invariant
            obj_pos <= k <= obj_end <= jc@.len(),
            content@ == jc@.subrange(obj_pos as int, k as int),
        decreases obj_end - k,
    {
        let c = jc[k];
        content.push(c);
        proof {
            assert(jc@.subrange(obj_pos as int, k as int).push(jc@[k as int])
                =~= jc@.subrange(obj_pos as int, k + 1));
        }
        k += 1;
    }
    proof {
        assert(content@ =~= jc@.subrange(obj_pos as int, obj_end as int));
    }
    let content_str = string_from_chars(&content);
    match extract_json_string(content_str.as_str(), id_key) {
        Some(id) => {
            if id.as_str().is_empty() {
                return Ok(None);
            }
            let idc = str_chars(id.as_str());
            let is_zero = idc.len() == 1 && idc[0] == '0';
            if is_zero {
                proof {
                    assert(id@ =~= seq!['0']);
                }
                Ok(None)
            } else {
                proof {
                    assert(seq!['0'].len() == 1 && seq!['0'][0] == '0');
                    assert(id@ != seq!['0']);
                }
                Ok(Some(id))
            }
        },
        None => Ok(None),
    }
}

} // verus!
