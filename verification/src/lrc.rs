//! The LRC lyrics format: per-line `[mm:ss.xx]` timestamps, parsing of a
//! whole text into an ascending timestamp-sorted line list, and the cursor
//! scans that pick the line for a playback position.

use vstd::prelude::*;
use vstd::multiset::Multiset;

use crate::strutil::{
    find_from, find_sub, match_at, opt_int, parse_u64, parse_u64_spec, trim_ws,
    trim_ws_spec, str_chars, string_from_chars,
};

verus! {

broadcast use
    vstd::seq_lib::group_to_multiset_ensures,
    vstd::multiset::group_multiset_axioms;

/// Splits `s` at its only occurrence of `c`; `None` unless `c` occurs
/// exactly once.
pub open spec fn split2(s: Seq<char>, c: char) -> Option<(Seq<char>, Seq<char>)> {
    match find_from(s, seq![c], 0) {
        None => None,
        Some(i) => {
            if find_from(s, seq![c], i + 1) is Some {
                None
            } else {
                Some((s.subrange(0, i), s.subrange(i + 1, s.len() as int)))
            }
        },
    }
}

/// Splits `s` at its only occurrence of `c`.
pub fn split2_exec(s: &Vec<char>, c: char) -> (r: Option<(Vec<char>, Vec<char>)>)
    ensures
        match r {
            Some(p) => split2(s@, c) == Some((p.0@, p.1@)),
            None => split2(s@, c) is None,
        },
{
    let mut pat: Vec<char> = Vec::new();
    pat.push(c);
    let n = s.len();
    proof {
        assert(pat@ =~= seq![c]);
    }
    match find_sub(s, &pat, 0) {
        None => None,
        Some(i) => {
            proof {
                crate::strutil::lemma_find_from_some(s@, pat@, 0);
            }
            match find_sub(s, &pat, i + 1) {
                Some(_) => None,
                None => {
                    let mut a: Vec<char> = Vec::new();
                    let mut b: Vec<char> = Vec::new();
                    let mut k: usize = 0;
                    while k < i
                        invariant
                            k <= i < n,
                            n == s@.len(),
                            a@ == s@.subrange(0, k as int),
                        decreases i - k,
                    {
                        let ch = s[k];
                        a.push(ch);
                        proof {
                            assert(s@.subrange(0, k as int).push(s@[k as int])
                                =~= s@.subrange(0, k + 1));
                        }
                        k += 1;
                    }
                    let mut k2: usize = i + 1;
                    while k2 < n
                        invariant
                            i + 1 <= k2 <= n,
                            n == s@.len(),
                            b@ == s@.subrange(i + 1, k2 as int),
                        decreases n - k2,
                    {
                        let ch = s[k2];
                        b.push(ch);
                        proof {
                            assert(s@.subrange(i + 1, k2 as int).push(s@[k2 as int])
                                =~= s@.subrange(i + 1, k2 + 1));
                        }
                        k2 += 1;
                    }
                    Some((a, b))
                },
            }
        },
    }
}

/// What a `[mm:ss.xx]` timestamp body denotes, in milliseconds: minutes,
/// seconds and centiseconds joined by one colon and one dot, every part a
/// decimal number, and the total fitting a `u64`.
pub open spec fn lrc_timestamp_spec(t: Seq<char>) -> Option<u64> {
    match split2(t, ':') {
        None => None,
        Some(mr) => match split2(mr.1, '.') {
            None => None,
            Some(sc) => match (parse_u64_spec(mr.0), parse_u64_spec(sc.0), parse_u64_spec(sc.1)) {
                (Some(m), Some(s), Some(c)) => {
                    let total = m * 60000 + s * 1000 + c * 10;
                    if total <= u64::MAX {
                        Some(total as u64)
                    } else {
                        None
                    }
                },
                _ => None,
            },
        },
    }
}

/// Parses a `mm:ss.xx` timestamp body to milliseconds.
pub fn parse_lrc_timestamp_chars(t: &Vec<char>) -> (r: Option<u64>)
    ensures
        r == lrc_timestamp_spec(t@),
{
    let mr = match split2_exec(t, ':') {
        None => {
            return None;
        },
        Some(p) => p,
    };
    let sc = match split2_exec(&mr.1, '.') {
        None => {
            return None;
        },
        Some(p) => p,
    };
    let m = match parse_u64(&mr.0) {
        None => {
            return None;
        },
        Some(v) => v,
    };
    let s = match parse_u64(&sc.0) {
        None => {
            return None;
        },
        Some(v) => v,
    };
    let c = match parse_u64(&sc.1) {
        None => {
            return None;
        },
        Some(v) => v,
    };
    let ms = match m.checked_mul(60000) {
        None => {
            return None;
        },
        Some(v) => v,
    };
    let ss = match s.checked_mul(1000) {
        None => {
            return None;
        },
        Some(v) => v,
    };
    let cs = match c.checked_mul(10) {
        None => {
            return None;
        },
        Some(v) => v,
    };
    let t1 = match ms.checked_add(ss) {
        None => {
            return None;
        },
        Some(v) => v,
    };
    match t1.checked_add(cs) {
        None => None,
        Some(v) => Some(v),
    }
}

/// What one LRC line contributes: after trimming, the line must open with a
/// bracket holding a well-formed timestamp; the text is what follows the
/// first closing bracket, trimmed. Anything else contributes nothing.
pub open spec fn lrc_line_spec(line: Seq<char>) -> Option<(u64, Seq<char>)> {
    let l = trim_ws_spec(line);
    if l.len() > 0 && l[0] == '[' {
        match find_from(l, seq![']'], 0) {
            None => None,
            Some(cb) => {
                let time_part = l.subrange(1, cb);
                let content = trim_ws_spec(l.subrange(cb + 1, l.len() as int));
                match lrc_timestamp_spec(time_part) {
                    None => None,
                    Some(ts) => Some((ts, content)),
                }
            },
        }
    } else {
        None
    }
}

/// Parses one line of LRC text.
pub fn parse_lrc_line(line: &Vec<char>) -> (r: Option<(u64, Vec<char>)>)
    ensures
        match r {
            Some(p) => lrc_line_spec(line@) == Some((p.0, p.1@)),
            None => lrc_line_spec(line@) is None,
        },
{
    let l = trim_ws(line);
    let n = l.len();
    if n == 0 {
        return None;
    }
    if l[0] != '[' {
        return None;
    }
    let mut pat: Vec<char> = Vec::new();
    pat.push(']');
    proof {
        assert(pat@ =~= seq![']']);
    }
    let cb = match find_sub(&l, &pat, 0) {
        None => {
            return None;
        },
        Some(i) => i,
    };
    proof {
        crate::strutil::lemma_find_from_some(l@, pat@, 0);
        assert(match_at(l@, pat@, cb as int));
        if cb == 0 {
            assert(l@.subrange(0, 1)[0] == l@[0]);
            assert(false);
        }
    }
    let mut time_part: Vec<char> = Vec::new();
    let mut k: usize = 1;
    while k < cb
        invariant
            1 <= k <= cb,
            cb < n,
            n == l@.len(),
            time_part@ == l@.subrange(1, k as int),
        decreases cb - k,
    {
        let ch = l[k];
        time_part.push(ch);
        proof {
            assert(l@.subrange(1, k as int).push(l@[k as int]) =~= l@.subrange(1, k + 1));
        }
        k += 1;
    }
    proof {
        if cb == 0 {
            assert(l@[0] == ']');
        }
        assert(time_part@ =~= l@.subrange(1, cb as int));
    }
    let ts = match parse_lrc_timestamp_chars(&time_part) {
        None => {
            return None;
        },
        Some(v) => v,
    };
    let mut tail: Vec<char> = Vec::new();
    let mut k2: usize = cb + 1;
    while k2 < n
        invariant
            cb + 1 <= k2 <= n,
            n == l@.len(),
            tail@ == l@.subrange(cb + 1, k2 as int),
        decreases n - k2,
    {
        let ch = l[k2];
        tail.push(ch);
        proof {
            assert(l@.subrange(cb + 1, k2 as int).push(l@[k2 as int])
                =~= l@.subrange(cb + 1, k2 + 1));
        }
        k2 += 1;
    }
    proof {
        assert(tail@ =~= l@.subrange(cb + 1, n as int));
    }
    let content = trim_ws(&tail);
    Some((ts, content))
}

/// The lines of `s`, split on newline characters. A final newline yields a
/// final empty line, which no LRC scan accepts anyway.
pub open spec fn split_lines_from(s: Seq<char>, start: int, i: int) -> Seq<Seq<char>>
    decreases s.len() - i,
{
    if i < 0 || i >= s.len() || start < 0 || start > i {
        seq![s.subrange(if 0 <= start <= s.len() { start } else { 0 }, s.len() as int)]
    } else if s[i] == '\n' {
        seq![s.subrange(start, i)] + split_lines_from(s, i + 1, i + 1)
    } else {
        split_lines_from(s, start, i + 1)
    }
}

/// The lines of `s`.
pub open spec fn split_lines(s: Seq<char>) -> Seq<Seq<char>> {
    split_lines_from(s, 0, 0)
}

/// Splits `s` into its lines.
pub fn split_lines_exec(s: &Vec<char>) -> (r: Vec<Vec<char>>)
    ensures
        r@.map_values(|l: Vec<char>| l@) == split_lines(s@),
{
    let n = s.len();
    let mut out: Vec<Vec<char>> = Vec::new();
    let mut start: usize = 0;
    let mut i: usize = 0;
    while i < n
        invariant
            n == s@.len(),
            start <= i <= n,
            split_lines(s@) == out@.map_values(|l: Vec<char>| l@)
                + split_lines_from(s@, start as int, i as int),
        decreases n - i,
    {
        let ghost out0 = out@;
        if s[i] == '\n' {
            let mut line: Vec<char> = Vec::new();
            let mut k: usize = start;
            while k < i
                invariant
                    start <= k <= i <= n,
                    n == s@.len(),
                    line@ == s@.subrange(start as int, k as int),
                decreases i - k,
            {
                let ch = s[k];
                line.push(ch);
                proof {
                    assert(s@.subrange(start as int, k as int).push(s@[k as int])
                        =~= s@.subrange(start as int, k + 1));
                }
                k += 1;
            }
            out.push(line);
            proof {
                assert(out@.map_values(|l: Vec<char>| l@)
                    =~= out0.map_values(|l: Vec<char>| l@).push(s@.subrange(start as int, i as int)));
                assert(out@.map_values(|l: Vec<char>| l@) + split_lines_from(s@, i + 1, i + 1)
                    =~= out0.map_values(|l: Vec<char>| l@)
                        + (seq![s@.subrange(start as int, i as int)]
                            + split_lines_from(s@, i + 1, i + 1)));
            }
            i += 1;
            start = i;
        } else {
            i += 1;
        }
    }
    let mut line: Vec<char> = Vec::new();
    let mut k: usize = start;
    while k < n
        invariant
            start <= k <= n,
            n == s@.len(),
            line@ == s@.subrange(start as int, k as int),
        decreases n - k,
    {
        let ch = s[k];
        line.push(ch);
        proof {
            assert(s@.subrange(start as int, k as int).push(s@[k as int])
                =~= s@.subrange(start as int, k + 1));
        }
        k += 1;
    }
    let ghost out1 = out@;
    out.push(line);
    proof {
        assert(split_lines_from(s@, start as int, n as int)
            =~= seq![s@.subrange(start as int, n as int)]);
        assert(out@.map_values(|l: Vec<char>| l@)
            =~= out1.map_values(|l: Vec<char>| l@).push(s@.subrange(start as int, n as int)));
        assert(out@.map_values(|l: Vec<char>| l@) =~= split_lines(s@));
    }
    out
}

/// What parsing a sequence of lines yields, in line order, before sorting.
pub open spec fn lrc_parse_unsorted(lines: Seq<Seq<char>>) -> Seq<(u64, Seq<char>)>
    decreases lines.len(),
{
    if lines.len() == 0 {
        Seq::empty()
    } else {
        match lrc_line_spec(lines.first()) {
            None => lrc_parse_unsorted(lines.drop_first()),
            Some(p) => seq![p] + lrc_parse_unsorted(lines.drop_first()),
        }
    }
}

/// The timed lines an LRC text contributes, in text order.
pub open spec fn lrc_lines_of(text: Seq<char>) -> Seq<(u64, Seq<char>)> {
    lrc_parse_unsorted(split_lines(text))
}

/// The view of an executable line list: each entry a timestamp and the
/// line's characters.
pub open spec fn lines_view(v: Seq<(u64, String)>) -> Seq<(u64, Seq<char>)> {
    v.map_values(|p: (u64, String)| (p.0, p.1@))
}

/// Ascending by timestamp.
pub open spec fn sorted_ts(s: Seq<(u64, Seq<char>)>) -> bool {
    forall|i: int, j: int| 0 <= i < j < s.len() ==> s[i].0 <= s[j].0
}

/// The position of the first line with the least timestamp among the best
/// seen so far and everything at or after `i`.
pub open spec fn first_min_from(s: Seq<(u64, Seq<char>)>, i: int, best: int) -> int
    decreases s.len() - i,
{
    if i < 0 || i >= s.len() {
        best
    } else if s[i].0 < s[best].0 {
        first_min_from(s, i + 1, i)
    } else {
        first_min_from(s, i + 1, best)
    }
}

/// A first-minimum position is a position.
proof fn lemma_first_min_bounds(s: Seq<(u64, Seq<char>)>, i: int, best: int)
    requires
        0 <= best < s.len(),
        0 <= i,
    ensures
        0 <= first_min_from(s, i, best) < s.len(),
    decreases s.len() - i + 1,
{
    if i < s.len() {
        if s[i].0 < s[best].0 {
            lemma_first_min_bounds(s, i + 1, i);
        } else {
            lemma_first_min_bounds(s, i + 1, best);
        }
    }
}

/// The lines sorted ascending by timestamp by extracting, each round, the
/// earliest line holding the least timestamp: a stable sort — lines with
/// equal timestamps keep their order.
pub open spec fn sel_sort(s: Seq<(u64, Seq<char>)>) -> Seq<(u64, Seq<char>)>
    decreases s.len(),
    via sel_sort_decreases
{
    if s.len() == 0 {
        Seq::empty()
    } else {
        let m = first_min_from(s, 1, 0);
        seq![s[m]] + sel_sort(s.remove(m))
    }
}

#[via_fn]
proof fn sel_sort_decreases(s: Seq<(u64, Seq<char>)>) {
    if s.len() > 0 {
        lemma_first_min_bounds(s, 1, 0);
    }
}

/// Sorts a line list ascending by timestamp, stably: the result is exactly
/// the first-minimum extraction order, so it holds exactly the lines that
/// went in, and lines with equal timestamps keep their order.
pub fn sort_lines_by_timestamp(v: Vec<(u64, String)>) -> (r: Vec<(u64, String)>)
    ensures
        lines_view(r@) == sel_sort(lines_view(v@)),
        lines_view(r@).to_multiset() == lines_view(v@).to_multiset(),
        sorted_ts(lines_view(r@)),
{
    let ghost orig = lines_view(v@);
    let mut src = v;
    let mut out: Vec<(u64, String)> = Vec::new();
    proof {
        assert(lines_view(out@).to_multiset().add(lines_view(src@).to_multiset())
            =~= orig.to_multiset());
        assert(lines_view(out@) + sel_sort(lines_view(src@)) =~= sel_sort(orig));
    }
    while src.len() > 0
        invariant
            lines_view(out@).to_multiset().add(lines_view(src@).to_multiset())
                == orig.to_multiset(),
            sorted_ts(lines_view(out@)),
            lines_view(out@) + sel_sort(lines_view(src@)) == sel_sort(orig),
            forall|i: int, j: int|
                0 <= i < out@.len() && 0 <= j < src@.len()
                    ==> #[trigger] out@[i].0 <= #[trigger] src@[j].0,
        decreases src.len(),
    {
        let ghost sv = lines_view(src@);
        let mut mi: usize = 0;
        let mut k: usize = 1;
        while k < src.len()
            invariant
                src@.len() > 0,
                sv == lines_view(src@),
                mi < k,
                k <= src@.len(),
                first_min_from(sv, k as int, mi as int) == first_min_from(sv, 1, 0),
                forall|j: int| 0 <= j < k ==> src@[mi as int].0 <= #[trigger] src@[j].0,
            decreases src.len() - k,
        {
            proof {
                assert(sv[k as int].0 == src@[k as int].0);
                assert(sv[mi as int].0 == src@[mi as int].0);
            }
            if src[k].0 < src[mi].0 {
                mi = k;
            }
            k += 1;
        }
        proof {
            assert(first_min_from(sv, k as int, mi as int) == mi as int);
            assert(mi as int == first_min_from(sv, 1, 0));
        }
        let ghost src0 = src@;
        let ghost out0 = out@;
        let x = src.remove(mi);
        let ghost xv = (x.0, x.1@);
        out.push(x);
        proof {
            assert(lines_view(out@) =~= lines_view(out0).push(xv));
            assert(lines_view(src@) =~= lines_view(src0).remove(mi as int));
            assert(sel_sort(sv) == seq![sv[mi as int]] + sel_sort(sv.remove(mi as int)));
            assert(lines_view(out@) + sel_sort(lines_view(src@))
                =~= lines_view(out0) + sel_sort(sv));
            assert(lines_view(src0)[mi as int] == xv);
            assert(lines_view(src0).contains(xv)) by {
                assert((mi as int) < lines_view(src0).len()
                    && lines_view(src0)[mi as int] == xv);
            }
            assert(lines_view(src0).to_multiset().count(xv) > 0);
            assert(lines_view(out0).push(xv).to_multiset()
                =~= lines_view(out0).to_multiset().insert(xv));
            assert(lines_view(out@).to_multiset()
                =~= lines_view(out0).to_multiset().insert(xv));
            assert(lines_view(src0).remove(mi as int).to_multiset()
                =~= lines_view(src0).to_multiset().remove(xv));
            assert(lines_view(src@).to_multiset()
                =~= lines_view(src0).to_multiset().remove(xv));
            assert(lines_view(out@).to_multiset().add(lines_view(src@).to_multiset())
                =~= lines_view(out0).to_multiset().add(lines_view(src0).to_multiset()));
            assert forall|i: int, j: int|
                0 <= i < out@.len() && 0 <= j < src@.len()
                    implies #[trigger] out@[i].0 <= #[trigger] src@[j].0 by {
                assert(src@[j] == if j < mi as int { src0[j] } else { src0[j + 1] });
                if i < out0.len() {
                } else {
                    assert(out@[i] == x);
                    assert(x.0 == src0[mi as int].0);
                }
            }
            assert(sorted_ts(lines_view(out@))) by {
                assert(forall|i: int| 0 <= i < out0.len()
                    ==> lines_view(out@)[i] == lines_view(out0)[i]);
            }
        }
    }
    proof {
        assert(lines_view(src@).to_multiset() =~= Multiset::<(u64, Seq<char>)>::empty());
        assert(lines_view(out@).to_multiset().add(Multiset::<(u64, Seq<char>)>::empty())
            =~= lines_view(out@).to_multiset());
        assert(sel_sort(lines_view(src@)) =~= Seq::<(u64, Seq<char>)>::empty());
        assert(lines_view(out@) + Seq::<(u64, Seq<char>)>::empty() =~= lines_view(out@));
    }
    out
}

/// Parses a whole LRC text into its timed lines, stably sorted ascending
/// by timestamp; lines without a well-formed bracketed timestamp are
/// skipped.
pub fn parse_lrc_text(text: &str) -> (r: Vec<(u64, String)>)
    ensures
        lines_view(r@) == sel_sort(lrc_lines_of(text@)),
        lines_view(r@).to_multiset() == lrc_lines_of(text@).to_multiset(),
        sorted_ts(lines_view(r@)),
{
    let chars = str_chars(text);
    let lines = split_lines_exec(&chars);
    let n = lines.len();
    let mut collected: Vec<(u64, String)> = Vec::new();
    let ghost line_seq = lines@.map_values(|l: Vec<char>| l@);
    let mut i: usize = 0;
    proof {
        assert(lrc_parse_unsorted(line_seq.subrange(0, 0)) =~= Seq::<(u64, Seq<char>)>::empty());
        assert(lines_view(collected@) =~= Seq::<(u64, Seq<char>)>::empty());
    }
    while i < n
        invariant
            n == lines@.len(),
            i <= n,
            line_seq == lines@.map_values(|l: Vec<char>| l@),
            lines_view(collected@) == lrc_parse_unsorted(line_seq.subrange(0, i as int)),
        decreases n - i,
    {
        let ghost col0 = collected@;
        match parse_lrc_line(&lines[i]) {
            Some(p) => {
                let (ts, content) = p;
                let text_s = string_from_chars(&content);
                collected.push((ts, text_s));
                proof {
                    assert(lines_view(collected@)
                        =~= lines_view(col0).push((ts, content@)));
                }
            },
            None => {
            },
        }
        proof {
            lemma_parse_unsorted_step(line_seq, i as int);
        }
        i += 1;
    }
    proof {
        assert(line_seq.subrange(0, n as int) =~= line_seq);
    }
    sort_lines_by_timestamp(collected)
}

/// Extending the parsed prefix by one line appends that line's
/// contribution, if it has one.
proof fn lemma_parse_unsorted_step(lines: Seq<Seq<char>>, i: int)
    requires
        0 <= i < lines.len(),
    ensures
        lrc_parse_unsorted(lines.subrange(0, i + 1)) == match lrc_line_spec(lines[i]) {
            None => lrc_parse_unsorted(lines.subrange(0, i)),
            Some(p) => lrc_parse_unsorted(lines.subrange(0, i)).push(p),
        },
{
    lemma_parse_unsorted_concat(lines.subrange(0, i), seq![lines[i]]);
    assert(lines.subrange(0, i) + seq![lines[i]] =~= lines.subrange(0, i + 1));
    assert(seq![lines[i]].drop_first() =~= Seq::<Seq<char>>::empty());
    assert(lrc_parse_unsorted(Seq::<Seq<char>>::empty()) =~= Seq::<(u64, Seq<char>)>::empty());
    assert(seq![lines[i]].first() == lines[i]);
    match lrc_line_spec(lines[i]) {
        None => {
            assert(lrc_parse_unsorted(seq![lines[i]])
                == lrc_parse_unsorted(seq![lines[i]].drop_first()));
            assert(lrc_parse_unsorted(lines.subrange(0, i))
                + lrc_parse_unsorted(seq![lines[i]])
                =~= lrc_parse_unsorted(lines.subrange(0, i)));
        },
        Some(p) => {
            assert(lrc_parse_unsorted(seq![lines[i]])
                == seq![p] + lrc_parse_unsorted(seq![lines[i]].drop_first()));
            assert(lrc_parse_unsorted(seq![lines[i]]) =~= seq![p]);
            assert(lrc_parse_unsorted(lines.subrange(0, i))
                + lrc_parse_unsorted(seq![lines[i]])
                =~= lrc_parse_unsorted(lines.subrange(0, i)).push(p));
        },
    }
}

/// The last non-blank line at or before `pos`, scanning `lines` in order
/// from `i` and stopping at the first line past `pos`.
pub open spec fn cursor_scan(
    lines: Seq<(u64, Seq<char>)>,
    pos: u64,
    i: int,
    acc: Option<Seq<char>>,
) -> Option<Seq<char>>
    decreases lines.len() - i,
{
    if i < 0 || i >= lines.len() {
        acc
    } else if lines[i].0 > pos {
        acc
    } else if lines[i].1.len() > 0 {
        cursor_scan(lines, pos, i + 1, Some(lines[i].1))
    } else {
        cursor_scan(lines, pos, i + 1, acc)
    }
}

/// The line the cursor shows at `pos`: the last non-empty text whose
/// timestamp is at or before `pos`, among the lines before the first one
/// past `pos`.
pub open spec fn cursor_line_at(lines: Seq<(u64, Seq<char>)>, pos: u64) -> Option<Seq<char>> {
    cursor_scan(lines, pos, 0, None)
}

/// The view of an optional line of text.
pub open spec fn opt_text(o: Option<String>) -> Option<Seq<char>> {
    match o {
        Some(s) => Some(s@),
        None => None,
    }
}

/// Picks the line to show at `position_ms`: scans `lines` in order, keeps
/// the last non-empty text with timestamp at or before the position, and
/// stops at the first later line.
pub fn find_cursor_line(lines: &Vec<(u64, String)>, position_ms: u64) -> (r: Option<String>)
    ensures
        opt_text(r) == cursor_line_at(lines_view(lines@), position_ms),
{
    let n = lines.len();
    let ghost lv = lines_view(lines@);
    let mut acc: Option<String> = None;
    let mut i: usize = 0;
    while i < n
        invariant
            n == lines@.len(),
            lv == lines_view(lines@),
            i <= n,
            cursor_scan(lv, position_ms, 0, None)
                == cursor_scan(lv, position_ms, i as int, opt_text(acc)),
        decreases n - i,
    {
        let e = &lines[i];
        if e.0 > position_ms {
            return acc;
        }
        if !e.1.as_str().is_empty() {
            acc = Some(e.1.clone());
            proof {
                assert(opt_text(acc) == Some(lv[i as int].1));
            }
        }
        i += 1;
    }
    acc
}

/// The start of the first line strictly after `pos` with non-empty text,
/// scanning from `i`.
pub open spec fn next_time_scan(lines: Seq<(u64, Seq<char>)>, pos: u64, i: int) -> Option<u64>
    decreases lines.len() - i,
{
    if i < 0 || i >= lines.len() {
        None
    } else if lines[i].0 > pos && lines[i].1.len() > 0 {
        Some(lines[i].0)
    } else {
        next_time_scan(lines, pos, i + 1)
    }
}

/// The timestamp of the first line strictly after `position_ms` whose text
/// is non-empty.
pub fn find_next_time(lines: &Vec<(u64, String)>, position_ms: u64) -> (r: Option<u64>)
    ensures
        r == next_time_scan(lines_view(lines@), position_ms, 0),
{
    let n = lines.len();
    let ghost lv = lines_view(lines@);
    let mut i: usize = 0;
    while i < n
        invariant
            n == lines@.len(),
            lv == lines_view(lines@),
            i <= n,
            next_time_scan(lv, position_ms, 0) == next_time_scan(lv, position_ms, i as int),
        decreases n - i,
    {
        let e = &lines[i];
        if e.0 > position_ms && !e.1.as_str().is_empty() {
            return Some(e.0);
        }
        i += 1;
    }
    None
}

/// Lines joined by newline characters.
pub open spec fn join_lines(lines: Seq<Seq<char>>) -> Seq<char>
    decreases lines.len(),
{
    if lines.len() == 0 {
        Seq::empty()
    } else if lines.len() == 1 {
        lines[0]
    } else {
        lines[0] + seq!['\n'] + join_lines(lines.drop_first())
    }
}

/// Splitting a suffix scans the same lines at shifted positions.
proof fn lemma_split_shift(s: Seq<char>, k: int, start: int, i: int)
    requires
        0 <= k <= start <= i <= s.len(),
    ensures
        split_lines_from(s, start, i)
            == split_lines_from(s.subrange(k, s.len() as int), start - k, i - k),
    decreases s.len() - i,
{
    let t = s.subrange(k, s.len() as int);
    if i >= s.len() {
        assert(s.subrange(start, s.len() as int) =~= t.subrange(start - k, t.len() as int));
        assert(split_lines_from(s, start, i) =~= split_lines_from(t, start - k, i - k));
    } else if s[i] == '\n' {
        lemma_split_shift(s, k, i + 1, i + 1);
        assert(t[i - k] == s[i]);
        assert(s.subrange(start, i) =~= t.subrange(start - k, i - k));
        assert(split_lines_from(s, start, i) =~= split_lines_from(t, start - k, i - k));
    } else {
        lemma_split_shift(s, k, start, i + 1);
        assert(t[i - k] == s[i]);
    }
}

/// Scanning over a stretch without newlines leaves the split unchanged.
proof fn lemma_scan_segment(s: Seq<char>, start: int, i: int, m: int)
    requires
        0 <= start <= i <= m <= s.len(),
        forall|j: int| i <= j < m ==> s[j] != '\n',
    ensures
        split_lines_from(s, start, i) == split_lines_from(s, start, m),
    decreases m - i,
{
    if i < m {
        lemma_scan_segment(s, start, i + 1, m);
    }
}

/// A text without newlines is one line.
proof fn lemma_no_newline_split(a: Seq<char>)
    requires
        !a.contains('\n'),
    ensures
        split_lines(a) == seq![a],
{
    assert(forall|j: int| 0 <= j < a.len() ==> a[j] != '\n');
    lemma_scan_segment(a, 0, 0, a.len() as int);
    assert(a.subrange(0, a.len() as int) =~= a);
    assert(split_lines_from(a, 0, a.len() as int) =~= seq![a]);
}

/// Splitting starts by peeling off a newline-free head line.
proof fn lemma_split_head(a: Seq<char>, rest: Seq<char>)
    requires
        !a.contains('\n'),
    ensures
        split_lines(a + seq!['\n'] + rest) == seq![a] + split_lines(rest),
{
    let s = a + seq!['\n'] + rest;
    let m = a.len() as int;
    assert(forall|j: int| 0 <= j < m ==> s[j] == a[j] && s[j] != '\n');
    lemma_scan_segment(s, 0, 0, m);
    assert(s[m] == '\n');
    assert(split_lines_from(s, 0, m)
        == seq![s.subrange(0, m)] + split_lines_from(s, m + 1, m + 1));
    assert(s.subrange(0, m) =~= a);
    lemma_split_shift(s, m + 1, m + 1, m + 1);
    assert(s.subrange(m + 1, s.len() as int) =~= rest);
    assert(seq![s.subrange(0, m)] + split_lines_from(s, m + 1, m + 1)
        =~= seq![a] + split_lines(rest));
}

/// When every line parses, parsing returns exactly those contributions.
proof fn lemma_parse_all_some(lines: Seq<Seq<char>>, pairs: Seq<(u64, Seq<char>)>)
    requires
        lines.len() == pairs.len(),
        forall|i: int| 0 <= i < lines.len() ==> lrc_line_spec(lines[i]) == Some(pairs[i]),
    ensures
        lrc_parse_unsorted(lines) == pairs,
    decreases lines.len(),
{
    if lines.len() == 0 {
        assert(lrc_parse_unsorted(lines) =~= pairs);
    } else {
        lemma_parse_all_some(lines.drop_first(), pairs.drop_first());
        assert(lrc_line_spec(lines.first()) == Some(pairs[0]));
        assert(seq![pairs[0]] + pairs.drop_first() =~= pairs);
    }
}

/// Round trip: writing any list of parseable LRC lines, in any order, as
/// one text and parsing that text yields exactly those lines' timestamped
/// contributions. Together with the parser's own contract — output sorted
/// ascending by timestamp and equal as a multiset to these contributions —
/// a shuffled line set comes back as the original set, sorted.
pub proof fn lemma_lrc_round_trip(lines: Seq<Seq<char>>, pairs: Seq<(u64, Seq<char>)>)
    requires
        lines.len() == pairs.len(),
        forall|i: int| 0 <= i < lines.len() ==> lrc_line_spec(lines[i]) == Some(pairs[i]),
        forall|i: int| 0 <= i < lines.len() ==> !(#[trigger] lines[i]).contains('\n'),
    ensures
        lrc_lines_of(join_lines(lines)) == pairs,
    decreases lines.len(),
{
    if lines.len() == 0 {
        let e = Seq::<char>::empty();
        assert(join_lines(lines) == e);
        assert(split_lines_from(e, 0, 0) =~= seq![e.subrange(0, 0)]);
        assert(e.subrange(0, 0) =~= e);
        assert(trim_ws_spec(e) =~= e);
        assert(lrc_line_spec(e) is None);
        assert(seq![e].first() == e);
        assert(seq![e].drop_first() =~= Seq::<Seq<char>>::empty());
        assert(lrc_parse_unsorted(Seq::<Seq<char>>::empty())
            =~= Seq::<(u64, Seq<char>)>::empty());
        assert(lrc_parse_unsorted(seq![e])
            == lrc_parse_unsorted(seq![e].drop_first()));
        assert(lrc_lines_of(join_lines(lines)) =~= pairs);
    } else if lines.len() == 1 {
        lemma_no_newline_split(lines[0]);
        lemma_parse_all_some(lines, pairs);
        assert(split_lines(join_lines(lines)) == seq![lines[0]]);
        assert(seq![lines[0]] =~= lines);
    } else {
        lemma_split_head(lines[0], join_lines(lines.drop_first()));
        lemma_lrc_round_trip(lines.drop_first(), pairs.drop_first());
        assert(split_lines(join_lines(lines))
            == seq![lines[0]] + split_lines(join_lines(lines.drop_first())));
        lemma_parse_unsorted_concat(seq![lines[0]], split_lines(join_lines(lines.drop_first())));
        assert(seq![lines[0]].drop_first() =~= Seq::<Seq<char>>::empty());
        assert(lrc_parse_unsorted(Seq::<Seq<char>>::empty())
            =~= Seq::<(u64, Seq<char>)>::empty());
        assert(seq![lines[0]].first() == lines[0]);
        assert(lrc_line_spec(lines[0]) == Some(pairs[0]));
        assert(lrc_parse_unsorted(seq![lines[0]]) =~= seq![pairs[0]]);
        assert(seq![pairs[0]] + pairs.drop_first() =~= pairs);
    }
}

/// Two texts written from one line set, in any two orders, contribute the
/// same lines: their parses are equal as multisets, by the parser's own
/// contract.
pub proof fn lemma_shuffled_parse_agrees(
    lines1: Seq<Seq<char>>,
    pairs1: Seq<(u64, Seq<char>)>,
    lines2: Seq<Seq<char>>,
    pairs2: Seq<(u64, Seq<char>)>,
)
    requires
        lines1.len() == pairs1.len(),
        forall|i: int| 0 <= i < lines1.len() ==> lrc_line_spec(lines1[i]) == Some(pairs1[i]),
        forall|i: int| 0 <= i < lines1.len() ==> !(#[trigger] lines1[i]).contains('\n'),
        lines2.len() == pairs2.len(),
        forall|i: int| 0 <= i < lines2.len() ==> lrc_line_spec(lines2[i]) == Some(pairs2[i]),
        forall|i: int| 0 <= i < lines2.len() ==> !(#[trigger] lines2[i]).contains('\n'),
        pairs1.to_multiset() == pairs2.to_multiset(),
    ensures
        lrc_lines_of(join_lines(lines1)).to_multiset()
            == lrc_lines_of(join_lines(lines2)).to_multiset(),
{
    lemma_lrc_round_trip(lines1, pairs1);
    lemma_lrc_round_trip(lines2, pairs2);
}

/// Two timestamp-sorted line lists holding exactly the same lines, with
/// pairwise-distinct timestamps, are the same list. With the round-trip
/// lemma and the parser's own contract this closes the shuffle property:
/// two texts written from one line set, in any two orders, parse to line
/// lists with equal multisets, and distinct timestamps make them
/// identical.
pub proof fn lemma_sorted_unique_by_timestamp(a: Seq<(u64, Seq<char>)>, b: Seq<(u64, Seq<char>)>)
    requires
        sorted_ts(a),
        sorted_ts(b),
        a.to_multiset() == b.to_multiset(),
        forall|i: int, j: int| 0 <= i < j < a.len() ==> a[i].0 != a[j].0,
    ensures
        a == b,
    decreases a.len(),
{
    a.to_multiset_ensures();
    b.to_multiset_ensures();
    if a.len() == 0 {
        assert(a =~= b);
    } else {
        assert(b.len() == a.len());
        assert(a.to_multiset().count(a[0]) > 0) by {
            assert(a.contains(a[0]));
        }
        let k = choose|k: int| 0 <= k < b.len() && b[k] == a[0];
        assert(b.contains(a[0]));
        assert(b[0].0 <= b[k].0);
        assert(b.to_multiset().count(b[0]) > 0) by {
            assert(b.contains(b[0]));
        }
        let j = choose|j: int| 0 <= j < a.len() && a[j] == b[0];
        assert(a.contains(b[0]));
        assert(a[0].0 <= a[j].0);
        assert(a[j].0 == b[0].0 && b[k].0 == a[0].0);
        assert(a[0].0 == b[0].0);
        assert(j == 0) by {
            if j != 0 {
                assert(a[0].0 != a[j].0);
            }
        }
        assert(a[0] == b[0]);
        let a2 = a.drop_first();
        let b2 = b.drop_first();
        assert(a2 =~= a.remove(0));
        assert(b2 =~= b.remove(0));
        assert(a.remove(0).to_multiset() == a.to_multiset().remove(a[0]));
        assert(b.remove(0).to_multiset() == b.to_multiset().remove(b[0]));
        assert(a2.to_multiset() == b2.to_multiset());
        assert(sorted_ts(a2)) by {
            assert(forall|i: int, j: int| 0 <= i < j < a2.len()
                ==> a2[i] == a[i + 1] && a2[j] == a[j + 1]);
        }
        assert(sorted_ts(b2)) by {
            assert(forall|i: int, j: int| 0 <= i < j < b2.len()
                ==> b2[i] == b[i + 1] && b2[j] == b[j + 1]);
        }
        assert(forall|i: int, j: int| 0 <= i < j < a2.len() ==> a2[i].0 != a2[j].0) by {
            assert(forall|i: int, j: int| 0 <= i < j < a2.len()
                ==> a2[i] == a[i + 1] && a2[j] == a[j + 1]);
        }
        lemma_sorted_unique_by_timestamp(a2, b2);
        assert(a =~= b) by {
            assert(forall|i: int| 1 <= i < a.len() ==> a[i] == a2[i - 1] && b[i] == b2[i - 1]);
        }
    }
}

/// Parsing distributes over concatenation of line lists.
proof fn lemma_parse_unsorted_concat(a: Seq<Seq<char>>, b: Seq<Seq<char>>)
    ensures
        lrc_parse_unsorted(a + b) == lrc_parse_unsorted(a) + lrc_parse_unsorted(b),
    decreases a.len(),
{
    if a.len() == 0 {
        assert(a + b =~= b);
        assert(lrc_parse_unsorted(a) =~= Seq::<(u64, Seq<char>)>::empty());
        assert(lrc_parse_unsorted(a) + lrc_parse_unsorted(b) =~= lrc_parse_unsorted(b));
    } else {
        lemma_parse_unsorted_concat(a.drop_first(), b);
        assert((a + b).first() == a.first());
        assert((a + b).drop_first() =~= a.drop_first() + b);
        match lrc_line_spec(a.first()) {
            None => {
            },
            Some(p) => {
                assert(seq![p] + (lrc_parse_unsorted(a.drop_first()) + lrc_parse_unsorted(b))
                    =~= (seq![p] + lrc_parse_unsorted(a.drop_first())) + lrc_parse_unsorted(b));
            },
        }
    }
}

} // verus!
