//! The disk cache's decision core: entries with a time-to-live, the
//! hit/expire/miss decision, the periodic-sweep decision, and count-bounded
//! eviction planning. The file reads, writes and deletions themselves are
//! the driver's; every decision about them is made — and verified — here.

use vstd::prelude::*;
use vstd::multiset::Multiset;
use vstd::string::StringExecFns;

use crate::data::{LyricsData, SongInfo};
use crate::strutil::string_from_chars;

verus! {

broadcast use
    vstd::seq_lib::group_to_multiset_ensures,
    vstd::multiset::group_multiset_axioms;

/// The milliseconds from `last` to `now_ms`, counted up to `i64::MAX`.
pub open spec fn clamped_elapsed(last: i64, now_ms: i64) -> int {
    if now_ms - last > i64::MAX {
        i64::MAX as int
    } else {
        now_ms - last
    }
}

/// An `i64` sum, saturating at the extremes.
pub open spec fn sat_add_i64(a: i64, b: i64) -> i64 {
    if a + b > i64::MAX {
        i64::MAX
    } else if a + b < i64::MIN {
        i64::MIN
    } else {
        (a + b) as i64
    }
}

/// One persisted cache entry: the identity, its document, and when the
/// entry lapses.
#[derive(Debug, Clone)]
pub struct CacheEntry {
    pub song_info: SongInfo,
    pub lyrics_data: LyricsData,
    pub expires_at_ms: i64,
}

impl CacheEntry {
    /// An entry written at `now_ms` that lapses `ttl_ms` later.
    pub fn new_at(song_info: SongInfo, lyrics_data: LyricsData, ttl_ms: i64, now_ms: i64) -> (r: Self)
        ensures
            r.song_info == song_info,
            r.lyrics_data == lyrics_data,
            r.expires_at_ms == sat_add_i64(now_ms, ttl_ms),
    {
        let expires_at_ms = match now_ms.checked_add(ttl_ms) {
            Some(v) => v,
            None => {
                if ttl_ms > 0 {
                    i64::MAX
                } else {
                    i64::MIN
                }
            },
        };
        CacheEntry { song_info, lyrics_data, expires_at_ms }
    }

    /// An entry written now, lapsing `ttl_ms` later.
    pub fn new(song_info: SongInfo, lyrics_data: LyricsData, ttl_ms: i64) -> (r: Self)
        ensures
            r.song_info == song_info,
            r.lyrics_data == lyrics_data,
    {
        let now = crate::clock::now_utc_ms();
        Self::new_at(song_info, lyrics_data, ttl_ms, now)
    }

    /// An entry has lapsed once the clock stands past its expiry.
    pub fn is_expired(&self, now_ms: i64) -> (r: bool)
        ensures
            r == (now_ms > self.expires_at_ms),
    {
        now_ms > self.expires_at_ms
    }
}

/// How the cache behaves: entry lifetime, where it lives on disk, how many
/// files it may hold, and how often it sweeps.
#[derive(Debug, Clone)]
pub struct CacheConfig {
    /// How long an entry lives, in milliseconds.
    pub ttl_ms: i64,
    /// The directory holding one file per identity hash.
    pub cache_dir: String,
    /// The most files the cache may hold after a write.
    pub max_files: usize,
    /// How many hours pass between full sweeps.
    pub cleanup_interval_hours: u64,
}

/// Relies on `dirs::cache_dir`: the platform's cache directory, when the
/// environment defines one, rendered lossily as text.
#[verifier::external_body]
fn os_cache_dir() -> Option<String> {
    match dirs::cache_dir() {
        Some(p) => Some(p.to_string_lossy().into_owned()),
        None => None,
    }
}

impl Default for CacheConfig {
    /// A day of lifetime, five thousand files, a sweep every six hours,
    /// under the platform cache directory when there is one.
    fn default() -> (r: Self)
        ensures
            r.ttl_ms == 86400000,
            r.max_files == 5000,
            r.cleanup_interval_hours == 6,
            r.cache_dir@.len() > 0,
    {
        let cache_dir = match os_cache_dir() {
            Some(base) => {
                let d = base.concat("/taskbar_lrc/lyrics");
                proof {
                    reveal_strlit("/taskbar_lrc/lyrics");
                }
                d
            },
            None => {
                let d = String::from_str("cache/lyrics");
                proof {
                    reveal_strlit("cache/lyrics");
                }
                d
            },
        };
        CacheConfig { ttl_ms: 86400000, cache_dir, max_files: 5000, cleanup_interval_hours: 6 }
    }
}

/// What a lookup decides: hand back the document, delete the lapsed file
/// and report a miss, or report a plain miss.
#[derive(Debug, Clone)]
pub enum CacheGetDecision {
    /// The entry is alive: return its document.
    Hit(LyricsData),
    /// The entry lapsed: delete its file and return nothing.
    ExpiredDelete,
    /// Nothing usable is stored: return nothing.
    Miss,
}

/// The decision a lookup makes over what the disk held.
pub open spec fn get_decision_spec(entry: &Option<CacheEntry>, now_ms: i64) -> CacheGetDecision {
    match entry {
        Some(e) => if now_ms > e.expires_at_ms {
            CacheGetDecision::ExpiredDelete
        } else {
            CacheGetDecision::Hit(e.lyrics_data)
        },
        None => CacheGetDecision::Miss,
    }
}

/// How many of the oldest files a write-back evicts: enough to come down
/// to three quarters of the limit, and only when the limit is exceeded.
pub open spec fn eviction_count_spec(file_count: int, max_files: int) -> int {
    if file_count > max_files {
        let target = max_files * 3 / 4;
        if file_count > target {
            file_count - target
        } else {
            0
        }
    } else {
        0
    }
}

/// The lyrics cache: its configuration and when it last swept. What the
/// driver read from or wrote to disk is handed in; what to do with it is
/// decided here.
#[derive(Debug)]
pub struct LyricsCache {
    pub config: CacheConfig,
    pub last_cleanup_ms: Option<i64>,
}

impl LyricsCache {
    /// A cache over the given configuration that has never swept.
    pub fn new(config: CacheConfig) -> (r: Self)
        ensures
            r.config == config,
            r.last_cleanup_ms is None,
    {
        LyricsCache { config, last_cleanup_ms: None }
    }

    /// Decides a lookup: a live entry is a hit with its document, a lapsed
    /// one is deleted and a miss, a corrupt or absent one a plain miss.
    pub fn get_outcome(&self, entry: Option<CacheEntry>, now_ms: i64) -> (r: CacheGetDecision)
        ensures
            r == get_decision_spec(&entry, now_ms),
    {
        match entry {
            Some(e) => {
                if e.is_expired(now_ms) {
                    CacheGetDecision::ExpiredDelete
                } else {
                    CacheGetDecision::Hit(e.lyrics_data)
                }
            },
            None => CacheGetDecision::Miss,
        }
    }

    /// An entry the driver is ready to write for this identity.
    pub fn make_entry(&self, song_info: SongInfo, lyrics_data: LyricsData, now_ms: i64) -> (r: CacheEntry)
        ensures
            r.song_info == song_info,
            r.lyrics_data == lyrics_data,
            r.expires_at_ms == sat_add_i64(now_ms, self.config.ttl_ms),
    {
        CacheEntry::new_at(song_info, lyrics_data, self.config.ttl_ms, now_ms)
    }

    /// Whether a sweep decides to delete a file: it could not be decoded,
    /// or its entry lapsed.
    pub fn sweep_deletes(&self, entry: Option<&CacheEntry>, now_ms: i64) -> (r: bool)
        ensures
            r == match entry {
                Some(e) => now_ms > e.expires_at_ms,
                None => true,
            },
    {
        match entry {
            Some(e) => e.is_expired(now_ms),
            None => true,
        }
    }

    /// Whether a lookup triggers a proactive sweep: always before the
    /// first sweep, and again once the configured interval has passed.
    /// Elapsed time counts up to `i64::MAX` milliseconds.
    pub fn should_cleanup(&self, now_ms: i64) -> (r: bool)
        ensures
            r == match self.last_cleanup_ms {
                None => true,
                Some(last) => now_ms >= last && clamped_elapsed(last, now_ms)
                    >= self.config.cleanup_interval_hours * 3600000,
            },
    {
        match self.last_cleanup_ms {
            None => true,
            Some(last) => {
                if now_ms < last {
                    return false;
                }
                let elapsed: u64 = match now_ms.checked_sub(last) {
                    Some(d) => d as u64,
                    None => i64::MAX as u64,
                };
                match self.config.cleanup_interval_hours.checked_mul(3600000) {
                    Some(threshold) => elapsed >= threshold,
                    None => false,
                }
            },
        }
    }

    /// Records that a sweep just finished.
    pub fn note_cleanup(&mut self, now_ms: i64)
        ensures
            final(self).config == old(self).config,
            final(self).last_cleanup_ms == Some(now_ms),
    {
        self.last_cleanup_ms = Some(now_ms);
    }

    /// How many of the oldest files a write-back must evict to respect the
    /// limit with hysteresis.
    pub fn eviction_count(&self, file_count: usize) -> (r: usize)
        requires
            self.config.max_files <= usize::MAX / 4,
        ensures
            r == eviction_count_spec(file_count as int, self.config.max_files as int),
    {
        if file_count > self.config.max_files {
            let target = self.config.max_files * 3 / 4;
            if file_count > target {
                file_count - target
            } else {
                0
            }
        } else {
            0
        }
    }

    /// The cache's statistics, given how many files the driver counted.
    pub fn get_stats(&self, file_count: usize) -> (r: CacheStats)
        ensures
            r.file_count == file_count,
            r.max_files == self.config.max_files,
            r.cache_dir@ == self.config.cache_dir@,
            r.ttl_hours == if self.config.ttl_ms >= 0 {
                (self.config.ttl_ms as u64 / 3600000) as i64
            } else {
                0
            },
    {
        let ttl_hours: i64 = if self.config.ttl_ms >= 0 {
            ((self.config.ttl_ms as u64) / 3600000) as i64
        } else {
            0
        };
        CacheStats {
            file_count,
            max_files: self.config.max_files,
            cache_dir: self.config.cache_dir.clone(),
            ttl_hours,
        }
    }
}

/// A snapshot of the cache: files held, the limit, the directory, and the
/// lifetime in hours.
#[derive(Debug)]
pub struct CacheStats {
    pub file_count: usize,
    pub max_files: usize,
    pub cache_dir: String,
    pub ttl_hours: i64,
}

/// The view of a file listing: modification time and name characters.
pub open spec fn files_view(v: Seq<(String, u64)>) -> Seq<(u64, Seq<char>)> {
    v.map_values(|p: (String, u64)| (p.1, p.0@))
}

/// Ascending by modification time.
pub open spec fn sorted_by_mtime(s: Seq<(u64, Seq<char>)>) -> bool {
    forall|i: int, j: int| 0 <= i < j < s.len() ==> s[i].0 <= s[j].0
}

/// An eviction plan `names` for a listing `files`: the names of the first
/// `k` files of some oldest-first ordering of the listing.
pub open spec fn eviction_witness(
    sorted: Seq<(u64, Seq<char>)>,
    files: Seq<(String, u64)>,
    k: int,
    names: Seq<String>,
) -> bool {
    &&& sorted_by_mtime(sorted)
    &&& sorted.to_multiset() == files_view(files).to_multiset()
    &&& names.len() == k
    &&& forall|i: int| 0 <= i < k ==> names[i]@ == sorted[i].1
}

/// Sorts a file listing oldest-first by modification time.
fn sort_files_by_mtime(v: Vec<(String, u64)>) -> (r: Vec<(String, u64)>)
    ensures
        files_view(r@).to_multiset() == files_view(v@).to_multiset(),
        sorted_by_mtime(files_view(r@)),
{
    let ghost orig = files_view(v@);
    let mut src = v;
    let mut out: Vec<(String, u64)> = Vec::new();
    proof {
        assert(files_view(out@).to_multiset().add(files_view(src@).to_multiset())
            =~= orig.to_multiset());
    }
    while src.len() > 0
        invariant
            files_view(out@).to_multiset().add(files_view(src@).to_multiset())
                == orig.to_multiset(),
            sorted_by_mtime(files_view(out@)),
            forall|i: int, j: int|
                0 <= i < out@.len() && 0 <= j < src@.len()
                    ==> #[trigger] out@[i].1 <= #[trigger] src@[j].1,
        decreases src.len(),
    {
        let mut mi: usize = 0;
        let mut k: usize = 1;
        while k < src.len()
            invariant
                src@.len() > 0,
                mi < k,
                k <= src@.len(),
                forall|j: int| 0 <= j < k ==> src@[mi as int].1 <= #[trigger] src@[j].1,
            decreases src.len() - k,
        {
            if src[k].1 < src[mi].1 {
                mi = k;
            }
            k += 1;
        }
        let ghost src0 = src@;
        let ghost out0 = out@;
        let x = src.remove(mi);
        let ghost xv = (x.1, x.0@);
        out.push(x);
        proof {
            assert(files_view(out@) =~= files_view(out0).push(xv));
            assert(files_view(src@) =~= files_view(src0).remove(mi as int));
            assert(files_view(src0)[mi as int] == xv);
            assert(files_view(src0).contains(xv)) by {
                assert((mi as int) < files_view(src0).len()
                    && files_view(src0)[mi as int] == xv);
            }
            assert(files_view(src0).to_multiset().count(xv) > 0);
            assert(files_view(out0).push(xv).to_multiset()
                =~= files_view(out0).to_multiset().insert(xv));
            assert(files_view(out@).to_multiset()
                =~= files_view(out0).to_multiset().insert(xv));
            assert(files_view(src0).remove(mi as int).to_multiset()
                =~= files_view(src0).to_multiset().remove(xv));
            assert(files_view(src@).to_multiset()
                =~= files_view(src0).to_multiset().remove(xv));
            assert(files_view(out@).to_multiset().add(files_view(src@).to_multiset())
                =~= files_view(out0).to_multiset().add(files_view(src0).to_multiset()));
            assert forall|i: int, j: int|
                0 <= i < out@.len() && 0 <= j < src@.len()
                    implies #[trigger] out@[i].1 <= #[trigger] src@[j].1 by {
                assert(src@[j] == if j < mi as int { src0[j] } else { src0[j + 1] });
                if i < out0.len() {
                } else {
                    assert(out@[i] == x);
                    assert(x.1 == src0[mi as int].1);
                }
            }
            assert(sorted_by_mtime(files_view(out@))) by {
                assert(forall|i: int| 0 <= i < out0.len()
                    ==> files_view(out@)[i] == files_view(out0)[i]);
            }
        }
    }
    proof {
        assert(files_view(src@).to_multiset() =~= Multiset::<(u64, Seq<char>)>::empty());
        assert(files_view(out@).to_multiset().add(Multiset::<(u64, Seq<char>)>::empty())
            =~= files_view(out@).to_multiset());
    }
    out
}

impl LyricsCache {
    /// Plans a write-back eviction: given the listing the driver read —
    /// each file's name and modification time — the names of exactly the
    /// files to delete, the oldest first, enough to come down to three
    /// quarters of the limit; none while the limit is respected.
    pub fn plan_eviction(&self, files: Vec<(String, u64)>) -> (r: Vec<String>)
        requires
            self.config.max_files <= usize::MAX / 4,
        ensures
            exists|sorted: Seq<(u64, Seq<char>)>| #[trigger] eviction_witness(
                sorted,
                files@,
                eviction_count_spec(files@.len() as int, self.config.max_files as int),
                r@,
            ),
    {
        let n = files.len();
        let ghost files0 = files@;
        let k = self.eviction_count(n);
        proof {
            assert(k <= n);
        }
        let sorted = sort_files_by_mtime(files);
        proof {
            files_view(sorted@).to_multiset_ensures();
            files_view(files0).to_multiset_ensures();
            assert(files_view(sorted@).len() == files_view(files0).len());
        }
        let mut names: Vec<String> = Vec::new();
        let mut i: usize = 0;
        while i < k
            invariant
                k <= sorted@.len(),
                i <= k,
                names@.len() == i,
                forall|j: int| 0 <= j < i
                    ==> (#[trigger] names@[j])@ == files_view(sorted@)[j].1,
            decreases k - i,
        {
            let name = sorted[i].0.clone();
            names.push(name);
            i += 1;
        }
        proof {
            assert(eviction_witness(files_view(sorted@), files0, k as int, names@));
        }
        names
    }
}

/// A live entry looked up before its time-to-live has passed hands back
/// exactly the stored document.
pub proof fn lemma_cache_hit_before_expiry(entry: CacheEntry, now_ms: i64)
    requires
        now_ms <= entry.expires_at_ms,
    ensures
        get_decision_spec(&Some(entry), now_ms) == CacheGetDecision::Hit(entry.lyrics_data),
{
}

/// An entry looked up after its expiry hands back nothing and directs the
/// lookup to delete the file.
pub proof fn lemma_cache_expired_deletes(entry: CacheEntry, now_ms: i64)
    requires
        now_ms > entry.expires_at_ms,
    ensures
        get_decision_spec(&Some(entry), now_ms) == CacheGetDecision::ExpiredDelete,
{
}

/// However many files a write-back finds, deleting as many as the plan
/// says leaves at most the configured limit.
pub proof fn lemma_eviction_respects_limit(file_count: int, max_files: int)
    requires
        file_count >= 0,
        max_files >= 0,
    ensures
        file_count - eviction_count_spec(file_count, max_files) <= max_files,
{
}

} // verus!
