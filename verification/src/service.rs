//! The retrieval service: cache-first, multi-provider fallback. The flow
//! here decides everything — which provider to try next, what each
//! outcome means, and what to fail with when every provider is exhausted —
//! while the driver performs the fetches under its timeout.

use vstd::prelude::*;

use crate::cache::{CacheConfig, CacheStats, LyricsCache};
use crate::data::{LyricsData, LyricsSource, SongInfo};
use crate::errors::LyricsError;
use crate::http_client::HttpClientConfig;
use crate::netease::NetEaseApi;
use crate::qqmusic::QQMusicApi;
use crate::strutil::trim_of;

verus! {

/// How the retrieval service is assembled: HTTP and cache configuration,
/// which providers are enabled, and the per-provider timeout.
#[derive(Debug, Clone)]
pub struct LyricsServiceConfig {
    pub http_config: HttpClientConfig,
    pub cache_config: CacheConfig,
    pub enable_netease: bool,
    pub enable_qqmusic: bool,
    pub search_timeout_secs: u64,
}

impl Default for LyricsServiceConfig {
    /// Both providers enabled, thirty seconds per provider.
    fn default() -> (r: Self)
        ensures
            r.enable_netease,
            r.enable_qqmusic,
            r.search_timeout_secs == 30,
            r.http_config.max_retries == 3,
            r.cache_config.max_files == 5000,
    {
        LyricsServiceConfig {
            http_config: HttpClientConfig::default(),
            cache_config: CacheConfig::default(),
            enable_netease: true,
            enable_qqmusic: true,
            search_timeout_secs: 30,
        }
    }
}

/// The providers the service consults, in its fixed priority order.
pub open spec fn provider_order(config: &LyricsServiceConfig) -> Seq<LyricsSource> {
    if config.enable_netease && config.enable_qqmusic {
        seq![LyricsSource::NetEase, LyricsSource::QQMusic]
    } else if config.enable_netease {
        seq![LyricsSource::NetEase]
    } else if config.enable_qqmusic {
        seq![LyricsSource::QQMusic]
    } else {
        Seq::empty()
    }
}

/// The retrieval service: configuration, one client per enabled provider,
/// and the cache's decision core.
pub struct LyricsService {
    pub config: LyricsServiceConfig,
    pub netease_api: Option<NetEaseApi>,
    pub qqmusic_api: Option<QQMusicApi>,
    pub cache: LyricsCache,
}

impl LyricsService {
    /// Assembles the service: a client for each enabled provider, and a
    /// cache that has never swept.
    pub fn new(config: LyricsServiceConfig) -> (r: Self)
        ensures
            r.config == config,
            r.netease_api is Some <==> config.enable_netease,
            r.qqmusic_api is Some <==> config.enable_qqmusic,
            r.cache.config == config.cache_config,
            r.cache.last_cleanup_ms is None,
    {
        let netease_api = if config.enable_netease {
            Some(NetEaseApi::new())
        } else {
            None
        };
        let qqmusic_api = if config.enable_qqmusic {
            Some(QQMusicApi::new())
        } else {
            None
        };
        let cache_config = CacheConfig {
            ttl_ms: config.cache_config.ttl_ms,
            cache_dir: config.cache_config.cache_dir.clone(),
            max_files: config.cache_config.max_files,
            cleanup_interval_hours: config.cache_config.cleanup_interval_hours,
        };
        proof {
            assert(cache_config == config.cache_config);
        }
        let cache = LyricsCache::new(cache_config);
        LyricsService { config, netease_api, qqmusic_api, cache }
    }

    /// The sources this service can consult, in priority order.
    pub fn get_supported_sources(&self) -> (r: Vec<LyricsSource>)
        ensures
            r@ == provider_order(&self.config),
    {
        let mut sources: Vec<LyricsSource> = Vec::new();
        if self.config.enable_netease {
            sources.push(LyricsSource::NetEase);
        }
        if self.config.enable_qqmusic {
            sources.push(LyricsSource::QQMusic);
        }
        proof {
            assert(sources@ =~= provider_order(&self.config));
        }
        sources
    }

    /// Opens a retrieval for a song: a blank identity is rejected at once;
    /// otherwise the flow starts with every enabled provider still to try
    /// and no error recorded.
    pub fn start_flow(&self, song_info: &SongInfo) -> (r: Result<RetrievalFlow, LyricsError>)
        ensures
            r is Ok <==> (trim_of(song_info.title@).len() > 0
                && trim_of(song_info.artist@).len() > 0),
            r matches Ok(f) ==> f.remaining@ == provider_order(&self.config)
                && f.last_error is None,
            r matches Err(e) ==> e is InvalidSongInfo,
    {
        if !song_info.is_valid() {
            return Err(LyricsError::InvalidSongInfo);
        }
        Ok(RetrievalFlow { remaining: self.get_supported_sources(), last_error: None })
    }

    /// The cache's statistics, given the driver's file count.
    pub fn get_cache_stats(&self, file_count: usize) -> (r: CacheStats)
        ensures
            r.file_count == file_count,
            r.max_files == self.cache.config.max_files,
    {
        self.cache.get_stats(file_count)
    }
}

/// How one provider attempt ended, as the driver classified it.
#[derive(Debug, Clone)]
pub enum ProviderOutcome {
    /// The provider returned a document with content.
    Content(LyricsData),
    /// The provider answered but the document was blank: a soft miss.
    Empty,
    /// The attempt failed, or its per-call timeout lapsed.
    Failed(LyricsError),
}

/// One retrieval in progress: the providers still to try, in order, and
/// the last hard failure seen.
pub struct RetrievalFlow {
    pub remaining: Vec<LyricsSource>,
    pub last_error: Option<LyricsError>,
}

impl RetrievalFlow {
    /// The next provider to try, consumed from the front of the order;
    /// none once every provider was tried.
    pub fn next_provider(&mut self) -> (r: Option<LyricsSource>)
        ensures
            old(self).remaining@.len() == 0 ==> (r is None
                && final(self).remaining@ == old(self).remaining@
                && final(self).last_error == old(self).last_error),
            old(self).remaining@.len() > 0 ==> (r == Some(old(self).remaining@[0])
                && final(self).remaining@ == old(self).remaining@.drop_first()
                && final(self).last_error == old(self).last_error),
    {
        if self.remaining.len() == 0 {
            return None;
        }
        let src = self.remaining.remove(0);
        proof {
            assert(old(self).remaining@.remove(0) =~= old(self).remaining@.drop_first());
        }
        Some(src)
    }

    /// Judges one provider's outcome: content is accepted and ends the
    /// flow; a blank answer moves on without recording anything; a failure
    /// is recorded as the newest last error and the flow moves on.
    pub fn on_outcome(&mut self, outcome: ProviderOutcome) -> (r: Option<LyricsData>)
        ensures
            (outcome matches ProviderOutcome::Content(d) ==> (r == Some(d)
                && final(self).remaining@ == old(self).remaining@
                && final(self).last_error == old(self).last_error)),
            (outcome is Empty ==> (r is None
                && final(self).remaining@ == old(self).remaining@
                && final(self).last_error == old(self).last_error)),
            (outcome matches ProviderOutcome::Failed(e) ==> (r is None
                && final(self).remaining@ == old(self).remaining@
                && final(self).last_error == Some(e))),
    {
        match outcome {
            ProviderOutcome::Content(d) => Some(d),
            ProviderOutcome::Empty => None,
            ProviderOutcome::Failed(e) => {
                self.last_error = Some(e);
                None
            },
        }
    }

    /// The failure a retrieval ends with once every provider is exhausted:
    /// the last recorded error, or plain not-found when none was.
    pub fn finish(self) -> (r: LyricsError)
        ensures
            match self.last_error {
                Some(e) => r == e,
                None => r is LyricsNotFound,
            },
    {
        match self.last_error {
            Some(e) => e,
            None => LyricsError::LyricsNotFound,
        }
    }
}

/// Builds a retrieval service piece by piece.
pub struct LyricsServiceBuilder {
    pub config: LyricsServiceConfig,
}

impl LyricsServiceBuilder {
    /// Starts from the default configuration.
    pub fn new() -> (r: Self)
        ensures
            r.config.enable_netease,
            r.config.enable_qqmusic,
            r.config.search_timeout_secs == 30,
    {
        LyricsServiceBuilder { config: LyricsServiceConfig::default() }
    }

    pub fn with_http_config(self, config: HttpClientConfig) -> (r: Self)
        ensures
            r.config.http_config == config,
            r.config.cache_config == self.config.cache_config,
            r.config.enable_netease == self.config.enable_netease,
            r.config.enable_qqmusic == self.config.enable_qqmusic,
            r.config.search_timeout_secs == self.config.search_timeout_secs,
    {
        let mut c = self;
        c.config.http_config = config;
        c
    }

    pub fn with_cache_config(self, config: CacheConfig) -> (r: Self)
        ensures
            r.config.cache_config == config,
            r.config.http_config == self.config.http_config,
            r.config.enable_netease == self.config.enable_netease,
            r.config.enable_qqmusic == self.config.enable_qqmusic,
            r.config.search_timeout_secs == self.config.search_timeout_secs,
    {
        let mut c = self;
        c.config.cache_config = config;
        c
    }

    pub fn enable_netease(self, enable: bool) -> (r: Self)
        ensures
            r.config.enable_netease == enable,
            r.config.enable_qqmusic == self.config.enable_qqmusic,
            r.config.http_config == self.config.http_config,
            r.config.cache_config == self.config.cache_config,
            r.config.search_timeout_secs == self.config.search_timeout_secs,
    {
        let mut c = self;
        c.config.enable_netease = enable;
        c
    }

    pub fn enable_qqmusic(self, enable: bool) -> (r: Self)
        ensures
            r.config.enable_qqmusic == enable,
            r.config.enable_netease == self.config.enable_netease,
            r.config.http_config == self.config.http_config,
            r.config.cache_config == self.config.cache_config,
            r.config.search_timeout_secs == self.config.search_timeout_secs,
    {
        let mut c = self;
        c.config.enable_qqmusic = enable;
        c
    }

    pub fn with_search_timeout(self, timeout_secs: u64) -> (r: Self)
        ensures
            r.config.search_timeout_secs == timeout_secs,
            r.config.enable_netease == self.config.enable_netease,
            r.config.enable_qqmusic == self.config.enable_qqmusic,
            r.config.http_config == self.config.http_config,
            r.config.cache_config == self.config.cache_config,
    {
        let mut c = self;
        c.config.search_timeout_secs = timeout_secs;
        c
    }

    /// The finished service.
    pub fn build(self) -> (r: LyricsService)
        ensures
            r.config == self.config,
            r.netease_api is Some <==> self.config.enable_netease,
            r.qqmusic_api is Some <==> self.config.enable_qqmusic,
    {
        LyricsService::new(self.config)
    }
}

impl Default for LyricsServiceBuilder {
    /// The builder over the default configuration.
    fn default() -> (r: Self)
        ensures
            r.config.enable_netease,
            r.config.enable_qqmusic,
    {
        LyricsServiceBuilder::new()
    }
}

} // verus!
