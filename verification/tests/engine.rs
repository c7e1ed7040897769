//! The engine's stateful parts: identity and cache keys, the position
//! tracker, cache decisions and eviction, retry planning, the provider
//! fallback flow, and the orchestrator.

use taskbar_lrc::cache::{CacheConfig, CacheEntry, CacheGetDecision, LyricsCache};
use taskbar_lrc::data::{LyricsData, LyricsSource, SongInfo};
use taskbar_lrc::errors::LyricsError;
use taskbar_lrc::http_client::{
    calculate_retry_delay, classify_http_status, classify_transport, next_retry_step,
    validate_request_url, AttemptOutcome, HttpClientConfig, RetryStep,
};
use taskbar_lrc::media::{MediaInfo, PlaybackStatus};
use taskbar_lrc::playback_timer::{PlaybackEvent, PlaybackTimer};
use taskbar_lrc::service::{LyricsService, LyricsServiceBuilder, ProviderOutcome};

#[test]
fn test_song_info_validation() {
    let valid_song = SongInfo::new("Valid Title".to_string(), "Valid Artist".to_string());
    assert!(valid_song.is_valid());
    let invalid_song = SongInfo::new(String::new(), String::new());
    assert!(!invalid_song.is_valid());
}

#[test]
fn blank_identity_is_invalid() {
    let song = SongInfo::new("   ".to_string(), "x".to_string());
    assert!(!song.is_valid());
}

#[test]
fn cache_key_is_case_insensitive_and_trimmed() {
    let a = SongInfo::new("Test Song".to_string(), "Artist".to_string());
    let b = SongInfo::new("  test song ".to_string(), "ARTIST".to_string());
    assert_eq!(a.cache_key(), b.cache_key());
    assert_eq!(
        a.cache_key(),
        "4ed9b860706a3a1538aec53e6d73435fd6ac0102b978a28eea8633927b53b827"
    );
    let c = SongInfo::new("hello".to_string(), "world".to_string());
    assert_eq!(
        c.cache_key(),
        "55a3db6314a88ae7f97bdbc9133e215f32ee5c93a84d600a5a003ccd9d82c305"
    );
    assert_ne!(a.cache_key(), c.cache_key());
    assert!(a != b);
}

#[test]
fn paused_position_is_the_base_exactly() {
    let mut timer = PlaybackTimer::new(1000);
    let media = MediaInfo {
        app_name: String::new(),
        title: "T".to_string(),
        artist: "A".to_string(),
        duration_ms: Some(200000),
        position_ms: Some(30000),
        playback_status: PlaybackStatus::Paused,
    };
    timer.sync_with_media(&media, 1000);
    assert_eq!(timer.get_current_position(1000), 30000);
    assert_eq!(timer.get_current_position(999999999), 30000);
}

#[test]
fn playing_position_advances_and_clips() {
    let mut timer = PlaybackTimer::new(0);
    let media = MediaInfo {
        app_name: String::new(),
        title: "T".to_string(),
        artist: "A".to_string(),
        duration_ms: Some(10000),
        position_ms: Some(8000),
        playback_status: PlaybackStatus::Playing,
    };
    timer.sync_with_media(&media, 0);
    assert_eq!(timer.get_current_position(0), 8000);
    assert_eq!(timer.get_current_position(1000), 9000);
    let p1 = timer.get_current_position(1500);
    let p2 = timer.get_current_position(1600);
    assert!(p1 <= p2);
    assert_eq!(timer.get_current_position(60000), 10000);
}

#[test]
fn sync_tolerates_small_drift_and_corrects_large() {
    let playing = |pos: u64| MediaInfo {
        app_name: String::new(),
        title: "T".to_string(),
        artist: "A".to_string(),
        duration_ms: Some(600000),
        position_ms: Some(pos),
        playback_status: PlaybackStatus::Playing,
    };
    let mut timer = PlaybackTimer::new(0);
    timer.sync_with_media(&playing(50000), 0);
    assert_eq!(timer.base_position_ms, 50000);

    // Extrapolated position at t=0 is 50000; 1000 ms of drift is tolerated.
    let events = timer.sync_with_media(&playing(51000), 0);
    assert_eq!(timer.base_position_ms, 50000);
    assert!(events.is_empty());

    // 1001 ms of drift forces the base to the reported value.
    let events = timer.sync_with_media(&playing(51001), 0);
    assert_eq!(timer.base_position_ms, 51001);
    assert_eq!(events.len(), 1);
    assert!(matches!(events[0], PlaybackEvent::PositionUpdate { position_ms: 51001 }));
}

#[test]
fn play_state_change_never_corrects_drift() {
    let snapshot = |pos: u64, status: PlaybackStatus| MediaInfo {
        app_name: String::new(),
        title: "T".to_string(),
        artist: "A".to_string(),
        duration_ms: Some(600000),
        position_ms: Some(pos),
        playback_status: status,
    };
    let mut timer = PlaybackTimer::new(0);
    timer.sync_with_media(&snapshot(50000, PlaybackStatus::Playing), 0);
    assert_eq!(timer.base_position_ms, 50000);

    // A pause with a far-off reported position only takes over the flag:
    // the base stays and only the state change is announced.
    let events = timer.sync_with_media(&snapshot(99999, PlaybackStatus::Paused), 0);
    assert_eq!(timer.base_position_ms, 50000);
    assert!(!timer.is_playing());
    assert_eq!(events.len(), 1);
    assert!(matches!(
        events[0],
        PlaybackEvent::PlayStateChanged { is_playing: false, position_ms: 50000 }
    ));
}

#[test]
fn internal_update_debounces() {
    let mut timer = PlaybackTimer::new(0);
    let media = MediaInfo {
        app_name: String::new(),
        title: "T".to_string(),
        artist: "A".to_string(),
        duration_ms: Some(600000),
        position_ms: Some(0),
        playback_status: PlaybackStatus::Playing,
    };
    timer.sync_with_media(&media, 0);
    // Under 50 ms: nothing moves.
    assert!(timer.update_internal_position(49).is_none());
    assert_eq!(timer.base_position_ms, 0);
    // 50..100 ms: the base advances silently.
    assert!(timer.update_internal_position(60).is_none());
    assert_eq!(timer.base_position_ms, 60);
    // 100 ms or more: the advance is announced.
    let ev = timer.update_internal_position(200);
    assert_eq!(timer.base_position_ms, 200);
    assert!(matches!(ev, Some(PlaybackEvent::PositionUpdate { position_ms: 200 })));
}

#[test]
fn test_file_cache_basic_operations() {
    let cache = LyricsCache::new(CacheConfig::default());
    let song_info = SongInfo::new("测试歌曲".to_string(), "测试歌手".to_string());
    let lyrics_data = LyricsData::default();
    let entry = cache.make_entry(song_info, lyrics_data, 1000);
    let retrieved = cache.get_outcome(Some(entry), 2000);
    assert!(matches!(retrieved, CacheGetDecision::Hit(_)));
}

#[test]
fn test_cache_entry_expiration() {
    let song_info = SongInfo::new("测试".to_string(), "歌手".to_string());
    let lyrics_data = LyricsData::default();
    let now = 1000;
    let entry = CacheEntry::new_at(song_info, lyrics_data, -1, now);
    assert!(entry.is_expired(now));
}

#[test]
fn cache_hit_before_ttl_and_expiry_after() {
    let config = CacheConfig {
        ttl_ms: 1000,
        cache_dir: "cache/test".to_string(),
        max_files: 10,
        cleanup_interval_hours: 6,
    };
    let cache = LyricsCache::new(config);
    let song = SongInfo::new("s".to_string(), "a".to_string());
    let mut doc = LyricsData::default();
    doc.original = Some("[00:00.00]x".to_string());
    doc.has_lyrics = true;
    doc.source = LyricsSource::NetEase;
    let entry = cache.make_entry(song, doc.clone(), 5000);

    match cache.get_outcome(Some(entry.clone()), 5500) {
        CacheGetDecision::Hit(found) => {
            assert_eq!(found.original, doc.original);
            assert_eq!(found.has_lyrics, doc.has_lyrics);
        }
        _ => panic!("expected a hit before the ttl"),
    }
    assert!(matches!(cache.get_outcome(Some(entry), 6001), CacheGetDecision::ExpiredDelete));
    assert!(matches!(cache.get_outcome(None, 0), CacheGetDecision::Miss));
}

#[test]
fn test_cache_cleanup() {
    let config = CacheConfig {
        ttl_ms: 86400000,
        cache_dir: "cache/test".to_string(),
        max_files: 2,
        cleanup_interval_hours: 6,
    };
    let cache = LyricsCache::new(config);
    let mut files: Vec<(String, u64)> = Vec::new();
    for i in 0..5u64 {
        files.push((format!("歌曲{}", i), 100 - i));
    }
    let doomed = cache.plan_eviction(files.clone());
    let remaining = files.len() - doomed.len();
    let stats = cache.get_stats(remaining);
    assert!(stats.file_count <= stats.max_files);
}

#[test]
fn eviction_removes_the_oldest_files_first() {
    let config = CacheConfig {
        ttl_ms: 86400000,
        cache_dir: "cache/test".to_string(),
        max_files: 4,
        cleanup_interval_hours: 6,
    };
    let cache = LyricsCache::new(config);
    let files = vec![
        ("newest".to_string(), 500u64),
        ("oldest".to_string(), 10u64),
        ("mid".to_string(), 100u64),
        ("older".to_string(), 50u64),
        ("newer".to_string(), 400u64),
    ];
    // Five files over a limit of four: down to three, so the two oldest go.
    let doomed = cache.plan_eviction(files);
    assert_eq!(doomed, vec!["oldest".to_string(), "older".to_string()]);
}

#[test]
fn sweep_decisions_and_interval() {
    let config = CacheConfig {
        ttl_ms: 1000,
        cache_dir: "cache/test".to_string(),
        max_files: 10,
        cleanup_interval_hours: 6,
    };
    let mut cache = LyricsCache::new(config);
    assert!(cache.should_cleanup(0));
    cache.note_cleanup(0);
    assert!(!cache.should_cleanup(6 * 3600000 - 1));
    assert!(cache.should_cleanup(6 * 3600000));
    let song = SongInfo::new("s".to_string(), "a".to_string());
    let entry = cache.make_entry(song, LyricsData::default(), 0);
    assert!(!cache.sweep_deletes(Some(&entry), 500));
    assert!(cache.sweep_deletes(Some(&entry), 1500));
    assert!(cache.sweep_deletes(None, 0));
}

#[test]
fn test_retry_delay_calculation() {
    for attempt in 0..5 {
        let delay = calculate_retry_delay(attempt);
        assert!(delay >= 50);
        assert!(delay <= 30000);
    }
}

#[test]
fn test_error_classification() {
    assert!(validate_request_url("invalid-url").is_err());
    assert!(matches!(
        validate_request_url("invalid-url"),
        Err(LyricsError::UrlParseError(_))
    ));
    assert!(validate_request_url("https://example.com/a?b=c").is_ok());
    assert!(matches!(classify_transport(true, false, String::new()), LyricsError::Timeout));
    assert!(matches!(
        classify_transport(false, true, String::new()),
        LyricsError::ServiceUnavailable
    ));
    assert!(matches!(
        classify_transport(false, false, "boom".to_string()),
        LyricsError::NetworkError(_)
    ));
}

#[test]
fn status_classification() {
    assert!(matches!(classify_http_status(429), LyricsError::RateLimited));
    assert!(matches!(classify_http_status(503), LyricsError::ServiceUnavailable));
    match classify_http_status(404) {
        LyricsError::ApiError { code, .. } => assert_eq!(code, "404"),
        _ => panic!("expected an api error"),
    }
}

#[test]
fn retry_exhaustion_makes_exactly_four_attempts() {
    let config = HttpClientConfig::default();
    assert_eq!(config.max_retries, 3);
    let mut attempts = 0u32;
    let result = loop {
        // One attempt against the perpetually failing endpoint.
        attempts += 1;
        match next_retry_step(&config, attempts - 1, AttemptOutcome::Status(503)) {
            RetryStep::RetryAfter { delay_ms } => assert!(delay_ms <= 30000),
            RetryStep::Fail(e) => break e,
            RetryStep::Done(_) => panic!("a 503 never succeeds"),
        }
    };
    assert_eq!(attempts, 4);
    assert!(matches!(result, LyricsError::ServiceUnavailable));
}

#[test]
fn rate_limited_attempts_wait_the_fixed_override() {
    let config = HttpClientConfig::default();
    match next_retry_step(&config, 0, AttemptOutcome::Status(429)) {
        RetryStep::RetryAfter { delay_ms } => assert_eq!(delay_ms, 60000),
        _ => panic!("a 429 before the last attempt is retried"),
    }
    match next_retry_step(&config, 3, AttemptOutcome::Status(429)) {
        RetryStep::Fail(e) => assert!(matches!(e, LyricsError::RateLimited)),
        _ => panic!("the last 429 fails as rate limited"),
    }
}

#[test]
fn retry_returns_a_success_body_at_once() {
    let config = HttpClientConfig::default();
    match next_retry_step(&config, 0, AttemptOutcome::Success("body".to_string())) {
        RetryStep::Done(b) => assert_eq!(b, "body"),
        _ => panic!("a success ends the loop"),
    }
}

#[test]
fn provider_fallback_prefers_the_first_with_content() {
    let service = LyricsService::new(Default::default());
    let song = SongInfo::new("t".to_string(), "a".to_string());
    let mut flow = service.start_flow(&song).unwrap();

    // NetEase answers without content: a soft miss, no error recorded.
    assert!(matches!(flow.next_provider(), Some(LyricsSource::NetEase)));
    assert!(flow.on_outcome(ProviderOutcome::Empty).is_none());
    assert!(flow.last_error.is_none());

    // QQ Music is consulted exactly once and its content is the result.
    let mut qq_doc = LyricsData::default();
    qq_doc.original = Some("[00:00.00]from qq".to_string());
    qq_doc.has_lyrics = true;
    qq_doc.source = LyricsSource::QQMusic;
    assert!(matches!(flow.next_provider(), Some(LyricsSource::QQMusic)));
    let got = flow.on_outcome(ProviderOutcome::Content(qq_doc.clone())).unwrap();
    assert_eq!(got.original, qq_doc.original);
    assert_eq!(got.source, LyricsSource::QQMusic);

    // No providers remain after the two.
    assert!(flow.next_provider().is_none());
}

#[test]
fn exhausted_flow_fails_with_the_last_error() {
    let service = LyricsService::new(Default::default());
    let song = SongInfo::new("t".to_string(), "a".to_string());
    let mut flow = service.start_flow(&song).unwrap();
    flow.next_provider();
    flow.on_outcome(ProviderOutcome::Failed(LyricsError::Timeout));
    flow.next_provider();
    flow.on_outcome(ProviderOutcome::Failed(LyricsError::ServiceUnavailable));
    assert!(flow.next_provider().is_none());
    assert!(matches!(flow.finish(), LyricsError::ServiceUnavailable));
}

#[test]
fn exhausted_flow_without_errors_is_not_found() {
    let service = LyricsService::new(Default::default());
    let song = SongInfo::new("t".to_string(), "a".to_string());
    let mut flow = service.start_flow(&song).unwrap();
    flow.next_provider();
    flow.on_outcome(ProviderOutcome::Empty);
    flow.next_provider();
    flow.on_outcome(ProviderOutcome::Empty);
    assert!(matches!(flow.finish(), LyricsError::LyricsNotFound));
}

#[test]
fn invalid_identity_is_rejected_before_any_provider() {
    let service = LyricsService::new(Default::default());
    let song = SongInfo::new("  ".to_string(), String::new());
    assert!(matches!(service.start_flow(&song), Err(LyricsError::InvalidSongInfo)));
}

#[test]
fn test_lyrics_service_creation() {
    let service = LyricsService::new(Default::default());
    let sources = service.get_supported_sources();
    assert!(sources.contains(&LyricsSource::NetEase));
    assert!(sources.contains(&LyricsSource::QQMusic));
}

#[test]
fn test_lyrics_service_builder() {
    let service = LyricsServiceBuilder::new()
        .enable_netease(true)
        .enable_qqmusic(false)
        .with_search_timeout(10)
        .build();
    let sources = service.get_supported_sources();
    assert!(sources.contains(&LyricsSource::NetEase));
    assert!(!sources.contains(&LyricsSource::QQMusic));
    assert_eq!(service.config.search_timeout_secs, 10);
}

#[test]
fn errors_classify_retryability_and_delay() {
    assert!(LyricsError::Timeout.is_retryable());
    assert!(LyricsError::ServiceUnavailable.is_retryable());
    assert!(LyricsError::NetworkError("x".to_string()).is_retryable());
    assert!(!LyricsError::LyricsNotFound.is_retryable());
    assert!(LyricsError::RateLimited.is_retryable());
    assert_eq!(LyricsError::RateLimited.retry_delay_ms(0), 60000);
    assert_eq!(LyricsError::ServiceUnavailable.retry_delay_ms(0), 30000);
    assert_eq!(LyricsError::Timeout.retry_delay_ms(0), 100);
    assert_eq!(LyricsError::Timeout.retry_delay_ms(3), 800);
    assert_eq!(LyricsError::Timeout.retry_delay_ms(20), 30000);
    assert!(!LyricsError::CacheError("disk gone".to_string()).is_retryable());
    assert!(!LyricsError::InternalError("bug".to_string()).is_retryable());
    assert!(!LyricsError::JsonParseError("bad".to_string()).is_retryable());
}
