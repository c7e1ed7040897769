//! The orchestrator's state machine, document construction, and the
//! modeled system, window and supervisor state.

use taskbar_lrc::data::{LyricsApiResponse, LyricsData, LyricsSource, SongInfo};
use taskbar_lrc::errors::LyricsError;
use taskbar_lrc::font::{get_pixel_text_width, FontManager};
use taskbar_lrc::manager::{LyricsEvent, LyricsManager};
use taskbar_lrc::media::{MediaEvent, MediaInfo, PlaybackStatus};
use taskbar_lrc::netease::NetEaseApi;
use taskbar_lrc::playback_timer::PlaybackEvent;
use taskbar_lrc::qqmusic::QQMusicApi;
use taskbar_lrc::supervisor::{SupervisorAction, TickSupervisor, TickTaskState};
use taskbar_lrc::system::{Rect, SystemManager};
use taskbar_lrc::window::WindowManager;

fn snapshot(title: &str, artist: &str, pos: Option<u64>) -> MediaInfo {
    MediaInfo {
        app_name: String::new(),
        title: title.to_string(),
        artist: artist.to_string(),
        duration_ms: Some(300000),
        position_ms: pos,
        playback_status: PlaybackStatus::Playing,
    }
}

fn document_with(text: &str) -> LyricsData {
    let mut doc = LyricsData::default();
    doc.original = Some(text.to_string());
    doc.has_lyrics = true;
    doc.source = LyricsSource::NetEase;
    doc
}

#[test]
fn a_new_song_starts_loading_before_retrieval() {
    let mut manager = LyricsManager::new();
    let (events, request) = manager.handle_media_event(MediaEvent::InfoUpdated(snapshot(
        "Song", "Artist", None,
    )));
    assert!(manager.is_loading());
    let req = request.unwrap();
    assert_eq!(req.title, "Song");
    assert_eq!(req.artist, "Artist");
    assert!(matches!(events[0], LyricsEvent::LoadingStarted { .. }));

    // The same identity again is ignored.
    let (events2, request2) = manager.handle_media_event(MediaEvent::InfoUpdated(snapshot(
        "Song", "Artist", None,
    )));
    assert!(request2.is_none());
    assert!(events2.is_empty());
}

#[test]
fn completion_parses_and_moves_the_cursor() {
    let mut manager = LyricsManager::new();
    let (_, request) = manager.handle_playback_event(PlaybackEvent::SongChanged {
        title: "Song".to_string(),
        artist: "Artist".to_string(),
        duration_ms: Some(300000),
    });
    let song = request.unwrap();
    let doc = document_with("[00:00.00]alpha\n[00:05.00]beta");
    let events = manager.complete_loading(song, Ok(doc));
    assert!(!manager.is_loading());
    assert!(matches!(events[0], LyricsEvent::LoadingCompleted { .. }));

    let (events, _) = manager.handle_playback_event(PlaybackEvent::PositionUpdate {
        position_ms: 6000,
    });
    assert_eq!(manager.get_current_line(), Some("beta".to_string()));
    assert!(matches!(
        &events[0],
        LyricsEvent::CurrentLineUpdated { line: Some(l), position_ms: 6000 } if l == "beta"
    ));

    // The cursor only announces changes.
    let (events, _) = manager.handle_playback_event(PlaybackEvent::PositionUpdate {
        position_ms: 7000,
    });
    assert!(events.is_empty());
    assert_eq!(manager.get_next_lyrics_time(1000), Some(5000));
}

#[test]
fn failure_leaves_lyrics_absent() {
    let mut manager = LyricsManager::new();
    let (_, request) = manager.handle_playback_event(PlaybackEvent::SongChanged {
        title: "Song".to_string(),
        artist: "Artist".to_string(),
        duration_ms: None,
    });
    let events = manager.complete_loading(request.unwrap(), Err(LyricsError::LyricsNotFound));
    assert!(!manager.is_loading());
    assert!(manager.get_current_state().current_lyrics.is_none());
    assert!(matches!(events[0], LyricsEvent::LoadingFailed { .. }));
}

#[test]
fn reset_and_blank_media_clear_everything() {
    let mut manager = LyricsManager::new();
    let (_, request) = manager.handle_media_event(MediaEvent::InfoUpdated(snapshot(
        "Song", "Artist", Some(1000),
    )));
    manager.complete_loading(request.unwrap(), Ok(document_with("[00:00.00]x")));
    let (events, _) = manager.handle_playback_event(PlaybackEvent::Reset);
    assert!(matches!(events[0], LyricsEvent::Cleared));
    assert!(manager.get_current_state().current_song.is_none());

    let (_, request) = manager.handle_media_event(MediaEvent::InfoUpdated(snapshot(
        "Song", "Artist", None,
    )));
    assert!(request.is_some());
    let (events, _) = manager.handle_media_event(MediaEvent::InfoUpdated(snapshot("", "", None)));
    assert!(matches!(events[0], LyricsEvent::Cleared));
    assert!(manager.get_current_state().current_song.is_none());
}

#[test]
fn paused_playback_freezes_the_cursor() {
    let mut manager = LyricsManager::new();
    let (_, request) = manager.handle_playback_event(PlaybackEvent::SongChanged {
        title: "Song".to_string(),
        artist: "Artist".to_string(),
        duration_ms: None,
    });
    manager.complete_loading(request.unwrap(), Ok(document_with("[00:00.00]alpha")));
    manager.handle_playback_event(PlaybackEvent::PositionUpdate { position_ms: 100 });
    assert_eq!(manager.get_current_line(), Some("alpha".to_string()));

    // While paused the line stays, though the position is stored.
    let (events, _) = manager.handle_playback_event(PlaybackEvent::PlayStateChanged {
        is_playing: false,
        position_ms: 9000,
    });
    assert!(events.is_empty());
    assert_eq!(manager.get_current_state().current_position_ms, 9000);
    assert_eq!(manager.get_current_line(), Some("alpha".to_string()));
}

#[test]
fn from_api_response_keeps_non_blank_fields() {
    let response = LyricsApiResponse {
        code: None,
        lrc: Some("[00:00.00]line\\nmore".to_string()),
        trans: Some("   ".to_string()),
        roma: None,
    };
    let doc = LyricsData::from_api_response(response, LyricsSource::NetEase);
    assert_eq!(doc.original, Some("[00:00.00]line\nmore".to_string()));
    assert!(doc.translated.is_none());
    assert!(doc.romanized.is_none());
    assert!(doc.has_lyrics);
    assert!(doc.has_any_content());
    assert_eq!(doc.source, LyricsSource::NetEase);
}

#[test]
fn blank_documents_are_not_content() {
    let mut doc = LyricsData::default();
    assert!(!doc.has_any_content());
    doc.translated = Some("  \t ".to_string());
    assert!(!doc.has_any_content());
    doc.romanized = Some("ro".to_string());
    assert!(doc.has_any_content());
    doc.clear();
    assert!(!doc.has_any_content());
    assert_eq!(doc.source, LyricsSource::Unknown);
}

#[test]
fn provider_lyrics_decode_respects_status_and_blankness() {
    let api = NetEaseApi::new();
    let good = r#"{"code":200,"message":"ok","data":{"lrc":"[00:00.00]hi"},"time":"t","tips":""}"#;
    let doc = api.parse_lyrics_response(good).unwrap();
    assert_eq!(doc.original, Some("[00:00.00]hi".to_string()));
    assert_eq!(doc.source, LyricsSource::NetEase);

    let bad_status = r#"{"code":500,"message":"","data":{"lrc":"[00:00.00]hi"},"time":"","tips":""}"#;
    assert!(matches!(api.parse_lyrics_response(bad_status), Err(LyricsError::LyricsNotFound)));

    let not_json = "no braces here";
    assert!(matches!(api.parse_lyrics_response(not_json), Err(LyricsError::JsonParseError(_))));

    let qq = QQMusicApi::new();
    let qq_good = r#"{"code":200,"message":"","data":{"lrc":"[00:00.00]q","trans":"[00:00.00]t"},"time":"","tips":""}"#;
    let doc = qq.parse_lyrics_response(qq_good).unwrap();
    assert_eq!(doc.original, Some("[00:00.00]q".to_string()));
    assert_eq!(doc.translated, Some("[00:00.00]t".to_string()));
    assert_eq!(doc.source, LyricsSource::QQMusic);
}

#[test]
fn provider_urls_follow_the_identity() {
    let ne = NetEaseApi::new();
    let song = SongInfo::new("A B".to_string(), "C".to_string());
    let url = ne.search_url(&song).unwrap();
    assert_eq!(
        url,
        "https://music.163.com/api/search/get/web?csrf_token=hlpretag=&hlposttag=&s=A%20B%20C&type=1&offset=0&total=true&limit=1"
    );
    let blank = SongInfo::new(" ".to_string(), "C".to_string());
    assert!(matches!(ne.search_url(&blank), Err(LyricsError::InvalidSongInfo)));
    assert_eq!(
        ne.lyrics_url("42").unwrap(),
        "https://api.vkeys.cn/v2/music/netease/lyric?id=42"
    );
    assert!(matches!(ne.lyrics_url(""), Err(LyricsError::SongNotFound)));

    let qq = QQMusicApi::new();
    assert_eq!(
        qq.lyrics_url("9", "m9").unwrap(),
        "https://api.vkeys.cn/v2/music/tencent/lyric?mid=m9"
    );
    assert_eq!(
        qq.lyrics_url("9", "").unwrap(),
        "https://api.vkeys.cn/v2/music/tencent/lyric?id=9"
    );
    assert!(matches!(qq.lyrics_url("", ""), Err(LyricsError::SongNotFound)));
}

#[test]
fn supervisor_start_and_stop_are_idempotent() {
    let mut sup = TickSupervisor::new();
    assert_eq!(sup.check(true), SupervisorAction::Start);
    assert_eq!(sup.state, TickTaskState::Starting);
    // A second check while playing never spawns twice.
    assert_eq!(sup.check(true), SupervisorAction::Nothing);
    sup.note_started();
    assert_eq!(sup.state, TickTaskState::Running);
    assert_eq!(sup.check(true), SupervisorAction::Nothing);
    // Stopping cancels once, then nothing.
    assert_eq!(sup.check(false), SupervisorAction::Stop);
    assert_eq!(sup.check(false), SupervisorAction::Nothing);
}

#[test]
fn system_manager_tracks_what_the_shell_reported() {
    let mut sm = SystemManager::new();
    let rect = Rect { left: 0, top: 1040, right: 1920, bottom: 1080 };
    assert!(sm.find_taskbar_handle(None).is_err());
    let hwnd = sm.find_taskbar_handle(Some((77, rect))).unwrap();
    assert_eq!(hwnd, 77);
    assert_eq!(sm.get_taskbar_height(), 40);
    assert_eq!(sm.get_taskbar_rect(), rect);
    let notify = Rect { left: 1700, top: 1040, right: 1920, bottom: 1080 };
    assert_eq!(sm.get_notify_area_rect(Some(notify)), notify);
    assert_eq!(sm.get_notify_area_rect(None), Rect::default());
    assert!(sm.setup_event_hook(0).is_err());
    assert!(sm.setup_event_hook(5).is_ok());
    sm.cleanup();
    assert_eq!(sm.event_hook, 0);
    assert!(sm.is_taskbar_related_window("Shell_TrayWnd"));
    assert!(sm.is_taskbar_related_window("prefix TrayNotifyWnd suffix"));
    assert!(!sm.is_taskbar_related_window("Notepad"));
    assert!(!sm.is_taskbar_related_window(""));
}

#[test]
fn font_manager_reports_what_loaded() {
    let mut fm = FontManager::new(None);
    assert!(!fm.has_font());
    assert!(fm.get_font().is_none());
    // Bytes that are no font parse to nothing.
    let broken = FontManager::load_from_bytes(vec![0u8, 1, 2, 3]);
    assert!(!broken.has_font());
    fm.reload_font(None);
    assert!(!fm.has_font());
    assert_eq!(get_pixel_text_width("DEMO", 8), 32);
    assert_eq!(get_pixel_text_width("", 8), 0);
}

#[test]
fn window_manager_commands_follow_its_window() {
    let mut wm = WindowManager::new();
    assert!(wm.get_hwnd().is_none());
    assert!(wm.set_position(1, 2, 3, 4).is_err());
    assert!(wm.ensure_topmost().is_none());
    assert!(wm.create_window(None).is_err());
    assert!(wm.create_window(Some(9)).is_ok());
    let cmd = wm.set_position(10, 20, 280, 40).unwrap();
    assert_eq!(cmd.hwnd, 9);
    assert_eq!((cmd.x, cmd.y, cmd.width, cmd.height), (10, 20, 280, 40));
    assert_eq!(wm.ensure_topmost(), Some(9));
    assert_eq!(wm.get_window(), Some(9));
}
