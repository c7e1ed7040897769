//! The text side of the engine: JSON field scanners, query building, URL
//! encoding, LRC timestamps, line parsing and the cursor.

use taskbar_lrc::common::{build_query, extract_json_string, find_first_id, url_encode};
use taskbar_lrc::data::LyricsData;
use taskbar_lrc::lrc::{find_cursor_line, find_next_time, parse_lrc_text};
use taskbar_lrc::netease::NetEaseApi;
use taskbar_lrc::qqmusic::QQMusicApi;

#[test]
fn test_extract_json_string() {
    let json = r#"{"name": "test song", "id": "123"}"#;
    assert_eq!(extract_json_string(json, "name"), Some("test song".to_string()));
    assert_eq!(extract_json_string(json, "id"), Some("123".to_string()));
    assert_eq!(extract_json_string(json, "missing"), None);
}

#[test]
fn test_build_query() {
    assert_eq!(build_query("  Song Title  ", "  Artist Name  "), "Song Title Artist Name");
}

#[test]
fn test_url_encode() {
    assert_eq!(url_encode("hello world"), "hello%20world");
    assert_eq!(url_encode("测试"), "%E6%B5%8B%E8%AF%95");
}

#[test]
fn test_extract_numeric_field() {
    let api = QQMusicApi::new();
    let json = r#"{"songid": 123, "other": "value"}"#;
    let result = api.extract_numeric_field(json, "songid").unwrap();
    assert_eq!(result, "123");
}

#[test]
fn test_extract_string_field() {
    let api = QQMusicApi::new();
    let json = r#"{"songmid": "abc123", "other": 456}"#;
    let result = api.extract_string_field(json, "songmid").unwrap();
    assert_eq!(result, "abc123");
}

#[test]
fn test_parse_search_response_manual() {
    let api = NetEaseApi::new();
    let mock_response = r#"{"result":{"songs":[{"name":"test","alias":[],"id":123}]}}"#;
    let result = api.parse_search_response_manual(mock_response);
    assert!(result.is_ok());
}

#[test]
fn test_netease_api_creation() {
    let api = NetEaseApi::new();
    assert_eq!(api.base_search_url, "https://music.163.com/api/search/get/web");
}

#[test]
fn test_qqmusic_api_creation() {
    let api = QQMusicApi::new();
    assert_eq!(api.base_search_url, "http://c.y.qq.com/soso/fcgi-bin/search_cp");
}

#[test]
fn manual_scan_pulls_first_song_id() {
    let api = NetEaseApi::new();
    let with_bare_id = r#"{"result":{"songs":[{"name":"x","id":4567,"ar":[]}]}}"#;
    let sr = api.parse_search_response_manual(with_bare_id).unwrap().unwrap();
    assert_eq!(sr.id, "4567");
    let zero_id = r#"{"result":{"songs":[{"id":0}]}}"#;
    assert!(api.parse_search_response_manual(zero_id).unwrap().is_none());
    let no_songs = r#"{"result":{}}"#;
    assert!(api.parse_search_response_manual(no_songs).unwrap().is_none());
}

#[test]
fn structured_search_decode_reads_the_first_song() {
    let api = NetEaseApi::new();
    let response = r#"{"result":{"songs":[{"id":42,"name":"Song","ar":[{"name":"A"},{"name":"B"}],"dt":180000}]}}"#;
    let sr = api.parse_search_response(response).unwrap().unwrap();
    assert_eq!(sr.id, "42");
    assert_eq!(sr.title, "Song");
    assert_eq!(sr.artist, "A, B");
    assert_eq!(sr.duration_ms, Some(180000));
}

#[test]
fn qq_structured_search_decode_reads_the_first_song() {
    let api = QQMusicApi::new();
    let response = r#"{"data":{"song":{"list":[{"songid":7,"songmid":"mid7","songname":"T","singer":[{"name":"S"}]}]}}}"#;
    let sr = api.parse_search_response(response).unwrap().unwrap();
    assert_eq!(sr.song_id, "7");
    assert_eq!(sr.song_mid, "mid7");
    assert_eq!(sr.artist, "S");
}

#[test]
fn qq_manual_scan_needs_both_ids() {
    let api = QQMusicApi::new();
    let good = r#"not json "song": "list":[{"songid": 9, "songmid": "m9"}]"#;
    let sr = api.parse_search_response_manual(good).unwrap().unwrap();
    assert_eq!(sr.song_id, "9");
    assert_eq!(sr.song_mid, "m9");
    let missing_mid = r#""song": "list":[{"songid": 9}]"#;
    assert!(api.parse_search_response_manual(missing_mid).unwrap().is_none());
}

#[test]
fn find_first_id_bounds_the_object() {
    let json = r#"{"songs":[{"id":"11","next":{"id":"22"}},{"id":"33"}]}"#;
    assert_eq!(find_first_id(json, "songs", "id").unwrap(), Some("11".to_string()));
    assert_eq!(find_first_id(json, "songs", "absent").unwrap(), None);
    // The fallback never fails hard: missing structure is simply not found.
    assert_eq!(find_first_id(json, "nothing", "id").unwrap(), None);
    assert_eq!(find_first_id(r#"{"songs":[{"id":"1""#, "songs", "id").unwrap(), None);
}

#[test]
fn lrc_timestamp_exact_value() {
    assert_eq!(LyricsData::parse_lrc_timestamp("01:23.45"), Some(83450));
    assert_eq!(LyricsData::parse_lrc_timestamp("00:00.00"), Some(0));
    assert_eq!(LyricsData::parse_lrc_timestamp("10:05.99"), Some(605990));
    assert_eq!(LyricsData::parse_lrc_timestamp("1:2.3"), Some(62030));
    assert_eq!(LyricsData::parse_lrc_timestamp("0123"), None);
    assert_eq!(LyricsData::parse_lrc_timestamp("01:23"), None);
    assert_eq!(LyricsData::parse_lrc_timestamp("a1:23.45"), None);
    assert_eq!(LyricsData::parse_lrc_timestamp("01:23.45.6"), None);
}

#[test]
fn lrc_round_trip_of_shuffled_lines() {
    let text = "[00:10.00]B line\n[00:00.00]A line\n[00:05.50]M line\nnoise without stamp\n[bad]skipped";
    let lines = parse_lrc_text(text);
    let expected = vec![
        (0u64, "A line".to_string()),
        (5500u64, "M line".to_string()),
        (10000u64, "B line".to_string()),
    ];
    assert_eq!(lines, expected);
}

#[test]
fn equal_timestamps_keep_their_text_order() {
    let text = "[00:02.00]late\n[00:01.00]first\n[00:01.00]second\n[00:00.00]early";
    let lines = parse_lrc_text(text);
    let expected = vec![
        (0u64, "early".to_string()),
        (1000u64, "first".to_string()),
        (1000u64, "second".to_string()),
        (2000u64, "late".to_string()),
    ];
    assert_eq!(lines, expected);
}

#[test]
fn cursor_three_records() {
    let lines = vec![
        (0u64, "A".to_string()),
        (5000u64, "B".to_string()),
        (10000u64, "C".to_string()),
    ];
    assert_eq!(find_cursor_line(&lines, 7000), Some("B".to_string()));
    assert_eq!(find_cursor_line(&lines, 0), Some("A".to_string()));
    let late_lines = vec![(5000u64, "B".to_string()), (10000u64, "C".to_string())];
    assert_eq!(find_cursor_line(&late_lines, 1000), None);
}

#[test]
fn cursor_skips_blank_lines() {
    let lines = vec![(0u64, "A".to_string()), (4000u64, String::new())];
    assert_eq!(find_cursor_line(&lines, 9000), Some("A".to_string()));
}

#[test]
fn next_lyrics_time_finds_the_next_non_blank_line() {
    let lines = vec![
        (0u64, "A".to_string()),
        (5000u64, String::new()),
        (10000u64, "C".to_string()),
    ];
    assert_eq!(find_next_time(&lines, 0), Some(10000));
    assert_eq!(find_next_time(&lines, 10000), None);
}

#[test]
fn parse_lrc_for_time_reads_whole_documents() {
    let text = "[00:00.00]first\n[00:08.00]second";
    assert_eq!(LyricsData::parse_lrc_for_time(text, 3000), Some("first".to_string()));
    assert_eq!(LyricsData::parse_lrc_for_time(text, 9000), Some("second".to_string()));
}

#[test]
fn process_lyrics_string_unescapes() {
    assert_eq!(LyricsData::process_lyrics_string("a\\nb\\tc\\rd"), "a\nb\tc\rd");
    assert_eq!(LyricsData::process_lyrics_string("plain"), "plain");
}
