use island_core::album_art::{image_base64, request_url_of, FetcherKind};
use island_core::events::{new_queue, priority, SystemEvent};
use island_core::fmt::{hex2_exec, i64_decimal, u64_decimal};
use island_core::media::{
    aumid_is_qq_music_smtc_broken, app_id_matches_media_source, choose_media_session, extract_accent,
    get_current_media_sync, get_media_from_window_title, normalize_source, parse_title, status_text,
    thumbnail_read_len, timespan_to_ms, try_playback_status_for_source,
    try_playback_status_single_session, ForegroundWindow, PlaybackStatus, SessionDetails, SessionInfo,
    WindowTitles,
};
use island_core::text::{replace_all_exec, trim_chars};

fn s(v: &[char]) -> String {
    v.iter().collect()
}

fn chars(x: &str) -> Vec<char> {
    x.chars().collect()
}

#[test]
fn decimal_rendering_matches_format() {
    assert_eq!(s(&i64_decimal(-42)), "-42");
    assert_eq!(s(&i64_decimal(i64::MIN)), i64::MIN.to_string());
    assert_eq!(s(&u64_decimal(0)), "0");
    assert_eq!(s(&u64_decimal(1234567890)), "1234567890");
    assert_eq!(s(&hex2_exec(0xab)), "ab");
    assert_eq!(s(&hex2_exec(0x05)), "05");
}

#[test]
fn trim_and_replace() {
    assert_eq!(s(&trim_chars(&chars("  a b \t\n"))), "a b");
    assert_eq!(s(&trim_chars(&chars("\u{3000}x\u{3000}"))), "x");
    assert_eq!(
        s(&replace_all_exec(&chars("a100x100b100x100"), &chars("100x100"), &chars("600x600"))),
        "a600x600b600x600"
    );
}

#[test]
fn url_encoding_goes_through_the_request_url() {
    let u = request_url_of(FetcherKind::ITunes, "a b", "c/d").unwrap();
    assert_eq!(u, "https://itunes.apple.com/search?term=a%20b c%2Fd&media=music&entity=song&limit=5");
    let q = request_url_of(FetcherKind::QQMusic, "晴", "").unwrap();
    assert!(q.ends_with("&w=%E6%99%B4"));
    assert!(request_url_of(FetcherKind::LastFm, "a", "b").is_none());
}

#[test]
fn base64_of_downloaded_images() {
    assert_eq!(image_base64(b"hello"), Some("aGVsbG8=".to_string()));
    assert_eq!(image_base64(b""), None);
}

#[test]
fn event_priorities() {
    assert_eq!(priority(&SystemEvent::VolumeChange { percent: 1, muted: false }), 1);
    assert_eq!(priority(&SystemEvent::CapsLock { on: true }), 2);
    assert_eq!(priority(&SystemEvent::LowBattery { percent: 5 }), 3);
    let toast = SystemEvent::AppToast {
        app_name: "QQ".into(),
        aumid: None,
        title: "t".into(),
        body: "b".into(),
        icon_base64: None,
    };
    assert_eq!(priority(&toast), 4);
    let wx = SystemEvent::WeChat { source: "s".into(), kind: "call".into(), title: "t".into(), body: String::new() };
    assert_eq!(priority(&wx), 5);
}

fn wechat(title: &str) -> SystemEvent {
    SystemEvent::WeChat { source: "window_enum".into(), kind: "message".into(), title: title.into(), body: String::new() }
}

fn toast(title: &str) -> SystemEvent {
    SystemEvent::AppToast { app_name: "QQ".into(), aumid: None, title: title.into(), body: String::new(), icon_base64: None }
}

#[test]
fn queue_shows_highest_priority_first_and_coalesces_the_rest() {
    let mut q = new_queue();
    assert_eq!(q.len(), 0);
    q.push_back(SystemEvent::VolumeChange { percent: 10, muted: false });
    q.push_back(SystemEvent::CapsLock { on: true });
    q.push_back(wechat("w1"));
    q.push_back(SystemEvent::VolumeChange { percent: 20, muted: false });
    q.push_back(toast("t1"));
    q.push_back(wechat("w2"));
    let first = q.take_next();
    assert!(matches!(first, Some(SystemEvent::WeChat { ref title, .. }) if title == "w1"));
    // left: caps lock, volume 20, toast, second WeChat (the older volume change is dropped)
    assert_eq!(q.len(), 4);
    let second = q.take_next();
    assert!(matches!(second, Some(SystemEvent::WeChat { ref title, .. }) if title == "w2"));
    assert_eq!(q.len(), 3);
    let third = q.take_next();
    assert!(matches!(third, Some(SystemEvent::AppToast { ref title, .. }) if title == "t1"));
    let fourth = q.take_next();
    assert!(matches!(fourth, Some(SystemEvent::CapsLock { on: true })));
    let fifth = q.take_next();
    assert!(matches!(fifth, Some(SystemEvent::VolumeChange { percent: 20, .. })));
    assert!(q.take_next().is_none());
}

#[test]
fn equal_priority_keeps_the_earliest() {
    let mut q = new_queue();
    q.push_back(toast("a"));
    q.push_back(toast("b"));
    let e = q.take_next();
    assert!(matches!(e, Some(SystemEvent::AppToast { ref title, .. }) if title == "a"));
    assert_eq!(q.len(), 1);
}

#[test]
fn player_titles_are_split_into_song_and_artist() {
    assert_eq!(parse_title("晴天 - 周杰伦 - 网易云音乐", ""), ("晴天".to_string(), "周杰伦".to_string()));
    assert_eq!(parse_title("Song - Artist - Album - Spotify", "spotify"), ("Song".to_string(), "Artist".to_string()));
    assert_eq!(parse_title("NoDash", ""), ("NoDash".to_string(), String::new()));
    assert_eq!(parse_title("歌 - 手 - QQ音乐", ""), ("歌".to_string(), "手".to_string()));
}

#[test]
fn sources_are_normalised() {
    assert_eq!(normalize_source("QQMusic.exe"), "qqmusic");
    assert_eq!(normalize_source("NetEase.CloudMusic"), "cloudmusic");
    assert_eq!(normalize_source("Spotify.exe"), "spotify");
    assert_eq!(normalize_source("Chrome"), "chrome");
    assert_eq!(normalize_source("foo"), "unknown");
}

#[test]
fn timespans_and_ids() {
    assert_eq!(timespan_to_ms(12_345_678), 1234);
    assert_eq!(timespan_to_ms(-5), 0);
    assert!(aumid_is_qq_music_smtc_broken("Tencent.QQMusic"));
    assert!(!aumid_is_qq_music_smtc_broken(""));
    assert!(!aumid_is_qq_music_smtc_broken("Spotify"));
    assert!(app_id_matches_media_source("NetEase.CloudMusic", "cloudmusic"));
    assert!(!app_id_matches_media_source("Spotify.exe", "qqmusic"));
    assert!(app_id_matches_media_source("SpotifyAB.Spotify", "spotify"));
}

#[test]
fn accent_colour_of_a_cover() {
    assert_eq!(extract_accent(&[100, 150, 200]), "#6496c8");
    assert_eq!(extract_accent(&[]), "#a0a0a0");
    assert_eq!(extract_accent(&[0, 0, 0, 0, 0, 0]), "#a0a0a0");
    assert_eq!(extract_accent(&[100, 100, 100, 0, 0, 0, 200, 100, 0]), "#966432");
}

#[test]
fn status_texts() {
    assert_eq!(status_text(Some(PlaybackStatus::Playing)), "playing");
    assert_eq!(status_text(Some(PlaybackStatus::Paused)), "paused");
    assert_eq!(status_text(Some(PlaybackStatus::Stopped)), "stopped");
    assert_eq!(status_text(None), "stopped");
}

fn session(app: &str, playback: Option<PlaybackStatus>, meta: Option<(&str, &str)>) -> SessionInfo {
    SessionInfo {
        available: true,
        app_id: Some(app.to_string()),
        playback,
        meta: meta.map(|(t, a)| (t.to_string(), a.to_string())),
    }
}

#[test]
fn the_best_session_is_chosen() {
    let ss = vec![
        session("Tencent.QQMusic", Some(PlaybackStatus::Playing), Some(("a", "b"))),
        session("Spotify.exe", Some(PlaybackStatus::Paused), Some(("s", "t"))),
        session("cloudmusic.exe", Some(PlaybackStatus::Playing), None),
    ];
    assert_eq!(choose_media_session(&ss), Some(2));
    let tie = vec![
        session("a.exe", Some(PlaybackStatus::Playing), None),
        session("b.exe", Some(PlaybackStatus::Playing), None),
    ];
    assert_eq!(choose_media_session(&tie), Some(1));
    let only_qq = vec![session("QQMusic.exe", Some(PlaybackStatus::Playing), None)];
    assert_eq!(choose_media_session(&only_qq), None);
    assert_eq!(try_playback_status_single_session(&only_qq), Some("playing".to_string()));
    assert_eq!(try_playback_status_for_source(&ss, "spotify"), Some("paused".to_string()));
}

#[test]
fn thumbnail_lengths() {
    assert_eq!(thumbnail_read_len(0), None);
    assert_eq!(thumbnail_read_len(100), Some(100));
    assert_eq!(thumbnail_read_len(3 << 20), None);
}

fn no_windows() -> WindowTitles {
    WindowTitles { foreground: None, candidates: vec![None, None, None] }
}

#[test]
fn media_from_the_foreground_player_window() {
    let w = WindowTitles {
        foreground: Some(ForegroundWindow {
            title: "晴天 - 周杰伦 - 网易云音乐\0\0".to_string(),
            class_name: "OrpheusBrowserHost".to_string(),
            exe_path: None,
        }),
        candidates: vec![None, None, None],
    };
    let m = get_media_from_window_title(&w).unwrap();
    assert_eq!(m.title, "晴天");
    assert_eq!(m.artist, "周杰伦");
    assert_eq!(m.source, "cloudmusic");
    assert_eq!(m.status, "playing");
    assert_eq!(m.accent, "#a0a0a0");
    assert!(get_media_from_window_title(&no_windows()).is_none());
    let c = WindowTitles { foreground: None, candidates: vec![None, Some("歌 - 手".to_string()), None] };
    let m2 = get_media_from_window_title(&c).unwrap();
    assert_eq!(m2.source, "qqmusic");
}

#[test]
fn current_media_from_the_chosen_session() {
    let details = SessionDetails {
        position_ticks: Some(50_000_000),
        end_ticks: Some(2_000_000_000),
        props: Some(("T".to_string(), "A".to_string())),
        thumbnail: None,
    };
    assert!(get_current_media_sync(None, &details, &no_windows()).is_none());
    let ss = vec![session("Spotify.exe", Some(PlaybackStatus::Playing), Some(("T", "A")))];
    let m = get_current_media_sync(Some(&ss), &details, &no_windows()).unwrap();
    assert_eq!(m.title, "T");
    assert_eq!(m.artist, "A");
    assert_eq!(m.position_ms, 5000);
    assert_eq!(m.duration_ms, 200_000);
    assert_eq!(m.source, "spotify");
    assert_eq!(m.status, "playing");
    assert_eq!(m.thumbnail, "");
    assert_eq!(m.accent, "#a0a0a0");
}

#[test]
fn only_the_newest_volume_change_is_kept() {
    let mut q = new_queue();
    q.push_back(SystemEvent::LowBattery { percent: 9 });
    q.push_back(SystemEvent::VolumeChange { percent: 1, muted: false });
    q.push_back(SystemEvent::VolumeChange { percent: 2, muted: false });
    q.push_back(SystemEvent::VolumeChange { percent: 3, muted: true });
    assert!(matches!(q.take_next(), Some(SystemEvent::LowBattery { percent: 9 })));
    assert_eq!(q.len(), 1);
    assert!(matches!(q.take_next(), Some(SystemEvent::VolumeChange { percent: 3, muted: true })));
    assert!(q.take_next().is_none());
}

#[test]
fn a_cover_is_shown_only_when_bytes_were_read() {
    let ss = vec![session("Spotify.exe", Some(PlaybackStatus::Playing), Some(("T", "A")))];
    let with = |thumbnail: Option<Vec<u8>>| SessionDetails {
        position_ticks: None,
        end_ticks: None,
        props: Some(("T".to_string(), "A".to_string())),
        thumbnail,
    };
    let empty = get_current_media_sync(Some(&ss), &with(Some(Vec::new())), &no_windows()).unwrap();
    assert_eq!(empty.thumbnail, "");
    assert_eq!(empty.accent, "#a0a0a0");
    assert_eq!(empty.source, "spotify");
    let shown = get_current_media_sync(Some(&ss), &with(Some(vec![0xff, 0x00, 0x00])), &no_windows()).unwrap();
    assert_eq!(shown.thumbnail, "/wAA");
    assert_eq!(shown.accent.len(), 7);
    assert!(shown.accent.starts_with('#'));
}

#[test]
fn the_newest_is_kept_in_queue_order() {
    let mut q = new_queue();
    q.push_back(SystemEvent::VolumeChange { percent: 10, muted: false });
    q.push_back(SystemEvent::VolumeChange { percent: 20, muted: false });
    q.push_back(SystemEvent::CapsLock { on: true });
    assert!(matches!(q.take_next(), Some(SystemEvent::CapsLock { on: true })));
    assert_eq!(q.len(), 1);
    assert!(matches!(q.take_next(), Some(SystemEvent::VolumeChange { percent: 20, .. })));
    let mut w = new_queue();
    w.push_back(wechat("old"));
    w.push_back(SystemEvent::LowBattery { percent: 5 });
    w.push_back(wechat("new"));
    w.push_back(toast("t"));
    assert!(matches!(w.take_next(), Some(SystemEvent::WeChat { ref title, .. }) if title == "old"));
    assert!(matches!(w.take_next(), Some(SystemEvent::WeChat { ref title, .. }) if title == "new"));
}
