use island_core::album_art::{
    cover_from_reply_of, fetch_album_art, register_fetcher, request_headers, strip_callback_wrapper,
    with_download, AlbumArtManager, AlbumArtPayload, FetchStep, FetcherKind,
};
use island_core::bookmarks::{added_bookmark, bookmark_count_exists, bookmark_key, prepare_bookmark};
use island_core::devices::{
    any_succeeded, brightness_from_ddc, brightness_from_wmi, brightness_target, brightness_unsupported,
    caps_lock_event, get_focus_assist, hook_key, radio_kind_of, radio_to_switch, radios_state_from,
    radios_unknown, set_focus_assist, theme_mode_from, theme_mode_unknown, theme_mode_value,
    theme_set_succeeded, to_bool_state, to_target_state, volume_key_event, volume_target,
    wmi_brightness_script, HookKey, RadioKind, RadioState,
};
use island_core::events::SystemEvent;
use island_core::json::JsonValue;
use island_core::netease::{
    add_hd_param, cover_payload, empty_cover_payload, extract_pic_url, fetch_netease_cover_url,
    get_player_status, status_ok, CoverStep, NcmData, NcmResponse,
};
use island_core::system::{
    argb_to_hex, combo_events, expand_env_path, island_ex_style, island_style, island_x, media_key,
    now_playing_launch, quick_settings_combo, screenshot_combo, shell_execute_succeeded,
};

fn obj(fields: Vec<(&str, JsonValue)>) -> JsonValue {
    JsonValue::Object(fields.into_iter().map(|(k, v)| (k.to_string(), v)).collect())
}

fn st(s: &str) -> JsonValue {
    JsonValue::Str(s.to_string())
}

fn netease_reply(id: i64) -> JsonValue {
    obj(vec![("result", obj(vec![("songs", JsonValue::Array(vec![obj(vec![("album", obj(vec![("id", JsonValue::Number(Some(id)))]))])]))]))])
}

#[test]
fn cover_addresses_from_replies() {
    assert_eq!(
        cover_from_reply_of(FetcherKind::Netease, &netease_reply(123456)),
        Some("https://p2.music.126.net/6y-UleORITEDbvrOLV0Q8A==/1234/123456.jpg?param=200y200".to_string())
    );
    assert_eq!(
        cover_from_reply_of(FetcherKind::Netease, &netease_reply(-250)),
        Some("https://p2.music.126.net/6y-UleORITEDbvrOLV0Q8A==/-2/-250.jpg?param=200y200".to_string())
    );
    let qq = obj(vec![("data", obj(vec![("song", obj(vec![("list", JsonValue::Array(vec![obj(vec![("albummid", st("abc"))])]))]))]))]);
    assert_eq!(
        cover_from_reply_of(FetcherKind::QQMusic, &qq),
        Some("https://y.gtimg.cn/music/photo_new/T002R300x300M000abc.jpg".to_string())
    );
    let it = obj(vec![("results", JsonValue::Array(vec![obj(vec![("artworkUrl100", st("https://x/100x100bb.jpg"))])]))]);
    assert_eq!(cover_from_reply_of(FetcherKind::ITunes, &it), Some("https://x/600x600bb.jpg".to_string()));
    let sp = obj(vec![(
        "tracks",
        obj(vec![(
            "items",
            JsonValue::Array(vec![obj(vec![("album", obj(vec![("images", JsonValue::Array(vec![obj(vec![("url", st("https://i.scdn.co/a"))])]))]))])]),
        )]),
    )]);
    assert_eq!(cover_from_reply_of(FetcherKind::Spotify, &sp), Some("https://i.scdn.co/a".to_string()));
    assert_eq!(cover_from_reply_of(FetcherKind::Spotify, &JsonValue::Null), None);
    let empty = obj(vec![("result", obj(vec![("songs", JsonValue::Array(vec![]))]))]);
    assert_eq!(cover_from_reply_of(FetcherKind::Netease, &empty), None);
    assert_eq!(cover_from_reply_of(FetcherKind::LastFm, &netease_reply(1)), None);
}

#[test]
fn qq_music_replies_are_unwrapped() {
    assert_eq!(strip_callback_wrapper("callback({\"a\":1})"), "{\"a\":1}");
    assert_eq!(strip_callback_wrapper(" {\"a\":1} "), "{\"a\":1}");
}

#[test]
fn request_headers_per_platform() {
    let h = request_headers(FetcherKind::Netease);
    assert_eq!(h.len(), 2);
    assert_eq!(h[1], ("Referer", "https://music.163.com/"));
    assert_eq!(request_headers(FetcherKind::Spotify).len(), 1);
    assert_eq!(request_headers(FetcherKind::LastFm).len(), 0);
}

fn expect_get(step: FetchStep) -> (FetcherKind, String, bool) {
    match step {
        FetchStep::Get { kind, url, callback_wrapped } => (kind, url, callback_wrapped),
        FetchStep::Plugin { .. } | FetchStep::Done(_) => panic!("expected a request"),
    }
}

#[test]
fn the_preferred_platform_is_asked_first() {
    let m = AlbumArtManager::new();
    let mut s = m.fetch(" Song ", " Art ", "", "Spotify.exe");
    let (k1, u1, _) = expect_get(s.start());
    assert_eq!(k1, FetcherKind::Spotify);
    assert_eq!(u1, "https://api.spotify.com/v1/search?q=Song artist:Art&type=track&limit=1");
    let (k2, _, _) = expect_get(s.on_reply(None));
    assert_eq!(k2, FetcherKind::Netease);
    let (k3, _, wrapped) = expect_get(s.on_reply(Some(JsonValue::Null)));
    assert_eq!(k3, FetcherKind::QQMusic);
    assert!(wrapped);
    let (k4, _, _) = expect_get(s.on_reply(None));
    assert_eq!(k4, FetcherKind::ITunes);
    match s.on_reply(None) {
        FetchStep::Done(None) => {},
        _ => panic!("Last.fm sends nothing: the look-up ends"),
    }
}

#[test]
fn a_found_cover_ends_the_look_up() {
    let m = AlbumArtManager::new();
    let mut s = fetch_album_art(&m, "Song", "", "", "netease");
    let (k, u, _) = expect_get(s.start());
    assert_eq!(k, FetcherKind::Netease);
    assert!(u.contains("&s=Song&type=1"));
    match s.on_reply(Some(netease_reply(100))) {
        FetchStep::Done(Some(p)) => {
            assert_eq!(p.source, "netease");
            assert_eq!(p.url, Some("https://p2.music.126.net/6y-UleORITEDbvrOLV0Q8A==/1/100.jpg?param=200y200".to_string()));
            assert!(p.base64.is_none());
        },
        _ => panic!("expected a cover"),
    }
    let mut blank = fetch_album_art(&m, "  ", "x", "", "");
    assert!(matches!(blank.start(), FetchStep::Done(None)));
    let _ = AlbumArtManager::default();
}

#[test]
fn registered_fetchers_are_asked_after_the_platforms() {
    let mut m = AlbumArtManager::new();
    assert_eq!(register_fetcher(&mut m), FetcherKind::Plugin(0));
    assert_eq!(register_fetcher(&mut m), FetcherKind::Plugin(1));
    let mut s = fetch_album_art(&m, " Song ", "Art", " Alb ", "netease");
    let mut asked = Vec::new();
    let mut step = s.start();
    let found = loop {
        match step {
            FetchStep::Get { kind, .. } => {
                asked.push(kind);
                step = s.on_reply(None);
            },
            FetchStep::Plugin { id, title, artist, album } => {
                asked.push(FetcherKind::Plugin(id));
                assert_eq!((title.as_str(), artist.as_str(), album.as_str()), ("Song", "Art", " Alb "));
                let result = if id == 1 {
                    Some(AlbumArtPayload { url: Some("https://p/1.jpg".into()), base64: None, source: "mine".into() })
                } else {
                    None
                };
                step = s.on_plugin_result(result);
            },
            FetchStep::Done(r) => break r,
        }
    };
    assert_eq!(
        asked,
        vec![
            FetcherKind::Netease,
            FetcherKind::QQMusic,
            FetcherKind::Spotify,
            FetcherKind::ITunes,
            FetcherKind::Plugin(0),
            FetcherKind::Plugin(1),
        ]
    );
    let found = found.expect("the second plugin found a cover");
    assert_eq!(found.source, "mine");
    assert_eq!(found.url, Some("https://p/1.jpg".to_string()));
}

#[test]
fn downloads_are_attached() {
    let p = AlbumArtPayload { url: Some("u".into()), base64: None, source: "itunes".into() };
    let q = with_download(p, Some("AAAA".into()));
    assert_eq!(q.base64, Some("AAAA".to_string()));
    let r = with_download(q, None);
    assert_eq!(r.base64, Some("AAAA".to_string()));
}

#[test]
fn netease_cover_addresses_are_made_https_and_sized() {
    assert_eq!(add_hd_param("http://p1.music.126.net/a.jpg"), "https://p1.music.126.net/a.jpg?param=512y512");
    assert_eq!(add_hd_param("https://p1/a.jpg?param=100y100"), "https://p1/a.jpg?param=100y100");
    let once = add_hd_param("http://x/y.jpg");
    assert_eq!(add_hd_param(&once), once);
}

#[test]
fn netease_pic_urls() {
    let v = obj(vec![("result", obj(vec![("songs", JsonValue::Array(vec![obj(vec![
        ("album", obj(vec![("picUrl", st("  "))])),
        ("al", obj(vec![("picUrl", st("http://x.jpg"))])),
    ])]))]))]);
    assert_eq!(extract_pic_url(&v), Some("http://x.jpg".to_string()));
    assert_eq!(extract_pic_url(&JsonValue::Null), None);
    assert!(status_ok(200));
    assert!(status_ok(299));
    assert!(!status_ok(302));
    assert!(!status_ok(199));
}

#[test]
fn netease_cover_search_tries_three_endpoints() {
    let mut s = fetch_netease_cover_url(" T ", "A B");
    match s.start() {
        CoverStep::Get { url } => assert_eq!(url, "https://music.163.com/api/search/pc?s=T%20A%20B&type=1&limit=1"),
        _ => panic!("expected a request"),
    }
    match s.on_reply(None) {
        CoverStep::Get { url } => assert!(url.starts_with("https://music.163.com/api/search/get?s=")),
        _ => panic!("expected a request"),
    }
    match s.on_reply(Some(JsonValue::Null)) {
        CoverStep::Get { url } => assert!(url.starts_with("https://music.163.com/api/cloudsearch/pc?s=")),
        _ => panic!("expected a request"),
    }
    assert!(matches!(s.on_reply(None), CoverStep::Done(None)));
    let mut found = fetch_netease_cover_url("T", "");
    let _ = found.start();
    let v = obj(vec![("result", obj(vec![("songs", JsonValue::Array(vec![obj(vec![("al", obj(vec![("picUrl", st("http://p/c.jpg"))]))])]))]))]);
    match found.on_reply(Some(v)) {
        CoverStep::Done(Some(u)) => assert_eq!(u, "https://p/c.jpg?param=512y512"),
        _ => panic!("expected the cover"),
    }
    let mut blank = fetch_netease_cover_url("", "A");
    assert!(matches!(blank.start(), CoverStep::Done(None)));
}

#[test]
fn cover_payloads() {
    let p = cover_payload("t".into(), "a".into(), None);
    assert_eq!(p.source, "netease");
    let e = empty_cover_payload();
    assert_eq!((e.title.as_str(), e.artist.as_str(), e.url.is_none(), e.source.as_str()), ("", "", true, "netease"));
}

#[test]
fn the_local_player_status() {
    let data = |name: Option<&str>, status: Option<i32>| NcmData {
        progress: Some(-5),
        duration: Some(180_000),
        id: Some(7),
        name: name.map(|s| s.to_string()),
        artist: None,
        status,
    };
    let s = get_player_status(Some(NcmResponse { data: Some(data(Some("Song"), Some(1))) })).unwrap();
    assert_eq!(s.progress_ms, 0);
    assert_eq!(s.duration_ms, 180_000);
    assert_eq!(s.id, Some(7));
    assert_eq!(s.title, "Song");
    assert_eq!(s.artist, "");
    assert!(s.playing);
    let paused = get_player_status(Some(NcmResponse { data: Some(data(Some("Song"), None)) })).unwrap();
    assert!(!paused.playing);
    assert!(get_player_status(Some(NcmResponse { data: Some(data(Some("  "), Some(1))) })).is_none());
    assert!(get_player_status(Some(NcmResponse { data: None })).is_none());
    assert!(get_player_status(None).is_none());
}

#[test]
fn key_combinations() {
    assert_eq!(combo_events(&[1, 2, 3]), vec![(1, false), (2, false), (3, false), (3, true), (2, true), (1, true)]);
    assert_eq!(combo_events(&[]), Vec::<(u16, bool)>::new());
    assert_eq!(screenshot_combo(), vec![(0x5B, false), (0x10, false), (0x53, false), (0x53, true), (0x10, true), (0x5B, true)]);
    assert_eq!(quick_settings_combo(), vec![(0x5B, false), (0x41, false), (0x41, true), (0x5B, true)]);
    assert_eq!(media_key("play_pause"), Some(0xB3));
    assert_eq!(media_key("next"), Some(0xB0));
    assert_eq!(media_key("prev"), Some(0xB1));
    assert_eq!(media_key("stop"), None);
}

#[test]
fn opening_apps() {
    assert!(shell_execute_succeeded(33));
    assert!(!shell_execute_succeeded(32));
    assert_eq!(
        expand_env_path("%LOCALAPPDATA%\\a;%ProgramFiles%\\b;%ProgramFiles(x86)%\\c", Some("L"), Some("P"), None),
        "L\\a;P\\b;%ProgramFiles(x86)%\\c"
    );
    assert_eq!(expand_env_path("%ProgramFiles(x86)%\\c", None, Some("P"), Some("X")), "X\\c");
    let (uris, exes) = now_playing_launch("CloudMusic");
    assert_eq!(uris, vec!["orpheus://", "cloudmusic://"]);
    assert_eq!(exes.len(), 4);
    let (u2, e2) = now_playing_launch("chrome");
    assert_eq!(u2, vec!["chrome://newtab"]);
    assert!(e2.is_empty());
    let (u3, e3) = now_playing_launch("unknown");
    assert!(u3.is_empty() && e3.is_empty());
}

#[test]
fn accent_colour_and_window() {
    assert_eq!(argb_to_hex(0xC41E_90FF), "#1e90ff");
    assert_eq!(argb_to_hex(0), "#000000");
    assert_eq!(island_style(0x14CF_0000), 0x1400_0000);
    assert_eq!(island_ex_style(0x0004_0100), 0x0808_0180);
    assert_eq!(island_ex_style(island_ex_style(0x0004_0100)), 0x0808_0180);
    assert_eq!(island_x(1920), 760);
    assert_eq!(island_x(399), 0);
    assert_eq!(island_x(0), -200);
}

#[test]
fn keys_volume_and_settings() {
    assert_eq!(hook_key(0, 0x0100, 0x14), Some(HookKey::CapsLock));
    assert_eq!(hook_key(0, 0x0104, 0xAD), Some(HookKey::Volume { mute: true }));
    assert_eq!(hook_key(0, 0x0100, 0xAF), Some(HookKey::Volume { mute: false }));
    assert_eq!(hook_key(-1, 0x0100, 0x14), None);
    assert_eq!(hook_key(0, 0x0101, 0x14), None);
    assert_eq!(hook_key(0, 0x0100, 0x41), None);
    assert!(matches!(caps_lock_event(false), SystemEvent::CapsLock { on: true }));
    assert!(matches!(volume_key_event(true, None), SystemEvent::VolumeChange { percent: 50, muted: true }));
    assert!(matches!(volume_key_event(true, Some((30, false))), SystemEvent::VolumeChange { percent: 30, muted: false }));
    assert_eq!(volume_target(150), 100);
    assert_eq!(volume_target(42), 42);
    let f = get_focus_assist();
    assert!(!f.supported && f.on.is_none());
    assert!(!set_focus_assist(true));
}

#[test]
fn radios() {
    assert_eq!(to_bool_state(RadioState::On), Some(true));
    assert_eq!(to_bool_state(RadioState::Off), Some(false));
    assert_eq!(to_bool_state(RadioState::Disabled), None);
    assert_eq!(to_target_state(true), RadioState::On);
    let list = vec![
        (Some(RadioKind::WiFi), Some(RadioState::On)),
        (Some(RadioKind::Bluetooth), Some(RadioState::Off)),
        (None, Some(RadioState::On)),
        (Some(RadioKind::WiFi), Some(RadioState::Unknown)),
    ];
    let r = radios_state_from(&list);
    assert_eq!(r.wifi, None);
    assert_eq!(r.bluetooth, Some(false));
    let u = radios_unknown();
    assert!(u.wifi.is_none() && u.bluetooth.is_none());
    assert_eq!(radio_kind_of("wifi"), Some(RadioKind::WiFi));
    assert_eq!(radio_kind_of("bluetooth"), Some(RadioKind::Bluetooth));
    assert_eq!(radio_kind_of("nfc"), None);
    assert_eq!(radio_to_switch(&vec![Some(RadioKind::FM), Some(RadioKind::WiFi), Some(RadioKind::WiFi)], RadioKind::WiFi), Some(1));
    assert_eq!(radio_to_switch(&vec![None], RadioKind::Bluetooth), None);
}

#[test]
fn theme_and_brightness() {
    assert_eq!(theme_mode_from(Some(0)).mode, "dark");
    assert_eq!(theme_mode_from(Some(1)).mode, "light");
    assert_eq!(theme_mode_from(None).mode, "light");
    assert_eq!(theme_mode_unknown().mode, "unknown");
    assert_eq!(theme_mode_value("light"), Some(1));
    assert_eq!(theme_mode_value("dark"), Some(0));
    assert_eq!(theme_mode_value("auto"), None);
    assert!(theme_set_succeeded(false, true));
    assert!(!theme_set_succeeded(false, false));
    let b = brightness_from_wmi(Some(120)).unwrap();
    assert!(b.supported && b.percent == 100);
    assert!(brightness_from_wmi(None).is_none());
    let d = brightness_from_ddc(Some(40));
    assert!(d.supported && d.percent == 40);
    let n = brightness_from_ddc(None);
    assert!(!n.supported && n.percent == 50);
    let u = brightness_unsupported();
    assert!(!u.supported && u.percent == 50);
    assert_eq!(brightness_target(200), 100);
    assert_eq!(
        wmi_brightness_script(70),
        "(Get-WmiObject -Namespace root/WMI -Class WmiMonitorBrightnessMethods).WmiSetBrightness(1,70) | Out-Null"
    );
    assert!(any_succeeded(&vec![false, true]));
    assert!(!any_succeeded(&vec![false, false]));
    assert!(!any_succeeded(&vec![]));
}

#[test]
fn bookmarks() {
    assert_eq!(prepare_bookmark("  https://a.b  ", "  "), Ok(("https://a.b".to_string(), "https://a.b".to_string())));
    assert_eq!(prepare_bookmark("https://a.b", " Title "), Ok(("https://a.b".to_string(), "Title".to_string())));
    assert_eq!(prepare_bookmark("   ", "t"), Err("url 为空".to_string()));
    let b = added_bookmark(3, "u".into(), "t".into(), 1000);
    assert_eq!((b.id, b.url.as_str(), b.title.as_str(), b.created_at), (3, "u", "t", 1000));
    assert_eq!(bookmark_key("  x "), Some("x".to_string()));
    assert_eq!(bookmark_key("   "), None);
    assert!(bookmark_count_exists(1));
    assert!(!bookmark_count_exists(0));
}

#[test]
fn a_source_naming_two_platforms_asks_the_first_and_skips_the_second() {
    let mut s = AlbumArtManager::new().fetch("Song", "", "", "qqmusic+spotify");
    let mut asked = Vec::new();
    let mut step = s.start();
    loop {
        match step {
            FetchStep::Get { kind, .. } => {
                asked.push(kind);
                step = s.on_reply(None);
            },
            FetchStep::Plugin { .. } => panic!("no plugin was registered"),
            FetchStep::Done(r) => {
                assert!(r.is_none());
                break;
            },
        }
    }
    assert_eq!(asked, vec![FetcherKind::QQMusic, FetcherKind::Netease, FetcherKind::ITunes]);
}

#[test]
fn sources_name_platforms() {
    assert!(AlbumArtManager::source_matches("netease", "orpheus.exe"));
    assert!(AlbumArtManager::source_matches("netease", "cloudmusic"));
    assert!(AlbumArtManager::source_matches("qqmusic", "qqmusic.exe"));
    assert!(!AlbumArtManager::source_matches("itunes", "itunes"));
    assert!(!AlbumArtManager::source_matches("spotify", "chrome"));
    let h = island_core::netease::request_headers();
    assert_eq!(h[3], ("Cookie", "os=pc; appver=2.0.0; channel=netease"));
}
