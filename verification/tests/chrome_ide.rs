use island_core::chrome::{
    build_chrome_payload, chrome_audio_aggregate, chrome_mute_targets, chrome_page_title,
    depth_shallower_bonus, exe_base_name_lower, is_chrome_exe, omnibox_accessibility_bonus,
    postprocess_chrome_url, score_url_candidate, should_skip_url_value_field, strip_chrome_suffix,
    unwrap_google_redirect_url, AudioSessionRead, ChromeFocusSlot, ChromeUrlCache, SessionVolume,
    UrlSearch,
};
use island_core::ide::{
    build_ide_payload, classify_exe, ide_kind_label, is_junk_context, name_hints_attention,
    pick_context_line, strip_ide_title, IdeFocusSlot, IdeKind, IdeTracker, ScrapeCache, SurfaceWalk,
    TrackedWindow,
};

#[test]
fn url_candidates_are_scored() {
    assert_eq!(score_url_candidate("https://example.com"), Some(2019));
    assert_eq!(score_url_candidate("  http://a.b/c "), Some(1512));
    assert_eq!(score_url_candidate("chrome://settings"), Some(1217));
    assert_eq!(score_url_candidate("www.example.com/path"), Some(140));
    assert_eq!(score_url_candidate("Search Google or type a URL"), None);
    assert_eq!(score_url_candidate("abc"), None);
    assert_eq!(score_url_candidate("just some words"), None);
}

#[test]
fn omnibox_names_and_depth() {
    assert!(should_skip_url_value_field("Search suggestions"));
    assert!(!should_skip_url_value_field("Address and search bar"));
    assert_eq!(omnibox_accessibility_bonus("Address and search bar", "OmniboxViewViews"), 22_000);
    assert_eq!(omnibox_accessibility_bonus("地址和搜索栏", ""), 12_000);
    assert_eq!(omnibox_accessibility_bonus("Other", "Other"), 0);
    assert_eq!(depth_shallower_bonus(0), 560);
    assert_eq!(depth_shallower_bonus(5), 490);
    assert_eq!(depth_shallower_bonus(50), 0);
}

#[test]
fn google_redirects_are_unwrapped() {
    assert_eq!(
        unwrap_google_redirect_url("https://www.google.com/url?sa=t&q=https%3A%2F%2Fexample.com%2Fa&x=1"),
        Some("https://example.com/a".to_string())
    );
    assert_eq!(unwrap_google_redirect_url("https://example.com/url?q=https://x.y"), None);
    assert_eq!(unwrap_google_redirect_url("https://www.google.com/url?q=notaurl"), None);
    assert_eq!(
        postprocess_chrome_url(Some("https://www.google.com/url?q=http://a.b".to_string())),
        Some("http://a.b".to_string())
    );
    assert_eq!(postprocess_chrome_url(Some("https://example.com".to_string())), Some("https://example.com".to_string()));
    assert_eq!(postprocess_chrome_url(None), None);
}

#[test]
fn chrome_titles_and_images() {
    assert_eq!(strip_chrome_suffix("Page - Google Chrome"), "Page");
    assert_eq!(strip_chrome_suffix("  - Google Chrome"), "Chrome");
    assert_eq!(strip_chrome_suffix("A - B - Chromium"), "A - B");
    assert_eq!(chrome_page_title(None), "Chrome");
    assert_eq!(chrome_page_title(Some("New Tab - Google Chrome")), "New Tab");
    assert_eq!(exe_base_name_lower("C:\\Program Files\\Google\\Chrome\\Application\\CHROME.EXE"), "chrome.exe");
    assert!(is_chrome_exe("chrome.exe"));
    assert!(is_chrome_exe("chromium.exe"));
    assert!(!is_chrome_exe("msedge.exe"));
}

#[test]
fn the_best_address_wins() {
    let mut s = UrlSearch::new();
    s.visit(5, "Address and search bar", "OmniboxViewViews", Some("https://example.com"));
    s.visit(2, "Link", "", Some("https://example.org/a/much/longer/address"));
    s.visit(1, "Search suggestions", "", Some("https://suggested.example"));
    s.visit(1, "Name only", "", None);
    assert_eq!(s.result(), Some("https://example.com".to_string()));
    let mut tie = UrlSearch::new();
    tie.visit(3, "x", "", Some("https://b.com"));
    tie.visit(3, "x", "", Some("https://a.com"));
    assert_eq!(tie.result(), Some("https://a.com".to_string()));
}

fn audio(path: &str, grouping: u128, muted: Option<bool>, active: bool) -> AudioSessionRead {
    AudioSessionRead {
        fetched: true,
        system_sounds: false,
        exe_path: Some(path.to_string()),
        grouping: Some(grouping),
        volume: Some(SessionVolume { muted, level_above_threshold: true, active }),
    }
}

#[test]
fn chrome_audio_sessions() {
    let ss = vec![
        audio("C:\\Chrome\\chrome.exe", 7, Some(true), true),
        audio("C:\\Chrome\\chrome.exe", 7, Some(false), true),
        audio("C:\\Other\\app.exe", 8, Some(false), true),
    ];
    assert_eq!(chrome_audio_aggregate(&ss), (true, true, false));
    assert_eq!(chrome_mute_targets(&ss), vec![0]);
    let muted = vec![audio("chrome.exe", 1, Some(true), true)];
    assert_eq!(chrome_audio_aggregate(&muted), (true, false, true));
    assert_eq!(chrome_audio_aggregate(&vec![]), (false, false, false));
}

#[test]
fn chrome_payload_is_sent_only_when_it_changes() {
    let mut slot = ChromeFocusSlot::new();
    let p = build_chrome_payload("Page".to_string(), Some("https://a.b".to_string()), (true, false, false));
    assert_eq!(p.page_title, "Page");
    assert!(p.has_sessions);
    assert!(slot.emit_if_changed(Some(p)).is_some());
    let same = build_chrome_payload("Page".to_string(), Some("https://a.b".to_string()), (true, false, false));
    assert!(slot.emit_if_changed(Some(same)).is_none());
    assert!(slot.emit_if_changed(None).is_some());
    assert!(slot.emit_if_changed(None).is_none());
}

#[test]
fn chrome_address_cache() {
    let mut c = ChromeUrlCache::new();
    let now = c.begin(42, "Page").expect("first read is due");
    c.store(42, now, Some("https://www.google.com/url?q=https://x.y".to_string()));
    assert_eq!(c.current(), Some("https://x.y".to_string()));
    assert!(c.begin(43, "Page").is_some());
    assert!(c.begin(42, "Other page").is_some());
}

#[test]
fn editors_are_classified_and_labelled() {
    assert_eq!(classify_exe("cursor.exe"), Some(IdeKind::Cursor));
    assert_eq!(classify_exe("code.exe"), Some(IdeKind::VsCode));
    assert_eq!(classify_exe("notepad.exe"), None);
    assert_eq!(ide_kind_label(IdeKind::Cursor), ("cursor", "Cursor"));
    assert_eq!(ide_kind_label(IdeKind::VsCode), ("vscode", "VS Code"));
}

#[test]
fn editor_titles_lose_their_suffix() {
    assert_eq!(strip_ide_title("main.rs - myproj - Cursor", IdeKind::Cursor), "main.rs - myproj");
    assert_eq!(strip_ide_title("lib.rs – proj – Visual Studio Code", IdeKind::VsCode), "lib.rs – proj");
    assert_eq!(strip_ide_title(" - Visual Studio Code", IdeKind::VsCode), "VS Code");
    assert_eq!(strip_ide_title("Cursor", IdeKind::Cursor), "Cursor");
    assert_eq!(strip_ide_title("x - Code", IdeKind::VsCode), "x");
}

#[test]
fn attention_and_junk() {
    assert!(name_hints_attention("Accept all"));
    assert!(name_hints_attention("Run Command"));
    assert!(name_hints_attention("运行命令"));
    assert!(!name_hints_attention("Open file"));
    assert!(is_junk_context("short", ""));
    assert!(!is_junk_context("This is a sufficiently long line of text", "title"));
    assert!(is_junk_context("Open something here", ""));
    assert!(is_junk_context("  Visual Studio Code  ", ""));
    assert!(is_junk_context("the window title itself", "the window title itself"));
}

#[test]
fn the_longest_context_line_is_picked() {
    let cands = vec![
        "short".to_string(),
        "A fairly long context line number one!!".to_string(),
        "  Another context line that is even longer than that  ".to_string(),
        "Another context line that is even longer than THAT".to_string(),
    ];
    assert_eq!(
        pick_context_line(&cands, "title"),
        Some("Another context line that is even longer than that".to_string())
    );
    let long: String = std::iter::repeat('x').take(200).collect();
    let picked = pick_context_line(&vec![long], "").unwrap();
    assert_eq!(picked.chars().count(), 160);
    assert!(picked.ends_with('…'));
    assert_eq!(pick_context_line(&vec!["tiny".to_string()], ""), None);
}

#[test]
fn a_tree_walk_gathers_candidates_and_attention() {
    let mut w = SurfaceWalk::new("proj".to_string());
    assert!(w.enter(0));
    assert_eq!(w.nodes, 1);
    assert!(!w.enter(49));
    w.visit_name("Accept", true);
    assert!(w.needs_attention);
    w.visit_name("  A reasonably long message from the agent  ", false);
    w.visit_name("short", false);
    w.visit_value("value text that is long enough to count");
    assert_eq!(w.cands.len(), 2);
    let (ctx, needs) = w.finish(true);
    assert_eq!(ctx, Some("A reasonably long message from the agent".to_string()));
    assert!(needs);
    let mut full = SurfaceWalk::new(String::new());
    for _ in 0..650 {
        assert!(full.enter(1));
    }
    assert!(!full.enter(1));
}

#[test]
fn tree_readings_are_cached_per_window() {
    let mut c = ScrapeCache::new();
    assert!(c.cached(1).is_none());
    c.store(1, std::time::Instant::now(), Some("line".to_string()), true);
    assert_eq!(c.cached(1), Some((Some("line".to_string()), true)));
    assert!(c.cached(2).is_none());
}

#[test]
fn editor_payloads_and_tracking() {
    let p = build_ide_payload(IdeKind::Cursor, "main.rs - proj - Cursor", (None, false), false);
    assert_eq!(p.app_id, "cursor");
    assert_eq!(p.display_name, "Cursor");
    assert_eq!(p.window_title, "main.rs - proj");
    assert!(!p.needs_attention);
    let q = build_ide_payload(IdeKind::VsCode, "Allow? - Code", (Some("ctx".to_string()), false), true);
    assert!(q.needs_attention);
    assert!(q.minimized);
    let mut slot = IdeFocusSlot::new();
    assert!(slot.emit_if_changed(Some(p)).is_some());
    let p2 = build_ide_payload(IdeKind::Cursor, "main.rs - proj - Cursor", (None, false), false);
    assert!(slot.emit_if_changed(Some(p2)).is_none());

    let mut t = IdeTracker::new();
    let none = TrackedWindow { alive: true, kind: None, minimized: false };
    assert_eq!(t.pick_window(5, None, none), None);
    assert_eq!(t.pick_window(5, Some(IdeKind::Cursor), TrackedWindow { alive: true, kind: None, minimized: false }), Some((5, IdeKind::Cursor, false)));
    assert_eq!(t.focus_target(), Some(5));
    let open = TrackedWindow { alive: true, kind: Some(IdeKind::Cursor), minimized: false };
    assert_eq!(t.pick_window(9, None, open), None);
    assert_eq!(t.focus_target(), Some(5));
    let mini = TrackedWindow { alive: true, kind: Some(IdeKind::Cursor), minimized: true };
    assert_eq!(t.pick_window(9, None, mini), Some((5, IdeKind::Cursor, true)));
    let gone = TrackedWindow { alive: false, kind: None, minimized: false };
    assert_eq!(t.pick_window(9, None, gone), None);
    assert_eq!(t.focus_target(), None);
}

#[test]
fn address_reads_are_throttled_per_window_and_title() {
    let t0 = std::time::Instant::now();
    let mut c = ChromeUrlCache::new();
    assert!(c.begin_after(7, "Page", 0, t0).is_some());
    c.store(7, t0, None);
    assert!(c.begin_after(7, "Page", 479, t0).is_none());
    assert!(c.begin_after(7, "Page", 480, t0).is_some());
    c.store(7, t0, None);
    assert!(c.begin_after(7, "Next", 1, t0).is_some());
    assert!(c.begin_after(8, "Next", 1, t0).is_some());
}

#[test]
fn tree_readings_expire() {
    let mut c = ScrapeCache::new();
    c.store(3, std::time::Instant::now(), None, true);
    assert_eq!(c.cached_after(3, 519), Some((None, true)));
    assert!(c.cached_after(3, 520).is_none());
    assert!(c.cached_after(4, 0).is_none());
}
