use island_core::notifications::{
    app_display_name, debug_flag_value, is_wechat_app, logo_read_len, preview_short, preview_toast_text,
    toast_lines, logo_base64, poll_non_wechat_toast, with_icon, AccessStatus, AppMeta, ToastRow, ToastState, ToastTexts,
};
use island_core::wechat::{
    classify_wechat_title, is_child_style, is_wechat_process, pick_wechat_hint, signature,
    wechat_hint_for_window, WeChatDebounce, WeChatHint, WindowSnapshot,
};

fn meta(aumid: Option<&str>, name: Option<&str>) -> AppMeta {
    AppMeta {
        aumid: aumid.map(|s| s.to_string()),
        display_name: name.map(|s| s.to_string()),
        description: None,
        package_family: None,
        app_id: None,
    }
}

fn texts(lines: &[&str]) -> ToastTexts {
    ToastTexts { generic: Some(lines.iter().map(|s| s.to_string()).collect()), bindings: vec![] }
}

#[test]
fn wechat_is_recognised_by_its_ids() {
    assert!(is_wechat_app(&meta(Some("Tencent.WeChat"), None)));
    assert!(is_wechat_app(&meta(None, Some("微信"))));
    assert!(!is_wechat_app(&meta(Some("Tencent.QQ"), Some("QQ"))));
}

#[test]
fn display_names_fall_back_in_order() {
    assert_eq!(app_display_name(&meta(None, Some("QQ"))), "QQ");
    assert_eq!(app_display_name(&meta(Some("C:\\Apps\\Teams!Main"), Some("  "))), "Main");
    assert_eq!(app_display_name(&meta(None, None)), "应用");
    let pf = AppMeta {
        aumid: None,
        display_name: None,
        description: None,
        package_family: Some("Pkg.Family".to_string()),
        app_id: None,
    };
    assert_eq!(app_display_name(&pf), "Pkg.Family");
}

#[test]
fn toast_title_and_body() {
    assert_eq!(
        toast_lines(&texts(&["Title", " ", "Line1", "Line2"])),
        Some(("Title".to_string(), "Line1 Line2".to_string()))
    );
    let from_binding = ToastTexts {
        generic: Some(vec!["  ".to_string()]),
        bindings: vec![vec![], vec!["Only".to_string()]],
    };
    assert_eq!(toast_lines(&from_binding), Some(("Only".to_string(), String::new())));
    assert_eq!(toast_lines(&ToastTexts { generic: None, bindings: vec![] }), None);
}

#[test]
fn previews() {
    assert_eq!(preview_toast_text(&None), "(无 Toast 文本/绑定)");
    assert_eq!(preview_toast_text(&Some(texts(&["A", "B"]))), "A | B");
    assert_eq!(preview_toast_text(&Some(texts(&["A"]))), "A");
    let long: String = std::iter::repeat('a').take(250).collect();
    let short = preview_short(&long);
    assert_eq!(short.chars().count(), 241);
    assert!(short.ends_with('…'));
    assert_eq!(preview_short("abc"), "abc");
}

#[test]
fn debug_flags_and_logo_sizes() {
    assert!(debug_flag_value("TRUE"));
    assert!(debug_flag_value("1"));
    assert!(debug_flag_value("all"));
    assert!(!debug_flag_value("0"));
    assert_eq!(logo_read_len(0), None);
    assert_eq!(logo_read_len(1024), Some(1024));
    assert_eq!(logo_read_len(600 * 1024), None);
}

#[test]
fn access_is_requested_once_and_denial_logged_once() {
    let mut st = ToastState::new();
    let a = st.on_access_status(AccessStatus::Denied);
    assert!(!a.proceed && a.log_denied && a.request_access);
    let b = st.on_access_status(AccessStatus::Denied);
    assert!(!b.proceed && !b.log_denied && !b.request_access);
    let c = st.on_access_status(AccessStatus::Allowed);
    assert!(c.proceed);
}

fn row(id: u32, time: i64, app: AppMeta, lines: &[&str]) -> ToastRow {
    ToastRow { id, universal_time: time, app: Some(app), texts: Some(texts(lines)) }
}

#[test]
fn first_poll_only_records_later_polls_report_each_toast_once() {
    let mut st = ToastState::new();
    let r1 = row(1, 100, meta(Some("Tencent.QQ"), Some("QQ")), &["old"]);
    assert!(poll_non_wechat_toast(&mut st, &vec![r1]).is_none());
    let rows = vec![
        row(1, 100, meta(Some("Tencent.QQ"), Some("QQ")), &["old"]),
        row(2, 200, meta(Some("Tencent.QQ"), Some("QQ")), &["Alice", "hi", "there"]),
    ];
    let pick = poll_non_wechat_toast(&mut st, &rows).unwrap();
    assert_eq!(pick.row, 1);
    assert_eq!(pick.hint.app_name, "QQ");
    assert_eq!(pick.hint.aumid, Some("Tencent.QQ".to_string()));
    assert_eq!(pick.hint.title, "Alice");
    assert_eq!(pick.hint.body, "hi there");
    assert!(pick.fetch_icon);
    assert!(poll_non_wechat_toast(&mut st, &rows).is_none());
}

#[test]
fn wechat_toasts_are_skipped() {
    let mut st = ToastState::new();
    assert!(poll_non_wechat_toast(&mut st, &vec![row(9, 1, meta(None, Some("QQ")), &["x"])]).is_none());
    let rows = vec![
        row(2, 300, meta(Some("Tencent.WeChat"), Some("微信")), &["wx"]),
        row(3, 200, meta(Some("Tencent.QQ"), Some("QQ")), &["qq"]),
    ];
    let pick = poll_non_wechat_toast(&mut st, &rows).unwrap();
    assert_eq!(pick.row, 1);
    assert_eq!(pick.hint.title, "qq");
}

#[test]
fn wechat_processes_and_titles() {
    assert!(is_wechat_process("C:\\Program Files\\Tencent\\WeChat\\WeChat.exe"));
    assert!(is_wechat_process("Weixin.exe"));
    assert!(!is_wechat_process("QQ.exe"));
    assert_eq!(classify_wechat_title("微信"), None);
    assert_eq!(classify_wechat_title("微信(3)"), Some("message"));
    assert_eq!(classify_wechat_title("张三 邀请你语音通话"), Some("call"));
    assert_eq!(classify_wechat_title("Voice Call"), Some("call"));
    assert_eq!(classify_wechat_title("  "), None);
    assert_eq!(classify_wechat_title("a"), None);
    assert_eq!(classify_wechat_title("张三"), Some("message"));
    assert!(is_child_style(0x4000_0000));
    assert!(!is_child_style(0x1000_0000));
}

#[test]
fn window_hints_and_picking() {
    let w = WindowSnapshot {
        is_child: false,
        visible: true,
        exe: Some("D:\\WeChat\\WeChat.exe".to_string()),
        title: Some(" 视频通话 ".to_string()),
        class_name: "VoipWnd".to_string(),
    };
    let h = wechat_hint_for_window(&w).unwrap();
    assert_eq!(h.kind, "call");
    assert_eq!(h.title, "视频通话");
    assert_eq!(h.source, "window_enum");
    assert_eq!(h.body, "微信 · 通话/来电");
    let hidden = WindowSnapshot { visible: false, ..w };
    assert!(wechat_hint_for_window(&hidden).is_none());

    let hint = |kind: &str, title: &str| WeChatHint {
        source: "window_enum".into(),
        title: title.into(),
        class_name: String::new(),
        kind: kind.into(),
        body: String::new(),
    };
    assert_eq!(pick_wechat_hint(&vec![hint("message", "abc"), hint("call", "x"), hint("message", "abcdef")]), Some(1));
    assert_eq!(pick_wechat_hint(&vec![hint("message", "ab"), hint("message", "abcd"), hint("message", "wxyz")]), Some(2));
    assert_eq!(pick_wechat_hint(&vec![]), None);
    let sig: String = signature(&hint("call", "t")).into_iter().collect();
    assert_eq!(sig, "call|t|window_enum");
}

#[test]
fn debounce_suppresses_a_quick_repeat_only() {
    let hint = |title: &str| WeChatHint {
        source: "window_enum".into(),
        title: title.into(),
        class_name: String::new(),
        kind: "message".into(),
        body: String::new(),
    };
    let mut d = WeChatDebounce::new(10_000);
    assert!(d.try_emit(hint("a")).is_some());
    assert!(d.try_emit(hint("a")).is_none());
    assert!(d.try_emit(hint("b")).is_some());
    let mut quick = WeChatDebounce::new(0);
    assert!(quick.try_emit(hint("a")).is_some());
    assert!(quick.try_emit(hint("a")).is_some());
}

#[test]
fn logos_are_attached_as_base64() {
    assert_eq!(logo_base64(&[0xff, 0x00]), "/wA=");
    let h = island_core::notifications::AppToastHint {
        app_name: "QQ".into(),
        aumid: None,
        title: "t".into(),
        body: "b".into(),
        icon_base64: None,
    };
    let with = with_icon(h, Some("/wA=".into()));
    assert_eq!(with.icon_base64, Some("/wA=".to_string()));
    assert_eq!(with.title, "t");
}

#[test]
fn only_weixin_and_wechat_images_count() {
    assert!(is_wechat_process("C:/Program Files/Tencent/Weixin/Weixin.exe"));
    assert!(!is_wechat_process("C:\\Tencent\\WeChatAppEx.exe"));
}

#[test]
fn debounce_window_is_decided_by_elapsed_time() {
    let hint = |title: &str, source: &str, body: &str| WeChatHint {
        source: source.into(),
        title: title.into(),
        class_name: String::new(),
        kind: "message".into(),
        body: body.into(),
    };
    let t0 = std::time::Instant::now();
    let mut d = WeChatDebounce::new(10_000);
    assert!(d.emit_after(hint("a", "window_enum", ""), 0, t0).is_some());
    assert!(d.emit_after(hint("a", "window_enum", ""), 9_999, t0).is_none());
    // a suppressed repeat does not extend the window
    assert!(d.emit_after(hint("a", "window_enum", ""), 10_000, t0).is_some());
    assert!(d.emit_after(hint("a", "window_enum", "other body"), 5, t0).is_none());
    // the body is part of a system notification's signature
    let mut n = WeChatDebounce::new(10_000);
    assert!(n.emit_after(hint("a", "user_notification", "one"), 0, t0).is_some());
    assert!(n.emit_after(hint("a", "user_notification", "two"), 5, t0).is_some());
    assert!(n.emit_after(hint("a", "user_notification", "two"), 5, t0).is_none());
}

#[test]
fn empty_listing_notice_every_ten_seconds() {
    let t0 = std::time::Instant::now();
    let mut e = island_core::notifications::EmptyNotice::new();
    assert!(e.due_after(0, t0));
    assert!(!e.due_after(9_999, t0));
    assert!(e.due_after(10_000, t0));
    e.reset();
    assert!(e.due_after(1, t0));
    assert!(island_core::notifications::EmptyNotice::new().due());
}
