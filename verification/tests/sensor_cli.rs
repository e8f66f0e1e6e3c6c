use island_core::battery::{battery_from_power_status, get_battery, BatteryInfo};
use island_core::cli::{
    aborted_payload, confirm_answer, done_payload, line_payloads, parse_confirm_line, prepare_command,
    started_payload, stdin_line, submit_outcome, CliRegistry, OutputStream,
};
use island_core::events::SystemEvent;
use island_core::media::MediaInfo;
use island_core::notifications::AppToastHint;
use island_core::sensor::{
    app_toast_event, media_changed, wechat_event, CoverAction, CoverTracker, LowBatteryAlarm,
    SensorState, SharedMedia,
};
use island_core::wechat::WeChatHint;

fn media(title: &str, status: &str, pos: u64) -> MediaInfo {
    MediaInfo {
        title: title.into(),
        artist: "A".into(),
        thumbnail: String::new(),
        accent: "#a0a0a0".into(),
        status: status.into(),
        position_ms: pos,
        duration_ms: 1000,
        source: "spotify".into(),
    }
}

#[test]
fn media_changes_are_detected() {
    assert!(!media_changed(&None, &None));
    assert!(media_changed(&None, &Some(media("t", "playing", 0))));
    assert!(media_changed(&Some(media("t", "playing", 0)), &None));
    assert!(!media_changed(&Some(media("t", "playing", 1200)), &Some(media("t", "playing", 1900))));
    assert!(media_changed(&Some(media("t", "playing", 1900)), &Some(media("t", "playing", 2100))));
    assert!(media_changed(&Some(media("t", "paused", 1900)), &Some(media("t", "paused", 2100))));
    assert!(media_changed(&Some(media("t", "playing", 0)), &Some(media("t", "paused", 0))));
    assert!(media_changed(&Some(media("t", "playing", 0)), &Some(media("u", "playing", 0))));
}

#[test]
fn a_cover_is_asked_for_once_per_song() {
    let mut c = CoverTracker::new();
    assert!(matches!(c.step(&None), CoverAction::Keep));
    match c.step(&Some(media("Song", "playing", 0))) {
        CoverAction::Fetch { title, artist } => {
            assert_eq!(title, "Song");
            assert_eq!(artist, "A");
        },
        _ => panic!("expected a fetch"),
    }
    assert!(matches!(c.step(&Some(media("Song", "paused", 5000))), CoverAction::Keep));
    assert!(matches!(c.step(&Some(media("Other", "playing", 0))), CoverAction::Fetch { .. }));
    assert!(matches!(c.step(&Some(media("   ", "playing", 0))), CoverAction::Clear));
    assert!(matches!(c.step(&None), CoverAction::Keep));
}

#[test]
fn low_battery_alerts() {
    let mut a = LowBatteryAlarm::new();
    assert!(a.check(50, false).is_none());
    assert!(a.check(10, true).is_none());
    assert!(matches!(a.check(15, false), Some(SystemEvent::LowBattery { percent: 15 })));
    assert!(a.check(14, false).is_none());
}

#[test]
fn wechat_and_toast_events() {
    let hint = |kind: &str| WeChatHint {
        source: "window_enum".into(),
        title: "张三".into(),
        class_name: "C".into(),
        kind: kind.into(),
        body: "ignored".into(),
    };
    match wechat_event(hint("call")) {
        Some(SystemEvent::WeChat { source, kind, title, body }) => {
            assert_eq!(source, "window_enum");
            assert_eq!(kind, "call");
            assert_eq!(title, "张三");
            assert_eq!(body, "");
        },
        _ => panic!("expected a WeChat event"),
    }
    assert!(wechat_event(hint("message")).is_some());
    assert!(wechat_event(hint("other")).is_none());
    let t = AppToastHint { app_name: "QQ".into(), aumid: None, title: "t".into(), body: "b".into(), icon_base64: None };
    assert!(matches!(app_toast_event(t), SystemEvent::AppToast { ref app_name, .. } if app_name == "QQ"));
}

#[test]
fn the_sensor_loop_state() {
    let mut s = SensorState::new(None, get_battery());
    let fulls: Vec<bool> = (0..6).map(|_| s.begin_tick()).collect();
    assert_eq!(fulls, vec![true, false, false, false, false, true]);
    assert!(s.on_media(Some(media("t", "playing", 0))).is_some());
    assert!(s.on_media(Some(media("t", "playing", 500))).is_none());
    assert!(matches!(s.on_cover(), CoverAction::Fetch { .. }));
    assert!(matches!(s.on_cover(), CoverAction::Keep));
    assert!(!s.on_battery(BatteryInfo { percent: 100, charging: false }));
    assert!(s.on_battery(BatteryInfo { percent: 99, charging: false }));
    assert!(!s.on_battery(BatteryInfo { percent: 99, charging: false }));
    s.phase = u32::MAX - 1;
    assert!(!s.begin_tick());
    assert!(s.begin_tick());
    assert_eq!(s.phase, 0);
}

#[test]
fn battery_readings() {
    assert_eq!(get_battery(), BatteryInfo { percent: 100, charging: false });
    assert_eq!(battery_from_power_status(255, 1), BatteryInfo { percent: 100, charging: false });
    assert_eq!(battery_from_power_status(42, 1), BatteryInfo { percent: 42, charging: true });
    assert_eq!(battery_from_power_status(42, 0), BatteryInfo { percent: 42, charging: false });
}

#[test]
fn shared_media_cache() {
    let mut m = SharedMedia::new();
    assert!(m.cached().is_none());
    assert!(m.offer(None).is_none());
    assert!(m.media.is_none());
    let r = m.offer(Some(media("t", "playing", 0)));
    assert_eq!(r.unwrap().title, "t");
    assert_eq!(m.cached().unwrap().title, "t");
}

#[test]
fn confirmation_lines() {
    assert_eq!(parse_confirm_line("  ISLAND_CONFIRM: Continue? "), Some("Continue?".to_string()));
    assert_eq!(parse_confirm_line("ISLAND_CONFIRM:   "), None);
    assert_eq!(parse_confirm_line("hello"), None);
    assert_eq!(parse_confirm_line("x ISLAND_CONFIRM: no"), None);
}

#[test]
fn commands_and_payloads() {
    assert_eq!(prepare_command("  dir  "), Ok("dir".to_string()));
    assert_eq!(prepare_command("   "), Err("命令为空".to_string()));
    let s = started_payload(3, "dir".into());
    assert_eq!((s.task_id, s.kind.as_str(), s.text.as_deref(), s.exit_code), (3, "started", Some("dir"), None));
    let lines = line_payloads(3, OutputStream::Stderr, "ISLAND_CONFIRM: go?".into());
    assert_eq!(lines.len(), 2);
    assert_eq!(lines[0].kind, "confirm");
    assert_eq!(lines[0].text.as_deref(), Some("go?"));
    assert_eq!(lines[1].kind, "stderr");
    assert_eq!(lines[1].text.as_deref(), Some("ISLAND_CONFIRM: go?"));
    let plain = line_payloads(3, OutputStream::Stdout, "out".into());
    assert_eq!(plain.len(), 1);
    assert_eq!(plain[0].kind, "stdout");
    let d = done_payload(3, Some(0));
    assert_eq!((d.kind.as_str(), d.text.is_none(), d.exit_code), ("done", true, Some(0)));
    let a = aborted_payload(4);
    assert_eq!((a.task_id, a.kind.as_str(), a.text.as_deref(), a.exit_code), (4, "done", Some("已中止"), Some(-1)));
    assert_eq!(stdin_line("y".into()), "y\n");
    assert_eq!(stdin_line("n\n".into()), "n\n");
    assert_eq!(confirm_answer(true), "y");
    assert_eq!(confirm_answer(false), "n");
}

#[test]
fn task_ids_and_the_running_task() {
    let mut r = CliRegistry::new();
    assert_eq!(r.stdin_target(), Err("没有运行中的 CLI 任务".to_string()));
    let (a, none) = r.start();
    assert_eq!(a, 1);
    assert_eq!(none, None);
    let (b, displaced) = r.start();
    assert_eq!(b, 2);
    assert_eq!(displaced, Some(1));
    r.finish(a);
    assert_eq!(r.stdin_target(), Ok(2));
    assert_eq!(r.abort(), Some(2));
    assert_eq!(r.abort(), None);
    let (c, _) = r.start();
    r.finish(c);
    assert_eq!(r.abort(), None);
}

#[test]
fn a_new_command_stops_the_running_one_first() {
    let mut r = CliRegistry::new();
    assert_eq!(r.begin_spawn("   ").err(), Some("命令为空".to_string()));
    let (a, _) = r.start();
    let plan = r.begin_spawn("  dir ").expect("a command");
    assert_eq!(plan.command, "dir");
    assert_eq!(plan.stop, Some(a));
    assert_eq!(r.abort(), None);
    let (b, displaced) = r.start();
    assert_eq!(b, 2);
    assert_eq!(displaced, None);
}

#[test]
fn lines_for_the_running_task_input() {
    let mut r = CliRegistry::new();
    assert_eq!(r.submit_stdin(true, "y".into()), Err("没有运行中的 CLI 任务".to_string()));
    r.start();
    assert_eq!(r.submit_stdin(false, "y".into()), Err("stdin 不可用".to_string()));
    assert_eq!(r.submit_stdin(true, "y".into()), Ok("y\n".to_string()));
    assert_eq!(r.submit_stdin(true, "n\n".into()), Ok("n\n".to_string()));
    assert_eq!(submit_outcome(Err("broken pipe".into()), None), Err("broken pipe".to_string()));
    assert_eq!(submit_outcome(Ok(()), Some(Err("flush".into()))), Err("flush".to_string()));
    assert_eq!(submit_outcome(Ok(()), Some(Ok(()))), Ok(()));
}

#[test]
fn low_battery_repeats_after_a_minute() {
    let t0 = std::time::Instant::now();
    let mut a = LowBatteryAlarm::new();
    assert!(matches!(a.check_after(12, false, 0, t0), Some(SystemEvent::LowBattery { percent: 12 })));
    assert!(a.check_after(12, false, 59_999, t0).is_none());
    assert!(matches!(a.check_after(11, false, 60_000, t0), Some(SystemEvent::LowBattery { percent: 11 })));
    assert!(a.check_after(11, true, 120_000, t0).is_none());
    assert!(a.check_after(16, false, 120_000, t0).is_none());
}
