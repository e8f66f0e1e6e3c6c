//! The decisions of the sensor loop. Every tick of 100 ms polls toasts,
//! Chrome and the editors; every fifth tick also polls the media, the cover,
//! the battery and WeChat. What changed is sent to the island; events wait in
//! the queue, and each tick shows the one that `EventQueue::take_next` picks.
use crate::battery::BatteryInfo;
use crate::clock::{instant_now, millis_since};
use crate::events::SystemEvent;
use crate::media::{clone_media_opt, media_opt_view, MediaInfo, MediaView};
use crate::notifications::AppToastHint;
use crate::text::{chars_eq, chars_of, eq_str, trim, trim_chars};
use crate::wechat::WeChatHint;
use vstd::prelude::*;

verus! {

pub const SENSOR_TICK_MS: u64 = 100;

pub const SENSOR_FULL_EVERY: u32 = 5;

pub const LOW_BATTERY_PERCENT: u32 = 15;

pub const LOW_BATTERY_REPEAT_MS: u64 = 60_000;

/// Whether the island must be told of new media information: one side has
/// media and the other none, or the title, artist, status or cover changed,
/// or the position moved to another whole second.
pub open spec fn media_changed_view(a: Option<MediaView>, b: Option<MediaView>) -> bool {
    match (a, b) {
        (None, None) => false,
        (Some(x), Some(y)) => {
            ||| x.title != y.title
            ||| x.artist != y.artist
            ||| x.status != y.status
            ||| x.thumbnail != y.thumbnail
            ||| x.position_ms / 1000 != y.position_ms / 1000
        },
        _ => true,
    }
}

fn same_text(a: &String, b: &String) -> (r: bool)
    ensures
        r == (a@ == b@),
{
    let av = chars_of(a.as_str());
    let bv = chars_of(b.as_str());
    chars_eq(av.as_slice(), bv.as_slice())
}

pub fn media_changed(last: &Option<MediaInfo>, now: &Option<MediaInfo>) -> (r: bool)
    ensures
        r == media_changed_view(media_opt_view(*last), media_opt_view(*now)),
{
    match (last, now) {
        (None, None) => false,
        (Some(a), Some(b)) => {
            !same_text(&a.title, &b.title) || !same_text(&a.artist, &b.artist) || !same_text(
                &a.status,
                &b.status,
            ) || !same_text(&a.thumbnail, &b.thumbnail) || a.position_ms / 1000 != b.position_ms
                / 1000
        },
        _ => true,
    }
}

/// Media that was just sent is not sent again.
pub proof fn law_media_unchanged_is_quiet(m: Option<MediaView>)
    ensures
        !media_changed_view(m, m),
{
}

/// What to do about the cover after a media poll.
pub enum CoverAction {
    /// Look the cover of this song up (on a worker) and send what is found.
    Fetch { title: String, artist: String },
    /// Nothing plays any more: send an empty cover.
    Clear,
    /// The cover already asked for still stands.
    Keep,
}

/// The song whose cover was last asked for.
pub struct CoverTracker {
    key: Option<(String, String)>,
}

impl CoverTracker {
    pub closed spec fn key_view(&self) -> Option<(Seq<char>, Seq<char>)> {
        match self.key {
            Some((t, a)) => Some((t@, a@)),
            None => None,
        }
    }

    pub fn new() -> (c: Self)
        ensures
            c.key_view() is None,
    {
        CoverTracker { key: None }
    }

    /// A song with a title that is not blank has its cover asked for once,
    /// until another song plays; when none plays, an empty cover is sent once.
    pub fn step(&mut self, current: &Option<MediaInfo>) -> (r: CoverAction)
        ensures
            match media_opt_view(*current) {
                Some(m) if trim(m.title).len() > 0 => if old(self).key_view() != Some(
                    (m.title, m.artist),
                ) {
                    r matches CoverAction::Fetch { title, artist } && title@ == m.title && artist@
                        == m.artist && final(self).key_view() == Some((m.title, m.artist))
                } else {
                    r is Keep && final(self).key_view() == old(self).key_view()
                },
                _ => final(self).key_view() is None && if old(self).key_view() is Some {
                    r is Clear
                } else {
                    r is Keep
                },
            },
    {
        match current {
            Some(m) => {
                let tv = chars_of(m.title.as_str());
                let tt = trim_chars(tv.as_slice());
                if tt.len() > 0 {
                    let need = match &self.key {
                        Some((t, a)) => !(same_text(t, &m.title) && same_text(a, &m.artist)),
                        None => true,
                    };
                    if need {
                        self.key = Some((m.title.clone(), m.artist.clone()));
                        return CoverAction::Fetch { title: m.title.clone(), artist: m.artist.clone() };
                    } else {
                        return CoverAction::Keep;
                    }
                }
            },
            None => {},
        }
        let had = self.key.is_some();
        self.key = None;
        if had {
            CoverAction::Clear
        } else {
            CoverAction::Keep
        }
    }
}

/// Low-battery alerts: at or under 15 % and not charging, at most one a minute.
pub struct LowBatteryAlarm {
    last: Option<std::time::Instant>,
}

/// An alert is due for a battery at `percent`: at or under 15 % and not
/// charging, and either no alert was given yet or a minute has passed.
pub open spec fn low_battery_due(percent: u32, charging: bool, alerted: bool, elapsed_ms: u128) -> bool {
    percent <= LOW_BATTERY_PERCENT && !charging && (!alerted || elapsed_ms >= LOW_BATTERY_REPEAT_MS)
}

impl LowBatteryAlarm {
    pub closed spec fn alerted(&self) -> bool {
        self.last is Some
    }

    /// When the last alert was given, if one was.
    pub closed spec fn last_alert(&self) -> Option<std::time::Instant> {
        self.last
    }

    pub fn new() -> (a: Self)
        ensures
            !a.alerted(),
    {
        LowBatteryAlarm { last: None }
    }

    /// The decision at `now`, `elapsed_ms` milliseconds after the last alert
    /// (not read when none was given): the alert when one is due, which then
    /// becomes the last alert; otherwise nothing, and nothing changes.
    pub fn check_after(&mut self, percent: u32, charging: bool, elapsed_ms: u128, now: std::time::Instant) -> (r: Option<SystemEvent>)
        ensures
            low_battery_due(percent, charging, old(self).alerted(), elapsed_ms) ==> r == Some(
                SystemEvent::LowBattery { percent: percent as u8 },
            ) && final(self).last_alert() == Some(now),
            !low_battery_due(percent, charging, old(self).alerted(), elapsed_ms) ==> r is None
                && final(self).last_alert() == old(self).last_alert(),
    {
        if percent <= LOW_BATTERY_PERCENT && !charging {
            let due = match &self.last {
                Some(_) => elapsed_ms >= LOW_BATTERY_REPEAT_MS as u128,
                None => true,
            };
            if due {
                self.last = Some(now);
                return Some(SystemEvent::LowBattery { percent: percent as u8 });
            }
        }
        None
    }

    /// The alert to queue for a battery at `percent`, if one is due: never
    /// while charging or above 15 %, always the first time, and afterwards
    /// once a minute has passed since the last one (the clock is read here;
    /// the decision is `check_after`'s).
    pub fn check(&mut self, percent: u32, charging: bool) -> (r: Option<SystemEvent>)
        ensures
            !(percent <= LOW_BATTERY_PERCENT && !charging) ==> r is None && final(self).last_alert()
                == old(self).last_alert(),
            r matches Some(e) ==> percent <= LOW_BATTERY_PERCENT && !charging && e
                == (SystemEvent::LowBattery { percent: percent as u8 }),
            r is Some ==> final(self).alerted(),
            (percent <= LOW_BATTERY_PERCENT && !charging && !old(self).alerted()) ==> r is Some,
            r is None ==> final(self).last_alert() == old(self).last_alert(),
    {
        let elapsed_ms = match &self.last {
            Some(t) => millis_since(t),
            None => 0,
        };
        let now = instant_now();
        self.check_after(percent, charging, elapsed_ms, now)
    }
}

/// The event for a WeChat hint that passed the debounce: calls and messages
/// only, with an empty body.
pub fn wechat_event(h: WeChatHint) -> (r: Option<SystemEvent>)
    ensures
        (h.kind@ == "call"@ || h.kind@ == "message"@) ==> (r matches Some(
            SystemEvent::WeChat { source, kind, title, body },
        ) && source == h.source && kind == h.kind && title == h.title && body@.len() == 0),
        !(h.kind@ == "call"@ || h.kind@ == "message"@) ==> r is None,
{
    let kv = chars_of(h.kind.as_str());
    if eq_str(&kv, "call") || eq_str(&kv, "message") {
        Some(SystemEvent::WeChat { source: h.source, kind: h.kind, title: h.title, body: String::new() })
    } else {
        None
    }
}

/// The event for an application toast.
pub fn app_toast_event(t: AppToastHint) -> (r: SystemEvent)
    ensures
        r == (SystemEvent::AppToast {
            app_name: t.app_name,
            aumid: t.aumid,
            title: t.title,
            body: t.body,
            icon_base64: t.icon_base64,
        }),
{
    SystemEvent::AppToast {
        app_name: t.app_name,
        aumid: t.aumid,
        title: t.title,
        body: t.body,
        icon_base64: t.icon_base64,
    }
}

/// What the sensor loop remembers between ticks.
pub struct SensorState {
    pub last_media: Option<MediaInfo>,
    pub last_battery: Option<BatteryInfo>,
    pub cover: CoverTracker,
    pub low_battery: LowBatteryAlarm,
    pub phase: u32,
}

impl SensorState {
    /// The state after the first media and battery readings were sent.
    pub fn new(init_media: Option<MediaInfo>, init_battery: BatteryInfo) -> (s: Self)
        ensures
            s.last_media == init_media,
            s.last_battery == Some(init_battery),
            s.cover.key_view() is None,
            !s.low_battery.alerted(),
            s.phase == 0,
    {
        SensorState {
            last_media: init_media,
            last_battery: Some(init_battery),
            cover: CoverTracker::new(),
            low_battery: LowBatteryAlarm::new(),
            phase: 0,
        }
    }

    /// Starts a tick; returns whether it is a full one (every fifth).
    pub fn begin_tick(&mut self) -> (full: bool)
        ensures
            full == (old(self).phase % SENSOR_FULL_EVERY == 0),
            final(self).phase == if old(self).phase == u32::MAX {
                0
            } else {
                (old(self).phase + 1) as u32
            },
            final(self).last_media == old(self).last_media,
            final(self).last_battery == old(self).last_battery,
            final(self).cover == old(self).cover,
            final(self).low_battery == old(self).low_battery,
    {
        let full = self.phase % SENSOR_FULL_EVERY == 0;
        self.phase = if self.phase == u32::MAX {
            0
        } else {
            self.phase + 1
        };
        full
    }

    /// A media reading: returns it, to be sent, when it changed; it then
    /// becomes the last one.
    pub fn on_media(&mut self, info: Option<MediaInfo>) -> (r: Option<Option<MediaInfo>>)
        ensures
            media_changed_view(media_opt_view(old(self).last_media), media_opt_view(info)) ==> r
                == Some(info) && media_opt_view(final(self).last_media) == media_opt_view(info),
            !media_changed_view(media_opt_view(old(self).last_media), media_opt_view(info)) ==> r
                is None && final(self).last_media == old(self).last_media,
            final(self).last_battery == old(self).last_battery,
            final(self).cover == old(self).cover,
            final(self).low_battery == old(self).low_battery,
            final(self).phase == old(self).phase,
    {
        if media_changed(&self.last_media, &info) {
            self.last_media = clone_media_opt(&info);
            Some(info)
        } else {
            None
        }
    }

    /// The cover step for the last media.
    pub fn on_cover(&mut self) -> (r: CoverAction)
        ensures
            final(self).last_media == old(self).last_media,
            final(self).last_battery == old(self).last_battery,
            final(self).low_battery == old(self).low_battery,
            final(self).phase == old(self).phase,
            match media_opt_view(old(self).last_media) {
                Some(m) if trim(m.title).len() > 0 => if old(self).cover.key_view() != Some(
                    (m.title, m.artist),
                ) {
                    r matches CoverAction::Fetch { title, artist } && title@ == m.title && artist@
                        == m.artist && final(self).cover.key_view() == Some((m.title, m.artist))
                } else {
                    r is Keep && final(self).cover.key_view() == old(self).cover.key_view()
                },
                _ => final(self).cover.key_view() is None && if old(self).cover.key_view() is Some {
                    r is Clear
                } else {
                    r is Keep
                },
            },
    {
        self.cover.step(&self.last_media)
    }

    /// A battery reading: returns whether it differs from the last one (and is
    /// to be sent); it then becomes the last one.
    pub fn on_battery(&mut self, bat: BatteryInfo) -> (changed: bool)
        ensures
            changed == (old(self).last_battery != Some(bat)),
            final(self).last_battery == Some(bat),
            final(self).last_media == old(self).last_media,
            final(self).cover == old(self).cover,
            final(self).low_battery == old(self).low_battery,
            final(self).phase == old(self).phase,
    {
        let changed = match self.last_battery {
            Some(b) => !(b.percent == bat.percent && b.charging == bat.charging),
            None => true,
        };
        self.last_battery = Some(bat);
        changed
    }
}

/// What the `get_current_media` command answers from: the media the sensor
/// loop last saw, or a fresh reading when it has none.
pub struct SharedMedia {
    pub media: Option<MediaInfo>,
}

impl SharedMedia {
    pub fn new() -> (s: Self)
        ensures
            s.media is None,
    {
        SharedMedia { media: None }
    }

    /// The media the loop saw or sent last.
    pub fn set(&mut self, m: Option<MediaInfo>)
        ensures
            final(self).media == m,
    {
        self.media = m;
    }

    /// The cached media, when there is some.
    pub fn cached(&self) -> (r: Option<MediaInfo>)
        ensures
            media_opt_view(r) == media_opt_view(self.media),
    {
        clone_media_opt(&self.media)
    }

    /// A fresh reading taken because the cache was empty: it is kept when it
    /// found media, and answered in any case.
    pub fn offer(&mut self, fresh: Option<MediaInfo>) -> (r: Option<MediaInfo>)
        ensures
            media_opt_view(r) == media_opt_view(fresh),
            fresh is Some ==> media_opt_view(final(self).media) == media_opt_view(fresh),
            fresh is None ==> final(self).media == old(self).media,
    {
        if fresh.is_some() {
            self.media = clone_media_opt(&fresh);
        }
        fresh
    }
}

} // verus!
