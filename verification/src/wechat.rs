//! WeChat, followed through its visible top-level windows: call windows and
//! chat / unread windows are recognised by their titles.
use crate::encoding::{to_lowercase, unicode_lower};
use crate::text::{
    chars_eq, chars_of, contains, contains_exec, eq_str, file_name, file_name_exec,
    starts_with, starts_with_str, string_from, string_of, trim, trim_chars, utf8_len, utf8_len_exec,
    without_ws, without_ws_exec,
};
use crate::clock::{instant_now, millis_since};
use vstd::prelude::*;

verus! {

pub struct WeChatHint {
    /// `window_enum`
    pub source: String,
    pub title: String,
    pub class_name: String,
    /// `call` or `message`
    pub kind: String,
    pub body: String,
}

/// The process image is WeChat's: `weixin.exe` or `wechat.exe`.
pub open spec fn wechat_image(exe: Seq<char>) -> bool {
    let file = file_name(unicode_lower(exe));
    file == "weixin.exe"@ || file == "wechat.exe"@
}

pub fn is_wechat_process(exe: &str) -> (r: bool)
    ensures
        r == wechat_image(exe@),
{
    let lower = to_lowercase(exe);
    let l = chars_of(lower.as_str());
    let file = file_name_exec(l.as_slice());
    eq_str(&file, "weixin.exe") || eq_str(&file, "wechat.exe")
}

/// Title fragments of call windows.
pub open spec fn call_marker(i: int) -> Seq<char> {
    if i == 0 {
        "语音通话"@
    } else if i == 1 {
        "视频通话"@
    } else if i == 2 {
        "邀请你语音"@
    } else if i == 3 {
        "邀请你视频"@
    } else if i == 4 {
        "来电"@
    } else if i == 5 {
        "正在呼叫"@
    } else if i == 6 {
        "请求视频"@
    } else if i == 7 {
        "请求语音"@
    } else if i == 8 {
        "voicecall"@
    } else if i == 9 {
        "videocall"@
    } else {
        "voicechat"@
    }
}

pub open spec fn marker_hit(t: Seq<char>, i: int) -> bool {
    contains(unicode_lower(without_ws(t)), unicode_lower(call_marker(i))) || contains(t, call_marker(i))
}

/// `call` when the (trimmed) title names a call, ignoring whitespace and case;
/// `message` for the main window with an unread count (`微信(2)`) or any other
/// titled WeChat window of at least two bytes; nothing for the bare `微信`.
pub open spec fn title_kind(title: Seq<char>) -> Option<Seq<char>> {
    let t = trim(title);
    if t.len() == 0 {
        None
    } else if exists|i: int| 0 <= i < 11 && marker_hit(t, i) {
        Some("call"@)
    } else if starts_with(t, "微信"@) && t != "微信"@ {
        Some("message"@)
    } else if utf8_len(t) >= 2 && !starts_with(t, "微信"@) {
        Some("message"@)
    } else {
        None
    }
}

/// A WeChat window whose (trimmed) title holds any of the call markers —
/// 语音通话, 视频通话, 邀请你语音, 邀请你视频, 来电, 正在呼叫, 请求视频, 请求语音,
/// voicecall, videocall, voicechat — is a call.
pub proof fn law_call_markers_mean_a_call(title: Seq<char>)
    ensures
        (contains(trim(title), "语音通话"@) || contains(trim(title), "视频通话"@) || contains(trim(title), "邀请你语音"@) || contains(trim(title), "邀请你视频"@) || contains(trim(title), "来电"@) || contains(trim(title), "正在呼叫"@) || contains(trim(title), "请求视频"@) || contains(trim(title), "请求语音"@) || contains(trim(title), "voicecall"@) || contains(trim(title), "videocall"@) || contains(trim(title), "voicechat"@)) ==> title_kind(title) == Some("call"@),
{
    reveal_strlit("语音通话");
    reveal_strlit("视频通话");
    reveal_strlit("邀请你语音");
    reveal_strlit("邀请你视频");
    reveal_strlit("来电");
    reveal_strlit("正在呼叫");
    reveal_strlit("请求视频");
    reveal_strlit("请求语音");
    reveal_strlit("voicecall");
    reveal_strlit("videocall");
    reveal_strlit("voicechat");
    let t = trim(title);
    if contains(t, "语音通话"@) {
        assert(marker_hit(t, 0));
    }
    if contains(t, "视频通话"@) {
        assert(marker_hit(t, 1));
    }
    if contains(t, "邀请你语音"@) {
        assert(marker_hit(t, 2));
    }
    if contains(t, "邀请你视频"@) {
        assert(marker_hit(t, 3));
    }
    if contains(t, "来电"@) {
        assert(marker_hit(t, 4));
    }
    if contains(t, "正在呼叫"@) {
        assert(marker_hit(t, 5));
    }
    if contains(t, "请求视频"@) {
        assert(marker_hit(t, 6));
    }
    if contains(t, "请求语音"@) {
        assert(marker_hit(t, 7));
    }
    if contains(t, "voicecall"@) {
        assert(marker_hit(t, 8));
    }
    if contains(t, "videocall"@) {
        assert(marker_hit(t, 9));
    }
    if contains(t, "voicechat"@) {
        assert(marker_hit(t, 10));
    }
}

/// A titled WeChat window that names no call is a message: the main window
/// `微信` with anything after it (an unread count such as `微信(2)`), or any
/// other title of at least two bytes; the bare `微信` is nothing.
pub proof fn law_other_titles(title: Seq<char>)
    requires
        forall|i: int| 0 <= i < 11 ==> !marker_hit(trim(title), i),
    ensures
        ({
            let t = trim(title);
            &&& t.len() > 0 && starts_with(t, "微信"@) && t != "微信"@ ==> title_kind(title) == Some("message"@)
            &&& utf8_len(t) >= 2 && !starts_with(t, "微信"@) ==> title_kind(title) == Some("message"@)
            &&& t == "微信"@ ==> title_kind(title) is None
            &&& t.len() == 0 ==> title_kind(title) is None
        }),
{
    reveal_strlit("微信");
    let t = trim(title);
    if t == "微信"@ {
        assert(t.subrange(0, 2) =~= t);
    }
}

fn marker_str(i: usize) -> (r: &'static str)
    requires
        i < 11,
    ensures
        r@ == call_marker(i as int),
{
    if i == 0 {
        "语音通话"
    } else if i == 1 {
        "视频通话"
    } else if i == 2 {
        "邀请你语音"
    } else if i == 3 {
        "邀请你视频"
    } else if i == 4 {
        "来电"
    } else if i == 5 {
        "正在呼叫"
    } else if i == 6 {
        "请求视频"
    } else if i == 7 {
        "请求语音"
    } else if i == 8 {
        "voicecall"
    } else if i == 9 {
        "videocall"
    } else {
        "voicechat"
    }
}

pub fn classify_wechat_title(title: &str) -> (r: Option<&'static str>)
    ensures
        match r {
            Some(k) => title_kind(title@) == Some(k@),
            None => title_kind(title@) is None,
        },
{
    let tv = chars_of(title);
    let t = trim_chars(tv.as_slice());
    if t.len() == 0 {
        return None;
    }
    let compact = without_ws_exec(t.as_slice());
    let cs = string_of(compact.as_slice());
    let lower_s = to_lowercase(cs.as_str());
    let lower = chars_of(lower_s.as_str());
    let mut i: usize = 0;
    while i < 11
        invariant
            i <= 11,
            t@ == trim(title@),
            t@.len() > 0,
            lower@ == unicode_lower(without_ws(t@)),
            forall|j: int| 0 <= j < i ==> !marker_hit(t@, j),
        decreases 11 - i,
    {
        let m = marker_str(i);
        let ml = to_lowercase(m);
        let mlv = chars_of(ml.as_str());
        let mv = chars_of(m);
        if contains_exec(lower.as_slice(), mlv.as_slice()) || contains_exec(t.as_slice(), mv.as_slice()) {
            proof {
                reveal_strlit("call");
            }
            assert(marker_hit(t@, i as int));
            assert(exists|j: int| 0 <= j < 11 && marker_hit(trim(title@), j));
            assert(title_kind(title@) == Some("call"@));
            return Some("call");
        }
        i += 1;
    }
    proof {
        reveal_strlit("message");
    }
    if starts_with_str(&t, "微信") && !eq_str(&t, "微信") {
        return Some("message");
    }
    if utf8_len_exec(t.as_slice()) >= 2 && !starts_with_str(&t, "微信") {
        return Some("message");
    }
    None
}

/// What the window scan reads of one top-level window.
pub struct WindowSnapshot {
    /// Its style has `WS_CHILD`.
    pub is_child: bool,
    pub visible: bool,
    /// Full path of its process image, where readable.
    pub exe: Option<String>,
    /// Its title, when it has one.
    pub title: Option<String>,
    pub class_name: String,
}

/// `WS_CHILD` is set in a window style.
pub fn is_child_style(style: isize) -> (r: bool)
    ensures
        r == (style & 0x4000_0000isize != 0),
{
    style & 0x4000_0000isize != 0
}

pub open spec fn window_hint_of(w: WindowSnapshot) -> Option<(Seq<char>, Seq<char>)> {
    if w.is_child || !w.visible || w.exe is None || !wechat_image(w.exe->0@) || w.title is None {
        None
    } else {
        match title_kind(w.title->0@) {
            Some(k) => Some((trim(w.title->0@), k)),
            None => None,
        }
    }
}

pub open spec fn hint_view_matches(h: WeChatHint, title: Seq<char>, kind: Seq<char>, class: Seq<char>) -> bool {
    &&& h.source@ == "window_enum"@
    &&& h.title@ == title
    &&& h.class_name@ == class
    &&& h.kind@ == kind
    &&& h.body@ == (if kind == "call"@ {
        "微信 · 通话/来电"@
    } else {
        "微信 · 会话或未读"@
    })
}

/// The hint a visible top-level WeChat window gives, if its title says anything.
pub fn wechat_hint_for_window(w: &WindowSnapshot) -> (r: Option<WeChatHint>)
    ensures
        match window_hint_of(*w) {
            Some((t, k)) => r matches Some(h) && hint_view_matches(h, t, k, w.class_name@),
            None => r is None,
        },
{
    if w.is_child || !w.visible {
        return None;
    }
    let exe = match &w.exe {
        Some(e) => e,
        None => return None,
    };
    if !is_wechat_process(exe.as_str()) {
        return None;
    }
    let title = match &w.title {
        Some(t) => t,
        None => return None,
    };
    match classify_wechat_title(title.as_str()) {
        Some(kind) => {
            let kv = chars_of(kind);
            let is_call = eq_str(&kv, "call");
            let body = if is_call {
                string_from("微信 · 通话/来电")
            } else {
                string_from("微信 · 会话或未读")
            };
            let tv = chars_of(title.as_str());
            let tt = trim_chars(tv.as_slice());
            Some(
                WeChatHint {
                    source: string_from("window_enum"),
                    title: string_of(tt.as_slice()),
                    class_name: w.class_name.clone(),
                    kind: string_from(kind),
                    body,
                },
            )
        },
        None => None,
    }
}

/// Index of the hint reported by a scan: the first call hint, else the last
/// hint whose title is longest (in bytes).
pub open spec fn is_picked_hint(hs: Seq<WeChatHint>, k: int) -> bool {
    let is_call = |i: int| hs[i].kind@ == "call"@;
    &&& 0 <= k < hs.len()
    &&& if exists|i: int| 0 <= i < hs.len() && #[trigger] hs[i].kind@ == "call"@ {
        is_call(k) && forall|i: int| 0 <= i < k ==> #[trigger] hs[i].kind@ != "call"@
    } else {
        &&& forall|i: int| 0 <= i < hs.len() ==> utf8_len(#[trigger] hs[i].title@) <= utf8_len(hs[k].title@)
        &&& forall|i: int| k < i < hs.len() ==> utf8_len(#[trigger] hs[i].title@) < utf8_len(hs[k].title@)
    }
}

/// Which of the collected hints a scan reports.
pub fn pick_wechat_hint(hints: &Vec<WeChatHint>) -> (r: Option<usize>)
    ensures
        r is None <==> hints@.len() == 0,
        r matches Some(k) ==> is_picked_hint(hints@, k as int),
{
    let n = hints.len();
    if n == 0 {
        return None;
    }
    for i in 0..n
        invariant
            n == hints@.len(),
            forall|j: int| 0 <= j < i ==> #[trigger] hints@[j].kind@ != "call"@,
    {
        let kv = chars_of(hints[i].kind.as_str());
        if eq_str(&kv, "call") {
            return Some(i);
        }
    }
    let mut best: usize = 0;
    let t0 = chars_of(hints[0].title.as_str());
    let mut best_len = utf8_len_exec(t0.as_slice());
    for i in 1..n
        invariant
            n == hints@.len(),
            best < i,
            best_len == utf8_len(hints@[best as int].title@),
            forall|j: int| 0 <= j < i ==> utf8_len(#[trigger] hints@[j].title@) <= best_len,
            forall|j: int| best < j < i ==> utf8_len(#[trigger] hints@[j].title@) < best_len,
    {
        let tv = chars_of(hints[i].title.as_str());
        let l = utf8_len_exec(tv.as_slice());
        if l >= best_len {
            best = i;
            best_len = l;
        }
    }
    Some(best)
}

/// The de-duplication key of a hint.
pub open spec fn signature_of(h: WeChatHint) -> Seq<char> {
    if h.source@ == "user_notification"@ {
        h.kind@ + "|"@ + h.title@ + "|"@ + h.body@ + "|"@ + h.source@
    } else {
        h.kind@ + "|"@ + h.title@ + "|"@ + h.source@
    }
}

pub fn signature(h: &WeChatHint) -> (r: Vec<char>)
    ensures
        r@ == signature_of(*h),
{
    let src = chars_of(h.source.as_str());
    let mut v = chars_of(h.kind.as_str());
    crate::text::extend_str(&mut v, "|");
    crate::text::extend_str(&mut v, h.title.as_str());
    crate::text::extend_str(&mut v, "|");
    if eq_str(&src, "user_notification") {
        crate::text::extend_str(&mut v, h.body.as_str());
        crate::text::extend_str(&mut v, "|");
    }
    crate::text::extend(&mut v, src.as_slice());
    v
}

/// Suppresses a hint whose signature equals the last one reported within the
/// de-duplication window.
pub struct WeChatDebounce {
    last: Option<(Vec<char>, std::time::Instant)>,
    dedupe_ms: u64,
}

impl WeChatDebounce {
    /// The signature last reported, if any.
    pub closed spec fn last_signature(&self) -> Option<Seq<char>> {
        match self.last {
            Some((s, _)) => Some(s@),
            None => None,
        }
    }

    /// When the last hint was reported, if one was.
    pub closed spec fn last_instant(&self) -> Option<std::time::Instant> {
        match self.last {
            Some((_, t)) => Some(t),
            None => None,
        }
    }

    /// The de-duplication window in whole milliseconds.
    pub closed spec fn window_ms(&self) -> u64 {
        self.dedupe_ms
    }

    /// A debounce with a window of `dedupe_ms` milliseconds (the window scan
    /// uses ten seconds).
    pub fn new(dedupe_ms: u64) -> (d: Self)
        ensures
            d.last_signature() is None,
            d.last_instant() is None,
            d.window_ms() == dedupe_ms,
    {
        Self { last: None, dedupe_ms }
    }

    /// The decision for `hint` at `now`, `elapsed_ms` milliseconds after the
    /// last report (not read when nothing was reported): it is suppressed when
    /// its signature is that of the last report and the window has not passed,
    /// and the last report then stays as it was (a suppressed hint does not
    /// extend the window); otherwise it passes and becomes the last report.
    pub fn emit_after(&mut self, hint: WeChatHint, elapsed_ms: u128, now: std::time::Instant) -> (r: Option<WeChatHint>)
        ensures
            final(self).window_ms() == old(self).window_ms(),
            (old(self).last_signature() == Some(signature_of(hint)) && elapsed_ms < old(self).window_ms())
                ==> r is None && final(self).last_signature() == old(self).last_signature()
                && final(self).last_instant() == old(self).last_instant(),
            !(old(self).last_signature() == Some(signature_of(hint)) && elapsed_ms < old(self).window_ms())
                ==> r == Some(hint) && final(self).last_signature() == Some(signature_of(hint))
                && final(self).last_instant() == Some(now),
    {
        let sig = signature(&hint);
        if let Some((s, _)) = &self.last {
            if chars_eq(s.as_slice(), sig.as_slice()) && elapsed_ms < self.dedupe_ms as u128 {
                return None;
            }
        }
        self.last = Some((sig, now));
        Some(hint)
    }

    /// Passes `hint` on, unless the last reported hint had the same signature
    /// and is younger than the window (the clock is read here; the decision is
    /// `emit_after`'s). A hint with a new signature always passes.
    pub fn try_emit(&mut self, hint: WeChatHint) -> (r: Option<WeChatHint>)
        ensures
            final(self).window_ms() == old(self).window_ms(),
            r matches Some(h) ==> h == hint && final(self).last_signature() == Some(signature_of(hint))
                && final(self).last_instant() is Some,
            r is None ==> old(self).last_signature() == Some(signature_of(hint))
                && final(self).last_signature() == old(self).last_signature()
                && final(self).last_instant() == old(self).last_instant(),
            old(self).last_signature() != Some(signature_of(hint)) ==> r is Some,
    {
        let elapsed_ms = match &self.last {
            Some((_, t)) => millis_since(t),
            None => 0,
        };
        let now = instant_now();
        self.emit_after(hint, elapsed_ms, now)
    }
}

} // verus!
