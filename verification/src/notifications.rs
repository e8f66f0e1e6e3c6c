//! Application toasts from the notification centre (WeChat excluded: it is
//! followed through its windows instead).
//!
//! The first poll that sees notifications only records them; later polls
//! report the newest notification not reported before, skipping WeChat's.
use crate::encoding::{to_lowercase, unicode_lower};
use crate::text::{
    after_last, after_last_exec, ascii_lower, char_views, chars_of, contains, contains_str, eq_ignore_ascii_case_str,
    eq_str, extend, extend_str, join_spaced, join_spaced_exec, slice_range, string_from, string_of,
    trim, trim_chars, utf8_len, utf8_len_exec,
};
use vstd::prelude::*;

verus! {

pub struct AppToastHint {
    pub app_name: String,
    pub aumid: Option<String>,
    pub title: String,
    pub body: String,
    pub icon_base64: Option<String>,
}

/// The notification listener's access status.
#[derive(Clone, Copy, PartialEq, Eq, Structural)]
pub enum AccessStatus {
    Unspecified,
    Allowed,
    Denied,
}

/// What was readable of a notifying application (`None` where a read failed).
pub struct AppMeta {
    pub aumid: Option<String>,
    pub display_name: Option<String>,
    pub description: Option<String>,
    pub package_family: Option<String>,
    pub app_id: Option<String>,
}

/// Text elements of a toast: those of its generic toast binding (when that
/// binding exists) and those of each of its bindings, in order.
pub struct ToastTexts {
    pub generic: Option<Vec<String>>,
    pub bindings: Vec<Vec<String>>,
}

/// One notification as listed by the notification centre.
pub struct ToastRow {
    pub id: u32,
    pub universal_time: i64,
    pub app: Option<AppMeta>,
    /// `None` when the notification's visual could not be read.
    pub texts: Option<ToastTexts>,
}

pub open spec fn or_empty(o: Option<String>) -> Seq<char> {
    match o {
        Some(s) => s@,
        None => Seq::empty(),
    }
}

pub open spec fn low(o: Option<String>) -> Seq<char> {
    unicode_lower(or_empty(o))
}

/// WeChat is recognised by its id, name, package or application id; a plain
/// "tencent" is not enough (QQ is Tencent's too).
pub open spec fn is_wechat_meta(m: AppMeta) -> bool {
    let aumid = low(m.aumid);
    let name = low(m.display_name);
    let pfn = low(m.package_family);
    let id = low(m.app_id);
    ||| contains(aumid, "wechat"@)
    ||| contains(aumid, "weixin"@)
    ||| contains(aumid, "txwechat"@)
    ||| contains(name, "微信"@)
    ||| contains(name, "wechat"@)
    ||| contains(name, "weixin"@)
    ||| contains(pfn, "wechat"@)
    ||| contains(pfn, "weixin"@)
    ||| contains(id, "wechat"@)
    ||| contains(id, "weixin"@)
}

fn lower_of(o: &Option<String>) -> (r: Vec<char>)
    ensures
        r@ == low(*o),
{
    let s = match o {
        Some(s) => s.clone(),
        None => String::new(),
    };
    let l = to_lowercase(s.as_str());
    chars_of(l.as_str())
}

pub fn is_wechat_app(info: &AppMeta) -> (r: bool)
    ensures
        r == is_wechat_meta(*info),
{
    let aumid = lower_of(&info.aumid);
    let name = lower_of(&info.display_name);
    let pfn = lower_of(&info.package_family);
    let id = lower_of(&info.app_id);
    contains_str(&aumid, "wechat") || contains_str(&aumid, "weixin") || contains_str(
        &aumid,
        "txwechat",
    ) || contains_str(&name, "微信") || contains_str(&name, "wechat") || contains_str(
        &name,
        "weixin",
    ) || contains_str(&pfn, "wechat") || contains_str(&pfn, "weixin") || contains_str(&id, "wechat")
        || contains_str(&id, "weixin")
}

/// The application's display name: its name, else a short description, else
/// the tail of its id after the last `\` and the last `!`, else its package
/// family, else "应用".
pub open spec fn display_name_of(m: AppMeta) -> Seq<char> {
    let tail = trim(after_last(after_last(or_empty(m.aumid), '\\'), '!'));
    if m.display_name is Some && trim(m.display_name->0@).len() > 0 {
        m.display_name->0@
    } else if m.description is Some && trim(m.description->0@).len() > 0 && utf8_len(
        m.description->0@,
    ) < 160 {
        m.description->0@
    } else if m.aumid is Some && m.aumid->0@.len() > 0 && tail.len() > 0 && utf8_len(tail) < 120 {
        tail
    } else if m.package_family is Some && trim(m.package_family->0@).len() > 0 {
        m.package_family->0@
    } else {
        "应用"@
    }
}

/// The name shown for an application: its display name when that is not
/// blank; else its description when that is not blank and under 160 bytes;
/// else, when neither is there and the id and package family are missing,
/// "应用".
pub proof fn law_display_name_order(m: AppMeta)
    ensures
        m.display_name is Some && trim(m.display_name->0@).len() > 0 ==> display_name_of(m) == m.display_name->0@,
        !(m.display_name is Some && trim(m.display_name->0@).len() > 0) && m.description is Some && trim(
            m.description->0@,
        ).len() > 0 && utf8_len(m.description->0@) < 160 ==> display_name_of(m) == m.description->0@,
        ({
            let named = m.display_name is Some && trim(m.display_name->0@).len() > 0;
            let described = m.description is Some && trim(m.description->0@).len() > 0 && utf8_len(
                m.description->0@,
            ) < 160;
            let tail = trim(after_last(after_last(or_empty(m.aumid), '\\'), '!'));
            let by_id = m.aumid is Some && m.aumid->0@.len() > 0 && tail.len() > 0 && utf8_len(tail) < 120;
            &&& !named && !described && by_id ==> display_name_of(m) == tail
            &&& !named && !described && !by_id && m.package_family is Some && trim(
                m.package_family->0@,
            ).len() > 0 ==> display_name_of(m) == m.package_family->0@
            &&& !named && !described && !by_id && !(m.package_family is Some && trim(
                m.package_family->0@,
            ).len() > 0) ==> display_name_of(m) == "应用"@
        }),
{
}

fn not_blank(s: &String) -> (r: bool)
    ensures
        r == (trim(s@).len() > 0),
{
    let v = chars_of(s.as_str());
    trim_chars(v.as_slice()).len() > 0
}

pub fn app_display_name(info: &AppMeta) -> (r: String)
    ensures
        r@ == display_name_of(*info),
{
    if let Some(n) = &info.display_name {
        if not_blank(n) {
            return n.clone();
        }
    }
    if let Some(d) = &info.description {
        if not_blank(d) {
            let dv = chars_of(d.as_str());
            if utf8_len_exec(dv.as_slice()) < 160 {
                return d.clone();
            }
        }
    }
    if let Some(a) = &info.aumid {
        let av = chars_of(a.as_str());
        if av.len() > 0 {
            let after_slash = after_last_exec(av.as_slice(), '\\');
            let tail0 = after_last_exec(after_slash.as_slice(), '!');
            let tail = trim_chars(tail0.as_slice());
            if tail.len() > 0 && utf8_len_exec(tail.as_slice()) < 120 {
                return string_of(tail.as_slice());
            }
        }
    }
    if let Some(p) = &info.package_family {
        if not_blank(p) {
            return p.clone();
        }
    }
    string_from("应用")
}

// ───────────────────────── toast text ─────────────────────────

/// The non-blank text elements, in order.
pub open spec fn nonblank(ts: Seq<String>) -> Seq<Seq<char>>
    decreases ts.len(),
{
    if ts.len() == 0 {
        Seq::empty()
    } else if trim(ts.last()@).len() > 0 {
        nonblank(ts.drop_last()).push(ts.last()@)
    } else {
        nonblank(ts.drop_last())
    }
}

/// `(title, body)`: the first line, and the other lines joined by spaces.
pub open spec fn title_body(lines: Seq<Seq<char>>) -> (Seq<char>, Seq<char>) {
    (lines[0], join_spaced(lines.skip(1)))
}

/// The first binding, in order, with a non-blank line.
pub open spec fn first_lines_from(bs: Seq<Vec<String>>, i: int) -> Option<Seq<Seq<char>>>
    decreases bs.len() - i,
{
    if i < 0 || i >= bs.len() {
        None
    } else if nonblank(bs[i]@).len() > 0 {
        Some(nonblank(bs[i]@))
    } else {
        first_lines_from(bs, i + 1)
    }
}

/// Title and body of a toast: from the generic toast binding when it has text,
/// else from the first binding with text.
pub open spec fn toast_lines_of(t: ToastTexts) -> Option<(Seq<char>, Seq<char>)> {
    if t.generic is Some && nonblank(t.generic->0@).len() > 0 {
        Some(title_body(nonblank(t.generic->0@)))
    } else {
        match first_lines_from(t.bindings@, 0) {
            Some(l) => Some(title_body(l)),
            None => None,
        }
    }
}

fn nonblank_exec(ts: &Vec<String>) -> (r: Vec<Vec<char>>)
    ensures
        char_views(r@) == nonblank(ts@),
{
    let mut r: Vec<Vec<char>> = Vec::new();
    let n = ts.len();
    for i in 0..n
        invariant
            n == ts@.len(),
            char_views(r@) == nonblank(ts@.take(i as int)),
    {
        assert(ts@.take(i + 1).drop_last() =~= ts@.take(i as int));
        if not_blank(&ts[i]) {
            let v = chars_of(ts[i].as_str());
            let ghost before = r@;
            r.push(v);
            assert(char_views(r@) =~= char_views(before).push(v@));
        }
    }
    assert(ts@.take(n as int) =~= ts@);
    r
}

fn title_body_exec(lines: &Vec<Vec<char>>) -> (r: (String, String))
    requires
        lines@.len() > 0,
    ensures
        (r.0@, r.1@) == title_body(char_views(lines@)),
{
    let title = string_of(lines[0].as_slice());
    let mut rest: Vec<Vec<char>> = Vec::new();
    let n = lines.len();
    for i in 1..n
        invariant
            n == lines@.len(),
            1 <= i <= n,
            char_views(rest@) == char_views(lines@).subrange(1, i as int),
    {
        let copy = slice_range(lines[i].as_slice(), 0, lines[i].len());
        assert(copy@ =~= lines@[i as int]@);
        let ghost before = rest@;
        rest.push(copy);
        assert(char_views(rest@) =~= char_views(before).push(copy@));
        assert(char_views(lines@).subrange(1, i + 1) =~= char_views(lines@).subrange(1, i as int).push(lines@[i as int]@));
    }
    let body = join_spaced_exec(&rest);
    assert(char_views(rest@) =~= char_views(lines@).skip(1));
    (title, string_of(body.as_slice()))
}

pub fn toast_lines(t: &ToastTexts) -> (r: Option<(String, String)>)
    ensures
        match r {
            Some((a, b)) => toast_lines_of(*t) == Some((a@, b@)),
            None => toast_lines_of(*t) is None,
        },
{
    if let Some(g) = &t.generic {
        let lines = nonblank_exec(g);
        if lines.len() > 0 {
            return Some(title_body_exec(&lines));
        }
    }
    let n = t.bindings.len();
    let mut i: usize = 0;
    while i < n
        invariant
            n == t.bindings@.len(),
            i <= n,
            first_lines_from(t.bindings@, 0) == first_lines_from(t.bindings@, i as int),
            !(t.generic is Some && nonblank(t.generic->0@).len() > 0),
        decreases n - i,
    {
        let lines = nonblank_exec(&t.bindings[i]);
        if lines.len() > 0 {
            return Some(title_body_exec(&lines));
        }
        i += 1;
    }
    None
}

/// Title and body of a listed row; "通知" and an empty body when it has no text.
pub open spec fn row_text(r: ToastRow) -> (Seq<char>, Seq<char>) {
    match r.texts {
        Some(t) => match toast_lines_of(t) {
            Some(tb) => tb,
            None => ("通知"@, Seq::empty()),
        },
        None => ("通知"@, Seq::empty()),
    }
}

fn row_text_exec(r: &ToastRow) -> (out: (String, String))
    ensures
        (out.0@, out.1@) == row_text(*r),
{
    if let Some(t) = &r.texts {
        if let Some(tb) = toast_lines(t) {
            return tb;
        }
    }
    (string_from("通知"), String::new())
}

/// One-line preview of a toast's text for the debug listing.
pub open spec fn preview_of(t: Option<ToastTexts>) -> Seq<char> {
    match t {
        Some(x) => match toast_lines_of(x) {
            Some((a, b)) => if b.len() > 0 {
                a + " | "@ + b
            } else {
                a
            },
            None => "(无 Toast 文本/绑定)"@,
        },
        None => "(无 Toast 文本/绑定)"@,
    }
}

pub fn preview_toast_text(t: &Option<ToastTexts>) -> (r: String)
    ensures
        r@ == preview_of(*t),
{
    if let Some(x) = t {
        if let Some((a, b)) = toast_lines(x) {
            if !b.as_str().is_empty() {
                let mut v = chars_of(a.as_str());
                extend_str(&mut v, " | ");
                let bv = chars_of(b.as_str());
                extend(&mut v, bv.as_slice());
                return string_of(v.as_slice());
            }
            return a;
        }
    }
    string_from("(无 Toast 文本/绑定)")
}

/// At most 240 characters of a preview, with "…" when it was cut.
pub open spec fn preview_short_of(p: Seq<char>) -> Seq<char> {
    if p.len() > 240 {
        p.take(240) + "…"@
    } else {
        p
    }
}

pub fn preview_short(p: &str) -> (r: String)
    ensures
        r@ == preview_short_of(p@),
{
    let v = chars_of(p);
    if v.len() > 240 {
        let mut t = slice_range(v.as_slice(), 0, 240);
        extend_str(&mut t, "…");
        string_of(t.as_slice())
    } else {
        string_of(v.as_slice())
    }
}

/// Whether a debug switch value turns logging on: `1`, `true` in any ASCII case, or `all`.
pub open spec fn debug_flag_on(v: Seq<char>) -> bool {
    v == "1"@ || ascii_lower(v) == ascii_lower("true"@) || v == "all"@
}

pub fn debug_flag_value(v: &str) -> (r: bool)
    ensures
        r == debug_flag_on(v@),
{
    let s = chars_of(v);
    eq_str(&s, "1") || eq_ignore_ascii_case_str(&s, "true") || eq_str(&s, "all")
}

/// Bytes to read for an application logo of `size` bytes: none when empty or over 512 KiB.
pub fn logo_read_len(size: u64) -> (r: Option<u32>)
    ensures
        r == (if size == 0 || size > 512 * 1024 {
            None
        } else {
            Some(size as u32)
        }),
{
    if size == 0 || size > 512 * 1024 {
        None
    } else {
        Some(size as u32)
    }
}

// ───────────────────────── the poll ─────────────────────────

/// `a` is handled before `b`: newer first, and in listing order among equals.
pub open spec fn precedes(rows: Seq<ToastRow>, a: int, b: int) -> bool {
    rows[a].universal_time > rows[b].universal_time || (rows[a].universal_time
        == rows[b].universal_time && a < b)
}

pub open spec fn key_of(r: ToastRow) -> (u32, i64) {
    (r.id, r.universal_time)
}

/// Row `p` is reported if reached: its key was not seen before (in earlier
/// polls, or earlier in this one) and it is not WeChat's.
pub open spec fn eligible(rows: Seq<ToastRow>, seen: Seq<(u32, i64)>, p: int) -> bool {
    &&& !seen.contains(key_of(rows[p]))
    &&& forall|q: int|
        0 <= q < rows.len() && precedes(rows, q, p) ==> key_of(#[trigger] rows[q]) != key_of(rows[p])
    &&& !(rows[p].app is Some && is_wechat_meta(rows[p].app->0))
}

/// Row `p` is the one reported: eligible, and no eligible row comes before it.
pub open spec fn is_reported(rows: Seq<ToastRow>, seen: Seq<(u32, i64)>, p: int) -> bool {
    &&& 0 <= p < rows.len()
    &&& eligible(rows, seen, p)
    &&& forall|q: int|
        0 <= q < rows.len() && precedes(rows, q, p) ==> !eligible(rows, seen, q)
}

pub open spec fn any_eligible(rows: Seq<ToastRow>, seen: Seq<(u32, i64)>) -> bool {
    exists|p: int| 0 <= p < rows.len() && eligible(rows, seen, p)
}

/// The hint reported for row `p` (without its icon, which is read afterwards).
pub open spec fn hint_for(r: ToastRow) -> (Seq<char>, Option<Seq<char>>, Seq<char>, Seq<char>) {
    match r.app {
        Some(m) => (
            display_name_of(m),
            if m.aumid is Some && trim(m.aumid->0@).len() > 0 {
                Some(m.aumid->0@)
            } else {
                None
            },
            row_text(r).0,
            row_text(r).1,
        ),
        None => ("通知"@, None, row_text(r).0, row_text(r).1),
    }
}

/// A notification whose key has been seen is never reported: once a poll
/// reports a notification (or records it), it is not reported again.
pub proof fn law_seen_toast_is_not_reported(rows: Seq<ToastRow>, seen: Seq<(u32, i64)>, p: int)
    requires
        0 <= p < rows.len(),
        seen.contains(key_of(rows[p])),
    ensures
        !eligible(rows, seen, p),
        !is_reported(rows, seen, p),
{
}

proof fn lemma_seen_grows(seen: Seq<Seq<(u32, i64)>>, i: int, j: int, k: (u32, i64))
    requires
        0 <= i <= j < seen.len(),
        forall|w: int, kk: (u32, i64)|
            0 <= w < seen.len() - 1 && #[trigger] seen[w].contains(kk) ==> seen[w + 1].contains(kk),
        seen[i].contains(k),
    ensures
        seen[j].contains(k),
    decreases j - i,
{
    if i < j {
        assert(seen[i + 1].contains(k));
        lemma_seen_grows(seen, i + 1, j, k);
    }
}

/// Over successive polls, where `seen[i]` is what was seen before poll `i` on
/// listing `rows[i]`, and `picks[i]` the row it reported, as
/// `poll_non_wechat_toast` keeps what was seen and adds each reported row: two
/// reports never carry the same notification, no report comes from WeChat, and
/// nothing seen before the first of these polls (such as the rows of the
/// first listing, which is only recorded) is ever reported.
pub proof fn law_no_toast_reported_twice(
    rows: Seq<Seq<ToastRow>>,
    seen: Seq<Seq<(u32, i64)>>,
    picks: Seq<Option<int>>,
)
    requires
        picks.len() == rows.len(),
        seen.len() == rows.len() + 1,
        forall|i: int|
            0 <= i < rows.len() ==> (#[trigger] picks[i] matches Some(p) ==> 0 <= p < rows[i].len()
                && is_reported(rows[i], seen[i], p) && seen[i + 1].contains(key_of(rows[i][p]))),
        forall|w: int, kk: (u32, i64)|
            0 <= w < seen.len() - 1 && #[trigger] seen[w].contains(kk) ==> seen[w + 1].contains(kk),
    ensures
        forall|i: int, j: int|
            0 <= i < j < rows.len() && #[trigger] picks[i] is Some && #[trigger] picks[j] is Some ==> key_of(
                rows[i][picks[i]->0],
            ) != key_of(rows[j][picks[j]->0]),
        forall|i: int|
            0 <= i < rows.len() && #[trigger] picks[i] is Some ==> !(rows[i][picks[i]->0].app is Some
                && is_wechat_meta(rows[i][picks[i]->0].app->0)),
        forall|i: int, k: (u32, i64)|
            0 <= i < rows.len() && #[trigger] picks[i] is Some && #[trigger] seen[0].contains(k) ==> key_of(
                rows[i][picks[i]->0],
            ) != k,
{
    assert forall|i: int, k: (u32, i64)|
        0 <= i < rows.len() && #[trigger] picks[i] is Some && #[trigger] seen[0].contains(k) implies key_of(
            rows[i][picks[i]->0],
        ) != k by {
        lemma_seen_grows(seen, 0, i, k);
        if key_of(rows[i][picks[i]->0]) == k {
            law_seen_toast_is_not_reported(rows[i], seen[i], picks[i]->0);
        }
    }
    assert forall|i: int, j: int|
        0 <= i < j < rows.len() && #[trigger] picks[i] is Some && #[trigger] picks[j] is Some implies key_of(
            rows[i][picks[i]->0],
        ) != key_of(rows[j][picks[j]->0]) by {
        let p = picks[i]->0;
        let q = picks[j]->0;
        let k = key_of(rows[i][p]);
        lemma_seen_grows(seen, i + 1, j, k);
        if key_of(rows[j][q]) == k {
            law_seen_toast_is_not_reported(rows[j], seen[j], q);
        }
    }
}

/// How many times access is asked for over the statuses `ss`, read in turn,
/// starting with `requested` (as `on_access_status` decides on each).
pub open spec fn access_requests(requested: bool, ss: Seq<AccessStatus>) -> nat
    decreases ss.len(),
{
    if ss.len() == 0 {
        0
    } else {
        (if ss[0] != AccessStatus::Allowed && !requested {
            1nat
        } else {
            0nat
        }) + access_requests(requested || ss[0] != AccessStatus::Allowed, ss.drop_first())
    }
}

/// Access is asked for at most once, however the status reads poll after poll,
/// and never again once it was asked for.
pub proof fn law_access_is_requested_once(ss: Seq<AccessStatus>)
    ensures
        access_requests(false, ss) <= 1,
        access_requests(true, ss) == 0,
    decreases ss.len(),
{
    if ss.len() > 0 {
        law_access_is_requested_once(ss.drop_first());
    }
}

pub struct ToastState {
    pub access_requested: bool,
    pub baselined: bool,
    pub seen: Vec<(u32, i64)>,
    pub logged_access: bool,
}

/// What to do after reading the access status.
pub struct AccessStep {
    /// Access is granted: go on and list the notifications.
    pub proceed: bool,
    /// Print the one-time notice that access was denied.
    pub log_denied: bool,
    /// Ask the system for access (done once).
    pub request_access: bool,
}

/// The toast reported by a poll: the row it comes from and the hint; the
/// icon is still to be read when `fetch_icon`.
pub struct ToastPick {
    pub row: usize,
    pub hint: AppToastHint,
    pub fetch_icon: bool,
}

pub open spec fn hint_matches(h: AppToastHint, v: (Seq<char>, Option<Seq<char>>, Seq<char>, Seq<char>)) -> bool {
    &&& h.app_name@ == v.0
    &&& crate::encoding::opt_chars(h.aumid) == v.1
    &&& h.title@ == v.2
    &&& h.body@ == v.3
    &&& h.icon_base64 is None
}

impl ToastState {
    pub fn new() -> (s: ToastState)
        ensures
            !s.access_requested,
            !s.baselined,
            s.seen@.len() == 0,
            !s.logged_access,
    {
        ToastState { access_requested: false, baselined: false, seen: Vec::new(), logged_access: false }
    }

    /// Reacts to the listener's access status.
    pub fn on_access_status(&mut self, status: AccessStatus) -> (step: AccessStep)
        ensures
            step.proceed == (status == AccessStatus::Allowed),
            step.log_denied == (status == AccessStatus::Denied && !old(self).logged_access),
            step.request_access == (status != AccessStatus::Allowed && !old(self).access_requested),
            final(self).logged_access == (old(self).logged_access || status == AccessStatus::Denied),
            final(self).access_requested == (old(self).access_requested || status
                != AccessStatus::Allowed),
            final(self).baselined == old(self).baselined,
            final(self).seen@ == old(self).seen@,
    {
        if status == AccessStatus::Allowed {
            return AccessStep { proceed: true, log_denied: false, request_access: false };
        }
        let mut log_denied = false;
        if status == AccessStatus::Denied && !self.logged_access {
            self.logged_access = true;
            log_denied = true;
        }
        let mut request_access = false;
        if !self.access_requested {
            self.access_requested = true;
            request_access = true;
        }
        AccessStep { proceed: false, log_denied, request_access }
    }

    fn seen_contains(&self, k: (u32, i64)) -> (r: bool)
        ensures
            r == self.seen@.contains(k),
    {
        let n = self.seen.len();
        for i in 0..n
            invariant
                n == self.seen@.len(),
                forall|j: int| 0 <= j < i ==> self.seen@[j] != k,
        {
            if self.seen[i].0 == k.0 && self.seen[i].1 == k.1 {
                return true;
            }
        }
        false
    }


    fn eligible_exec(&self, rows: &Vec<ToastRow>, p: usize) -> (r: bool)
        requires
            p < rows@.len(),
        ensures
            r == eligible(rows@, self.seen@, p as int),
    {
        let k = (rows[p].id, rows[p].universal_time);
        if self.seen_contains(k) {
            return false;
        }
        let n = rows.len();
        for q in 0..n
            invariant
                n == rows@.len(),
                p < n,
                k == key_of(rows@[p as int]),
                forall|w: int|
                    0 <= w < q && precedes(rows@, w, p as int) ==> key_of(#[trigger] rows@[w]) != k,
        {
            let before = rows[q].universal_time > rows[p].universal_time || (rows[q].universal_time
                == rows[p].universal_time && q < p);
            if before && rows[q].id == k.0 && rows[q].universal_time == k.1 {
                return false;
            }
        }
        match &rows[p].app {
            Some(info) => !is_wechat_app(info),
            None => true,
        }
    }
}

/// Handles the listed notifications: the first listing only records them;
/// afterwards the newest unseen non-WeChat row is reported, and every row
/// handled up to it (or every row, when none is reported) is recorded as seen.
pub fn poll_non_wechat_toast(st: &mut ToastState, rows: &Vec<ToastRow>) -> (r: Option<ToastPick>)
    ensures
        final(st).access_requested == old(st).access_requested,
        final(st).logged_access == old(st).logged_access,
        final(st).baselined,
        old(st).seen@.no_duplicates() ==> final(st).seen@.no_duplicates(),
        rows@.len() == 0 ==> r is None && final(st).seen@ == old(st).seen@,
        !old(st).baselined ==> r is None && forall|k: (u32, i64)|
            #[trigger] final(st).seen@.contains(k) <==> (old(st).seen@.contains(k)
                || exists|q: int| 0 <= q < rows@.len() && key_of(rows@[q]) == k),
        old(st).baselined && rows@.len() > 0 ==> {
            &&& (r is None <==> !any_eligible(rows@, old(st).seen@))
            &&& (r matches Some(pk) ==> is_reported(rows@, old(st).seen@, pk.row as int)
                && hint_matches(pk.hint, hint_for(rows@[pk.row as int])) && pk.fetch_icon
                == (rows@[pk.row as int].app is Some))
            &&& forall|k: (u32, i64)|
                #[trigger] final(st).seen@.contains(k) <==> (old(st).seen@.contains(k)
                    || exists|q: int|
                    0 <= q < rows@.len() && key_of(rows@[q]) == k && (r matches Some(pk) ==> (q
                        == pk.row || precedes(rows@, q, pk.row as int))))
        },
{
    let n = rows.len();
    if n == 0 {
        st.baselined = true;
        return None;
    }
    let ghost old_seen = st.seen@;
    if !st.baselined {
        for i in 0..n
            invariant
                n == rows@.len(),
                st.access_requested == old(st).access_requested,
                st.logged_access == old(st).logged_access,
                old_seen.no_duplicates() ==> st.seen@.no_duplicates(),
                forall|k: (u32, i64)|
                    #[trigger] st.seen@.contains(k) <==> (old_seen.contains(k) || exists|q: int|
                        0 <= q < i && key_of(rows@[q]) == k),
        {
            let k = (rows[i].id, rows[i].universal_time);
            let ghost before = st.seen@;
            if !st.seen_contains(k) {
                st.seen.push(k);
                proof {
                    if old_seen.no_duplicates() {
                        assert forall|a: int, b: int| 0 <= a < b < st.seen@.len() implies st.seen@[a]
                            != st.seen@[b] by {
                            if b == before.len() {
                                assert(before[a] == st.seen@[a]);
                            }
                        }
                    }
                }
            }
            assert forall|kk: (u32, i64)| #[trigger] st.seen@.contains(kk) <==> (old_seen.contains(
                kk,
            ) || exists|q: int| 0 <= q < i + 1 && key_of(rows@[q]) == kk) by {
                if st.seen@.contains(kk) {
                    let w = choose|w: int| 0 <= w < st.seen@.len() && st.seen@[w] == kk;
                    if w < before.len() {
                        assert(before[w] == kk);
                        assert(before.contains(kk));
                    } else {
                        assert(key_of(rows@[i as int]) == kk);
                    }
                }
                if exists|q: int| 0 <= q < i + 1 && key_of(rows@[q]) == kk {
                    let q = choose|q: int| 0 <= q < i + 1 && key_of(rows@[q]) == kk;
                    if q == i {
                        if st.seen@.len() > before.len() {
                            assert(st.seen@[before.len() as int] == kk);
                        } else {
                            let w = choose|w: int| 0 <= w < before.len() && before[w] == kk;
                            assert(st.seen@[w] == kk);
                        }
                    } else {
                        assert(before.contains(kk));
                        let w = choose|w: int| 0 <= w < before.len() && before[w] == kk;
                        assert(st.seen@[w] == kk);
                    }
                }
                if old_seen.contains(kk) {
                    assert(before.contains(kk));
                    let w = choose|w: int| 0 <= w < before.len() && before[w] == kk;
                    assert(st.seen@[w] == kk);
                }
            }
        }
        st.baselined = true;
        return None;
    }
    // which rows may be reported
    let mut best: Option<usize> = None;
    for p in 0..n
        invariant
            n == rows@.len(),
            st.seen@ == old_seen,
            best matches Some(b) ==> b < p && eligible(rows@, old_seen, b as int) && forall|q: int|
                0 <= q < p && eligible(rows@, old_seen, q) ==> q == b || precedes(
                    rows@,
                    b as int,
                    q,
                ),
            best is None ==> forall|q: int| 0 <= q < p ==> !eligible(rows@, old_seen, q),
    {
        if st.eligible_exec(rows, p) {
            let take = match best {
                None => true,
                Some(b) => rows[p].universal_time > rows[b].universal_time,
            };
            if take {
                best = Some(p);
            }
        }
    }
    proof {
        if let Some(b) = best {
            assert forall|q: int| 0 <= q < rows@.len() && precedes(rows@, q, b as int) implies !eligible(
                rows@,
                old_seen,
                q,
            ) by {
                if eligible(rows@, old_seen, q) {
                    assert(q == b || precedes(rows@, b as int, q));
                }
            }
            assert(is_reported(rows@, old_seen, b as int));
        }
    }
    // record what was handled
    for q in 0..n
        invariant
            n == rows@.len(),
            st.access_requested == old(st).access_requested,
            st.logged_access == old(st).logged_access,
            st.baselined == old(st).baselined,
            old_seen.no_duplicates() ==> st.seen@.no_duplicates(),
            best matches Some(b) ==> b < n,
            forall|k: (u32, i64)|
                #[trigger] st.seen@.contains(k) <==> (old_seen.contains(k) || exists|w: int|
                    0 <= w < q && key_of(rows@[w]) == k && (best matches Some(b) ==> (w == b
                        || precedes(rows@, w, b as int)))),
    {
        let handled = match best {
            None => true,
            Some(b) => q == b || rows[q].universal_time > rows[b].universal_time || (
            rows[q].universal_time == rows[b].universal_time && q < b),
        };
        let ghost before = st.seen@;
        let kq = (rows[q].id, rows[q].universal_time);
        if handled && !st.seen_contains(kq) {
            st.seen.push(kq);
            proof {
                if old_seen.no_duplicates() {
                    assert forall|a: int, b: int| 0 <= a < b < st.seen@.len() implies st.seen@[a]
                        != st.seen@[b] by {
                        if b == before.len() {
                            assert(before[a] == st.seen@[a]);
                        }
                    }
                }
            }
        }
        assert forall|kk: (u32, i64)| #[trigger] st.seen@.contains(kk) <==> (old_seen.contains(kk)
            || exists|w: int|
            0 <= w < q + 1 && key_of(rows@[w]) == kk && (best matches Some(b) ==> (w == b
                || precedes(rows@, w, b as int)))) by {
            if st.seen@.contains(kk) {
                let w = choose|w: int| 0 <= w < st.seen@.len() && st.seen@[w] == kk;
                if w < before.len() {
                    assert(before[w] == kk);
                    assert(before.contains(kk));
                } else {
                    assert(key_of(rows@[q as int]) == kk);
                }
            }
            if old_seen.contains(kk) {
                assert(before.contains(kk));
                let w = choose|w: int| 0 <= w < before.len() && before[w] == kk;
                assert(st.seen@[w] == kk);
            }
            if exists|w: int|
                0 <= w < q + 1 && key_of(rows@[w]) == kk && (best matches Some(b) ==> (w == b
                    || precedes(rows@, w, b as int))) {
                let w = choose|w: int|
                    0 <= w < q + 1 && key_of(rows@[w]) == kk && (best matches Some(b) ==> (w == b
                        || precedes(rows@, w, b as int)));
                if w == q {
                    if st.seen@.len() > before.len() {
                        assert(st.seen@[st.seen@.len() - 1] == kk);
                    } else {
                        let v = choose|v: int| 0 <= v < before.len() && before[v] == kk;
                        assert(st.seen@[v] == kk);
                    }
                } else {
                    assert(before.contains(kk));
                    let v = choose|v: int| 0 <= v < before.len() && before[v] == kk;
                    assert(st.seen@[v] == kk);
                }
            }
        }
    }
    match best {
        None => None,
        Some(b) => {
            let row = &rows[b];
            let (title, body) = row_text_exec(row);
            let pick = match &row.app {
                Some(info) => {
                    let aumid = match &info.aumid {
                        Some(a) => if not_blank(a) {
                            Some(a.clone())
                        } else {
                            None
                        },
                        None => None,
                    };
                    ToastPick {
                        row: b,
                        hint: AppToastHint {
                            app_name: app_display_name(info),
                            aumid,
                            title,
                            body,
                            icon_base64: None,
                        },
                        fetch_icon: true,
                    }
                },
                None => ToastPick {
                    row: b,
                    hint: AppToastHint {
                        app_name: string_from("通知"),
                        aumid: None,
                        title,
                        body,
                        icon_base64: None,
                    },
                    fetch_icon: false,
                },
            };
            Some(pick)
        },
    }
}


/// Throttles the debug notice that the notification centre is empty: at most
/// one every ten seconds while it stays empty.
pub struct EmptyNotice {
    last: Option<std::time::Instant>,
}

impl EmptyNotice {
    /// When the notice was last given, if it was since the list last held a row.
    pub closed spec fn last_notice(&self) -> Option<std::time::Instant> {
        self.last
    }

    pub fn new() -> (e: Self)
        ensures
            e.last_notice() is None,
    {
        EmptyNotice { last: None }
    }

    /// The decision for an empty listing at `now`, `elapsed_ms` milliseconds
    /// after the last notice (not read when none was given): the notice is
    /// due the first time and then once ten seconds have passed; when due,
    /// `now` becomes the last notice, otherwise nothing changes.
    pub fn due_after(&mut self, elapsed_ms: u128, now: std::time::Instant) -> (r: bool)
        ensures
            r == (old(self).last_notice() is None || elapsed_ms >= 10_000),
            r ==> final(self).last_notice() == Some(now),
            !r ==> final(self).last_notice() == old(self).last_notice(),
    {
        let due = match &self.last {
            Some(_) => elapsed_ms >= 10_000,
            None => true,
        };
        if due {
            self.last = Some(now);
        }
        due
    }

    /// Whether to give the notice for an empty listing now (the clock is read
    /// here; the decision is `due_after`'s): always the first time.
    pub fn due(&mut self) -> (r: bool)
        ensures
            old(self).last_notice() is None ==> r,
            r ==> final(self).last_notice() is Some,
            !r ==> final(self).last_notice() == old(self).last_notice(),
    {
        let elapsed_ms = match &self.last {
            Some(t) => crate::clock::millis_since(t),
            None => 0,
        };
        let now = crate::clock::instant_now();
        self.due_after(elapsed_ms, now)
    }

    /// The listing held a row: the next empty listing gives the notice again.
    pub fn reset(&mut self)
        ensures
            final(self).last_notice() is None,
    {
        self.last = None;
    }
}

/// An application logo as standard base64.
pub fn logo_base64(bytes: &[u8]) -> (r: String)
    ensures
        r@ == crate::encoding::base64_standard(bytes@),
{
    crate::encoding::base64_encode(bytes)
}

/// The reported hint with the application's logo, when one could be read.
pub fn with_icon(hint: AppToastHint, icon_base64: Option<String>) -> (r: AppToastHint)
    ensures
        r.app_name == hint.app_name,
        r.aumid == hint.aumid,
        r.title == hint.title,
        r.body == hint.body,
        r.icon_base64 == icon_base64,
{
    AppToastHint { icon_base64, ..hint }
}

} // verus!
