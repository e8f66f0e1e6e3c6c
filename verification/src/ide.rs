//! Following Cursor and VS Code: the window title without the editor's
//! suffix, a context line read from the accessibility tree (best effort),
//! whether a confirmation button asks for attention, and the last editor
//! window, which is kept on the island while it is minimised.
use crate::chrome::{cut_at_last, cut_at_last_str};
use crate::clock::millis_since;
use crate::encoding::opt_chars;
use crate::text::{
    ascii_lower, chars_eq, chars_of, contains, contains_str, eq_str, starts_with, starts_with_str,
    lemma_trim_idempotent, slice_range, string_from, string_of, string_views, to_ascii_lower, trim, trim_chars, utf8_len, utf8_len_exec,
};
use vstd::prelude::*;

verus! {

#[derive(PartialEq, Eq, Structural, Clone, Copy, Debug)]
pub enum IdeKind {
    Cursor,
    VsCode,
}

/// The editor a process image file name (lower case) belongs to.
pub open spec fn ide_of_image(name: Seq<char>) -> Option<IdeKind> {
    if name == "cursor.exe"@ {
        Some(IdeKind::Cursor)
    } else if name == "code.exe"@ {
        Some(IdeKind::VsCode)
    } else {
        None
    }
}

pub fn classify_exe(name: &str) -> (r: Option<IdeKind>)
    ensures
        r == ide_of_image(name@),
{
    let v = chars_of(name);
    if eq_str(&v, "cursor.exe") {
        Some(IdeKind::Cursor)
    } else if eq_str(&v, "code.exe") {
        Some(IdeKind::VsCode)
    } else {
        None
    }
}

pub open spec fn kind_app_id(k: IdeKind) -> Seq<char> {
    match k {
        IdeKind::Cursor => "cursor"@,
        IdeKind::VsCode => "vscode"@,
    }
}

pub open spec fn kind_display(k: IdeKind) -> Seq<char> {
    match k {
        IdeKind::Cursor => "Cursor"@,
        IdeKind::VsCode => "VS Code"@,
    }
}

/// The island's id and display name of an editor.
pub fn ide_kind_label(k: IdeKind) -> (r: (&'static str, &'static str))
    ensures
        r.0@ == kind_app_id(k),
        r.1@ == kind_display(k),
{
    match k {
        IdeKind::Cursor => ("cursor", "Cursor"),
        IdeKind::VsCode => ("vscode", "VS Code"),
    }
}

/// The title cut at the last occurrence of the first editor suffix that occurs.
pub open spec fn ide_title_base(s: Seq<char>) -> Seq<char> {
    if cut_at_last(s, " - Cursor"@) is Some {
        cut_at_last(s, " - Cursor"@)->0
    } else if cut_at_last(s, " – Cursor"@) is Some {
        cut_at_last(s, " – Cursor"@)->0
    } else if cut_at_last(s, " - Visual Studio Code"@) is Some {
        cut_at_last(s, " - Visual Studio Code"@)->0
    } else if cut_at_last(s, " – Visual Studio Code"@) is Some {
        cut_at_last(s, " – Visual Studio Code"@)->0
    } else if cut_at_last(s, " - Code"@) is Some {
        cut_at_last(s, " - Code"@)->0
    } else {
        s
    }
}

/// The shown title: the trimmed base, or the editor's name when that is empty.
pub open spec fn ide_title(s: Seq<char>, k: IdeKind) -> Seq<char> {
    let t = trim(ide_title_base(s));
    if t.len() == 0 {
        kind_display(k)
    } else {
        t
    }
}

pub fn strip_ide_title(title: &str, kind: IdeKind) -> (r: String)
    ensures
        r@ == ide_title(title@, kind),
{
    let s = chars_of(title);
    let base = if let Some(v) = cut_at_last_str(&s, " - Cursor") {
        v
    } else if let Some(v) = cut_at_last_str(&s, " – Cursor") {
        v
    } else if let Some(v) = cut_at_last_str(&s, " - Visual Studio Code") {
        v
    } else if let Some(v) = cut_at_last_str(&s, " – Visual Studio Code") {
        v
    } else if let Some(v) = cut_at_last_str(&s, " - Code") {
        v
    } else {
        s
    };
    let t = trim_chars(base.as_slice());
    if t.len() == 0 {
        match kind {
            IdeKind::Cursor => string_from("Cursor"),
            IdeKind::VsCode => string_from("VS Code"),
        }
    } else {
        string_of(t.as_slice())
    }
}

/// A name that asks the user to confirm something: run, accept, allow, approve,
/// reject or deny (English, any ASCII case, or Chinese).
pub open spec fn attention_hint(raw: Seq<char>) -> bool {
    let t = ascii_lower(raw);
    ||| contains(t, "accept"@)
    ||| contains(t, "allow"@)
    ||| contains(t, "approve"@)
    ||| contains(t, "run command"@)
    ||| contains(t, "reject"@)
    ||| contains(t, "deny"@)
    ||| contains(raw, "运行"@)
    ||| contains(raw, "接受"@)
    ||| contains(raw, "允许"@)
    ||| contains(raw, "确认"@)
    ||| contains(raw, "拒绝"@)
    ||| contains(raw, "批准"@)
}

pub fn name_hints_attention(raw: &str) -> (r: bool)
    ensures
        r == attention_hint(raw@),
{
    let v = chars_of(raw);
    let t = to_ascii_lower(v.as_slice());
    contains_str(&t, "accept") || contains_str(&t, "allow") || contains_str(&t, "approve")
        || contains_str(&t, "run command") || contains_str(&t, "reject") || contains_str(&t, "deny")
        || contains_str(&v, "运行") || contains_str(&v, "接受") || contains_str(&v, "允许")
        || contains_str(&v, "确认") || contains_str(&v, "拒绝") || contains_str(&v, "批准")
}

/// A text that says nothing about the editor's state: under 18 or over 3600
/// bytes once trimmed, the window title itself, the editor's or the welcome
/// page's name, or a short "open ..." label.
pub open spec fn junk_context(s: Seq<char>, title: Seq<char>) -> bool {
    let t = trim(s);
    let n = utf8_len(t);
    let tl = ascii_lower(t);
    ||| n < 18
    ||| n > 3600
    ||| t == title
    ||| tl == "cursor"@
    ||| tl == "visual studio code"@
    ||| tl == "welcome"@
    ||| starts_with(tl, "open "@) && n < 30
}

fn junk_chars(s: &[char], title: &[char]) -> (r: bool)
    ensures
        r == junk_context(s@, title@),
{
    let t = trim_chars(s);
    let n = utf8_len_exec(t.as_slice());
    if n < 18 || n > 3600 {
        return true;
    }
    if chars_eq(t.as_slice(), title) {
        return true;
    }
    let tl = to_ascii_lower(t.as_slice());
    if eq_str(&tl, "cursor") || eq_str(&tl, "visual studio code") || eq_str(&tl, "welcome") {
        return true;
    }
    starts_with_str(&tl, "open ") && n < 30
}

pub fn is_junk_context(s: &str, window_title_stripped: &str) -> (r: bool)
    ensures
        r == junk_context(s@, window_title_stripped@),
{
    let v = chars_of(s);
    let w = chars_of(window_title_stripped);
    junk_chars(v.as_slice(), w.as_slice())
}

/// A line of more than 160 characters is cut to 159 and marked with `…`.
pub open spec fn clip_line(s: Seq<char>) -> Seq<char> {
    if s.len() > 160 {
        s.take(159).push('…')
    } else {
        s
    }
}

/// Among the first `n` candidates, the index of the longest (in bytes, once
/// trimmed) that is not junk; the first of equally long ones.
pub open spec fn best_upto(c: Seq<Seq<char>>, title: Seq<char>, n: int) -> Option<int>
    decreases n,
{
    if n <= 0 {
        None
    } else {
        let prev = best_upto(c, title, n - 1);
        let t = trim(c[n - 1]);
        if junk_context(t, title) {
            prev
        } else {
            match prev {
                None => Some(n - 1),
                Some(j) => if utf8_len(t) > utf8_len(trim(c[j])) {
                    Some(n - 1)
                } else {
                    prev
                },
            }
        }
    }
}

/// The context line picked from the candidates.
pub open spec fn picked_context(c: Seq<Seq<char>>, title: Seq<char>) -> Option<Seq<char>> {
    match best_upto(c, title, c.len() as int) {
        Some(j) => Some(clip_line(trim(c[j]))),
        None => None,
    }
}

proof fn lemma_best_upto(c: Seq<Seq<char>>, title: Seq<char>, n: int)
    requires
        0 <= n <= c.len(),
    ensures
        match best_upto(c, title, n) {
            Some(j) => {
                &&& 0 <= j < n
                &&& !junk_context(trim(c[j]), title)
                &&& forall|i: int|
                    0 <= i < n && !junk_context(trim(c[i]), title) ==> utf8_len(trim(c[i]))
                        <= utf8_len(trim(c[j]))
                &&& forall|i: int|
                    0 <= i < j && !junk_context(trim(c[i]), title) ==> utf8_len(trim(c[i]))
                        < utf8_len(trim(c[j]))
            },
            None => forall|i: int| 0 <= i < n ==> junk_context(trim(c[i]), title),
        },
    decreases n,
{
    if n > 0 {
        lemma_best_upto(c, title, n - 1);
    }
}

/// The context line is the longest candidate (in bytes, once trimmed) that is
/// not junk, the first of equally long ones; there is none only when every
/// candidate is junk.
pub proof fn law_context_line_is_longest(c: Seq<Seq<char>>, title: Seq<char>)
    ensures
        picked_context(c, title) is None <==> forall|i: int|
            0 <= i < c.len() ==> junk_context(trim(c[i]), title),
        picked_context(c, title) is Some ==> exists|j: int|
            {
                &&& 0 <= j < c.len()
                &&& picked_context(c, title) == Some(clip_line(trim(c[j])))
                &&& !junk_context(trim(c[j]), title)
                &&& forall|i: int|
                    0 <= i < c.len() && !junk_context(trim(c[i]), title) ==> utf8_len(trim(c[i]))
                        <= utf8_len(trim(c[j]))
                &&& forall|i: int|
                    0 <= i < j && !junk_context(trim(c[i]), title) ==> utf8_len(trim(c[i]))
                        < utf8_len(trim(c[j]))
            },
{
    lemma_best_upto(c, title, c.len() as int);
    match best_upto(c, title, c.len() as int) {
        Some(j) => {
            assert(!junk_context(trim(c[j]), title));
        },
        None => {},
    }
}

pub fn pick_context_line(cands: &Vec<String>, window_title_stripped: &str) -> (r: Option<String>)
    ensures
        opt_chars(r) == picked_context(string_views(cands@), window_title_stripped@),
{
    let ghost c = string_views(cands@);
    let w = chars_of(window_title_stripped);
    let mut best: Option<Vec<char>> = None;
    let mut best_len: u128 = 0;
    let ghost mut best_i: Option<int> = None;
    let n = cands.len();
    for i in 0..n
        invariant
            n == cands@.len(),
            c == string_views(cands@),
            w@ == window_title_stripped@,
            best_i == best_upto(c, w@, i as int),
            match best_i {
                Some(j) => 0 <= j < i && best is Some && best->0@ == trim(c[j]) && best_len
                    == utf8_len(trim(c[j])),
                None => best is None && best_len == 0,
            },
    {
        let sv = chars_of(cands[i].as_str());
        assert(sv@ == c[i as int]);
        let tr = trim_chars(sv.as_slice());
        let junk = junk_chars(tr.as_slice(), w.as_slice());
        proof {
            lemma_trim_idempotent(c[i as int]);
        }
        if !junk {
            let len = utf8_len_exec(tr.as_slice());
            if len > best_len {
                proof {
                    assert(len >= 18);
                    best_i = Some(i as int);
                }
                best_len = len;
                best = Some(tr);
            }
        }
    }
    match best {
        Some(b) => {
            if b.len() > 160 {
                let mut o = slice_range(b.as_slice(), 0, 159);
                o.push('…');
                Some(string_of(o.as_slice()))
            } else {
                Some(string_of(b.as_slice()))
            }
        },
        None => None,
    }
}

// ───────────────────────── reading the accessibility tree ─────────────────────────

pub const WALK_MAX_DEPTH: usize = 48;

pub const WALK_MAX_NODES: usize = 650;

/// What a walk of an editor window's accessibility tree has gathered: the
/// candidate context lines, whether a confirmation button was seen, and how
/// many nodes were visited.
pub struct SurfaceWalk {
    pub window_title: String,
    pub cands: Vec<String>,
    pub needs_attention: bool,
    pub nodes: usize,
}

impl SurfaceWalk {
    pub open spec fn wf(&self) -> bool {
        self.nodes <= WALK_MAX_NODES
    }

    pub fn new(window_title_stripped: String) -> (w: Self)
        ensures
            w.window_title == window_title_stripped,
            w.cands@.len() == 0,
            !w.needs_attention,
            w.nodes == 0,
            w.wf(),
    {
        SurfaceWalk {
            window_title: window_title_stripped,
            cands: Vec::new(),
            needs_attention: false,
            nodes: 0,
        }
    }

    /// Whether a node at `depth` is visited: not below depth 48 and not after
    /// 650 nodes. A visited node is counted.
    pub fn enter(&mut self, depth: usize) -> (r: bool)
        requires
            old(self).wf(),
        ensures
            r == (depth <= WALK_MAX_DEPTH && old(self).nodes < WALK_MAX_NODES),
            r ==> final(self).nodes == old(self).nodes + 1,
            !r ==> final(self).nodes == old(self).nodes,
            final(self).wf(),
            final(self).window_title == old(self).window_title,
            final(self).cands == old(self).cands,
            final(self).needs_attention == old(self).needs_attention,
    {
        if depth > WALK_MAX_DEPTH || self.nodes >= WALK_MAX_NODES {
            return false;
        }
        self.nodes = self.nodes + 1;
        true
    }

    /// A node's name: a button whose name asks for confirmation raises the
    /// attention flag; a name of at least 22 bytes that is not junk becomes a
    /// candidate.
    pub fn visit_name(&mut self, name: &str, is_button: bool)
        ensures
            final(self).window_title == old(self).window_title,
            final(self).nodes == old(self).nodes,
            final(self).needs_attention == (old(self).needs_attention || (trim(name@).len() > 0
                && is_button && attention_hint(trim(name@)))),
            string_views(final(self).cands@) == if trim(name@).len() > 0 && utf8_len(trim(name@))
                >= 22 && !junk_context(trim(name@), old(self).window_title@) {
                string_views(old(self).cands@).push(trim(name@))
            } else {
                string_views(old(self).cands@)
            },
    {
        let v = chars_of(name);
        let t = trim_chars(v.as_slice());
        if t.len() == 0 {
            return;
        }
        let ts = string_of(t.as_slice());
        if is_button && name_hints_attention(ts.as_str()) {
            self.needs_attention = true;
        }
        let w = chars_of(self.window_title.as_str());
        if utf8_len_exec(t.as_slice()) >= 22 && !junk_chars(t.as_slice(), w.as_slice()) {
            let ghost before = self.cands@;
            self.cands.push(ts);
            assert(string_views(self.cands@) =~= string_views(before).push(trim(name@)));
        }
    }

    /// A node's value: one of at least 22 bytes, trimmed, becomes a candidate.
    pub fn visit_value(&mut self, value: &str)
        ensures
            final(self).window_title == old(self).window_title,
            final(self).nodes == old(self).nodes,
            final(self).needs_attention == old(self).needs_attention,
            string_views(final(self).cands@) == if utf8_len(trim(value@)) >= 22 {
                string_views(old(self).cands@).push(trim(value@))
            } else {
                string_views(old(self).cands@)
            },
    {
        let v = chars_of(value);
        let t = trim_chars(v.as_slice());
        if utf8_len_exec(t.as_slice()) >= 22 {
            let ghost before = self.cands@;
            self.cands.push(string_of(t.as_slice()));
            assert(string_views(self.cands@) =~= string_views(before).push(trim(value@)));
        }
    }

    /// The context line and attention flag of the walk; no line when the tree
    /// could not be read.
    pub fn finish(self, scraped: bool) -> (r: (Option<String>, bool))
        ensures
            opt_chars(r.0) == if scraped {
                picked_context(string_views(self.cands@), self.window_title@)
            } else {
                None
            },
            r.1 == self.needs_attention,
    {
        let ctx = if scraped {
            pick_context_line(&self.cands, self.window_title.as_str())
        } else {
            None
        };
        (ctx, self.needs_attention)
    }
}

/// The last reading of a window's tree.
pub struct SurfaceReading {
    pub hwnd: isize,
    pub at: std::time::Instant,
    pub context_line: Option<String>,
    pub needs_attention: bool,
}

/// A window's tree is read again at most every 520 ms.
pub struct ScrapeCache {
    pub last: Option<SurfaceReading>,
}

fn clone_opt_string(a: &Option<String>) -> (r: Option<String>)
    ensures
        opt_chars(r) == opt_chars(*a),
{
    match a {
        Some(x) => Some(x.clone()),
        None => None,
    }
}

impl ScrapeCache {
    pub fn new() -> (c: Self)
        ensures
            c.last is None,
    {
        ScrapeCache { last: None }
    }

    /// The last reading of `hwnd`, when it was started under 520 ms before:
    /// `elapsed_ms` is the time since that reading started.
    pub fn cached_after(&self, hwnd: isize, elapsed_ms: u128) -> (r: Option<(Option<String>, bool)>)
        ensures
            match self.last {
                Some(l) => if l.hwnd == hwnd && elapsed_ms < 520 {
                    r matches Some(v) && opt_chars(v.0) == opt_chars(l.context_line) && v.1
                        == l.needs_attention
                } else {
                    r is None
                },
                None => r is None,
            },
    {
        match &self.last {
            Some(l) => {
                if l.hwnd == hwnd && elapsed_ms < 520 {
                    Some((clone_opt_string(&l.context_line), l.needs_attention))
                } else {
                    None
                }
            },
            None => None,
        }
    }

    /// The last reading of `hwnd`, when it is under 520 ms old (the clock is
    /// read here; the decision is `cached_after`'s). Another window's reading,
    /// or none, is never returned.
    pub fn cached(&self, hwnd: isize) -> (r: Option<(Option<String>, bool)>)
        ensures
            r matches Some(v) ==> self.last matches Some(l) && l.hwnd == hwnd && opt_chars(v.0)
                == opt_chars(l.context_line) && v.1 == l.needs_attention,
            (self.last is None || self.last->0.hwnd != hwnd) ==> r is None,
    {
        let elapsed_ms = match &self.last {
            Some(l) => millis_since(&l.at),
            None => 0,
        };
        self.cached_after(hwnd, elapsed_ms)
    }

    /// Records a reading of `hwnd` started at `at`.
    pub fn store(&mut self, hwnd: isize, at: std::time::Instant, context_line: Option<String>, needs_attention: bool)
        ensures
            final(self).last matches Some(l) && l.hwnd == hwnd && l.at == at && l.context_line
                == context_line && l.needs_attention == needs_attention,
    {
        self.last = Some(SurfaceReading { hwnd, at, context_line, needs_attention });
    }
}

// ───────────────────────── the payload ─────────────────────────

pub struct IdeFocusBarPayload {
    /// `cursor` or `vscode`
    pub app_id: String,
    pub display_name: String,
    /// The title without the editor's suffix (mostly a file or workspace).
    pub window_title: String,
    /// A longer text read from the accessibility tree (best effort).
    pub context_line: Option<String>,
    /// A button asks the user to confirm something.
    pub needs_attention: bool,
    /// The editor is minimised and kept on the island.
    pub minimized: bool,
}

/// The payload for an editor window titled `full_title`, with what the tree
/// reading gave: a title that asks for confirmation raises the flag too.
pub fn build_ide_payload(kind: IdeKind, full_title: &str, scraped: (Option<String>, bool), minimized: bool) -> (r: IdeFocusBarPayload)
    ensures
        r.app_id@ == kind_app_id(kind),
        r.display_name@ == kind_display(kind),
        r.window_title@ == ide_title(full_title@, kind),
        r.context_line == scraped.0,
        r.needs_attention == (scraped.1 || attention_hint(full_title@)),
        r.minimized == minimized,
{
    let stripped = strip_ide_title(full_title, kind);
    let (app_id, display) = ide_kind_label(kind);
    let (context_line, needs) = scraped;
    let needs_attention = needs || name_hints_attention(full_title);
    IdeFocusBarPayload {
        app_id: string_from(app_id),
        display_name: string_from(display),
        window_title: stripped,
        context_line,
        needs_attention,
        minimized,
    }
}

pub open spec fn ide_payload_same(a: IdeFocusBarPayload, b: IdeFocusBarPayload) -> bool {
    &&& a.app_id@ == b.app_id@
    &&& a.display_name@ == b.display_name@
    &&& a.window_title@ == b.window_title@
    &&& opt_chars(a.context_line) == opt_chars(b.context_line)
    &&& a.needs_attention == b.needs_attention
    &&& a.minimized == b.minimized
}

pub open spec fn opt_ide_payload_same(a: Option<IdeFocusBarPayload>, b: Option<IdeFocusBarPayload>) -> bool {
    match (a, b) {
        (None, None) => true,
        (Some(x), Some(y)) => ide_payload_same(x, y),
        _ => false,
    }
}

fn opt_string_eq(a: &Option<String>, b: &Option<String>) -> (r: bool)
    ensures
        r == (opt_chars(*a) == opt_chars(*b)),
{
    match (a, b) {
        (None, None) => true,
        (Some(x), Some(y)) => *x == *y,
        _ => false,
    }
}

fn clone_ide_payload(p: &IdeFocusBarPayload) -> (r: IdeFocusBarPayload)
    ensures
        ide_payload_same(r, *p),
{
    IdeFocusBarPayload {
        app_id: p.app_id.clone(),
        display_name: p.display_name.clone(),
        window_title: p.window_title.clone(),
        context_line: clone_opt_string(&p.context_line),
        needs_attention: p.needs_attention,
        minimized: p.minimized,
    }
}

/// The last payload sent to the island.
pub struct IdeFocusSlot {
    pub last: Option<IdeFocusBarPayload>,
}

impl IdeFocusSlot {
    pub fn new() -> (s: Self)
        ensures
            s.last is None,
    {
        IdeFocusSlot { last: None }
    }

    /// Records `next`; returns it when it differs from the last one sent, to be sent.
    pub fn emit_if_changed(&mut self, next: Option<IdeFocusBarPayload>) -> (r: Option<Option<IdeFocusBarPayload>>)
        ensures
            opt_ide_payload_same(next, old(self).last) ==> r is None && final(self).last == old(self).last,
            !opt_ide_payload_same(next, old(self).last) ==> r == Some(next) && opt_ide_payload_same(
                final(self).last,
                next,
            ),
    {
        let same = match (&next, &self.last) {
            (None, None) => true,
            (Some(x), Some(y)) => x.app_id == y.app_id && x.display_name == y.display_name
                && x.window_title == y.window_title && opt_string_eq(&x.context_line, &y.context_line)
                && x.needs_attention == y.needs_attention && x.minimized == y.minimized,
            _ => false,
        };
        if same {
            return None;
        }
        self.last = match &next {
            Some(p) => Some(clone_ide_payload(p)),
            None => None,
        };
        Some(next)
    }
}

// ───────────────────────── which window to follow ─────────────────────────

/// The editor window last seen in the foreground.
pub struct IdeTracker {
    pub last_hwnd: Option<isize>,
}

/// What is known of the tracked window when the foreground is no editor.
pub struct TrackedWindow {
    /// It still exists.
    pub alive: bool,
    /// The editor its process belongs to.
    pub kind: Option<IdeKind>,
    /// It is minimised.
    pub minimized: bool,
}

impl IdeTracker {
    pub fn new() -> (t: Self)
        ensures
            t.last_hwnd is None,
    {
        IdeTracker { last_hwnd: None }
    }

    /// The window to show, its editor and whether it is minimised. An editor in
    /// the foreground is shown and tracked. Otherwise the tracked window is
    /// shown only while it is minimised; it is forgotten once it is gone or no
    /// longer an editor's.
    pub fn pick_window(&mut self, fg: isize, fg_kind: Option<IdeKind>, kept: TrackedWindow) -> (r: Option<(isize, IdeKind, bool)>)
        ensures
            fg_kind matches Some(k) ==> r == Some((fg, k, false)) && final(self).last_hwnd == Some(fg),
            fg_kind is None ==> match old(self).last_hwnd {
                None => r is None && final(self).last_hwnd is None,
                Some(h) => if !kept.alive || kept.kind is None {
                    r is None && final(self).last_hwnd is None
                } else if !kept.minimized {
                    r is None && final(self).last_hwnd == Some(h)
                } else {
                    r == Some((h, kept.kind->0, true)) && final(self).last_hwnd == Some(h)
                },
            },
    {
        if let Some(k) = fg_kind {
            self.last_hwnd = Some(fg);
            return Some((fg, k, false));
        }
        let h = match self.last_hwnd {
            Some(h) => h,
            None => return None,
        };
        if !kept.alive {
            self.last_hwnd = None;
            return None;
        }
        let kind = match kept.kind {
            Some(k) => k,
            None => {
                self.last_hwnd = None;
                return None;
            },
        };
        if !kept.minimized {
            return None;
        }
        Some((h, kind, true))
    }

    /// The window to bring back to the foreground, if one is tracked.
    pub fn focus_target(&self) -> (r: Option<isize>)
        ensures
            r == self.last_hwnd,
    {
        self.last_hwnd
    }
}

} // verus!
