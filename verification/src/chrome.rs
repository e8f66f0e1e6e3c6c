//! Following Chrome in the foreground: the page title from the window title,
//! the address read from the accessibility tree (best effort), and whether
//! Chrome's audio sessions are playing or muted.
use crate::clock::{instant_now, millis_since};
use crate::encoding::{opt_chars, url_decode, url_decoded};
use crate::text::{
    ascii_lower, before_first, before_first_str, chars_eq, chars_of, contains, contains_str, eq_str,
    file_name, file_name_exec, find, find_exec, has_char, lemma_find, lemma_rfind, occurs_at, rfind,
    rfind_exec, slice_range, starts_with, starts_with_str, string_from, string_of, strip_prefix,
    strip_prefix_str, to_ascii_lower, trim, trim_chars, utf8_len, utf8_len_exec,
};
use vstd::prelude::*;

verus! {

pub open spec fn min_int(a: int, b: int) -> int {
    if a < b {
        a
    } else {
        b
    }
}

/// How much a text looks like the page address: full `https` / `http` URLs
/// score highest, browser-internal schemes next, scheme-less domain-like paths
/// low; search prompts and texts under 4 or over 8192 bytes not at all.
pub open spec fn url_score(s: Seq<char>) -> Option<u32> {
    let t = trim(s);
    let n = utf8_len(t) as int;
    let tl = ascii_lower(t);
    if n < 4 || n > 8192 {
        None
    } else if contains(tl, "search google"@) || contains(tl, "type a url"@) || contains(
        tl,
        "google 搜索"@,
    ) || contains(tl, "search or type web address"@) {
        None
    } else if starts_with(t, "https://"@) {
        Some((2000 + min_int(n, 4096)) as u32)
    } else if starts_with(t, "http://"@) {
        Some((1500 + min_int(n, 4096)) as u32)
    } else if starts_with(t, "chrome://"@) || starts_with(t, "edge://"@) || starts_with(t, "about:"@)
        || starts_with(t, "file://"@) || starts_with(t, "devtools://"@) {
        Some((1200 + n) as u32)
    } else if (starts_with(t, "www."@) || contains(tl, "://"@)) && t.contains('/') && !t.contains(' ')
        && t.contains('.') {
        Some((120 + min_int(n, 512)) as u32)
    } else {
        None
    }
}

/// A text that is the right size (4 to 8192 bytes once trimmed) and no search
/// prompt scores by its scheme: `https://` 2000 and `http://` 1500 plus its
/// length up to 4096; a browser-internal address (`chrome://`, `edge://`,
/// `about:`, `file://`, `devtools://`) 1200 plus its length.
pub proof fn law_scheme_scores(s: Seq<char>)
    ensures
        ({
            let t = trim(s);
            let n = utf8_len(t) as int;
            let tl = ascii_lower(t);
            let plain = 4 <= n <= 8192 && !contains(tl, "search google"@) && !contains(tl, "type a url"@)
                && !contains(tl, "google 搜索"@) && !contains(tl, "search or type web address"@);
            &&& plain && starts_with(t, "https://"@) ==> url_score(s) == Some((2000 + min_int(n, 4096)) as u32)
            &&& plain && starts_with(t, "http://"@) ==> url_score(s) == Some((1500 + min_int(n, 4096)) as u32)
            &&& plain && !starts_with(t, "https://"@) && !starts_with(t, "http://"@) && (starts_with(
                t,
                "chrome://"@,
            ) || starts_with(t, "edge://"@) || starts_with(t, "about:"@) || starts_with(t, "file://"@)
                || starts_with(t, "devtools://"@)) ==> url_score(s) == Some((1200 + n) as u32)
            &&& plain && !starts_with(t, "https://"@) && !starts_with(t, "http://"@) && !starts_with(
                t,
                "chrome://"@,
            ) && !starts_with(t, "edge://"@) && !starts_with(t, "about:"@) && !starts_with(t, "file://"@)
                && !starts_with(t, "devtools://"@) && (starts_with(t, "www."@) || contains(tl, "://"@))
                && t.contains('/') && !t.contains(' ') && t.contains('.') ==> url_score(s) == Some(
                (120 + min_int(n, 512)) as u32,
            )
            &&& (n < 4 || n > 8192 || contains(tl, "search google"@) || contains(tl, "type a url"@)
                || contains(tl, "google 搜索"@) || contains(tl, "search or type web address"@))
                ==> url_score(s) is None
        }),
{
    reveal_strlit("https://");
    reveal_strlit("http://");
    let t = trim(s);
    if starts_with(t, "http://"@) && starts_with(t, "https://"@) {
        assert(t.subrange(0, 7)[4] == t[4]);
        assert(t.subrange(0, 8)[4] == t[4]);
    }
}

pub fn score_url_candidate(s: &str) -> (r: Option<u32>)
    ensures
        r == url_score(s@),
{
    let sv = chars_of(s);
    let t = trim_chars(sv.as_slice());
    let n = utf8_len_exec(t.as_slice());
    if n < 4 || n > 8192 {
        return None;
    }
    let tl = to_ascii_lower(t.as_slice());
    if contains_str(&tl, "search google") || contains_str(&tl, "type a url") || contains_str(
        &tl,
        "google 搜索",
    ) || contains_str(&tl, "search or type web address") {
        return None;
    }
    let n32 = n as u32;
    if starts_with_str(&t, "https://") {
        return Some(2000 + if n32 < 4096 {
            n32
        } else {
            4096
        });
    }
    if starts_with_str(&t, "http://") {
        return Some(1500 + if n32 < 4096 {
            n32
        } else {
            4096
        });
    }
    if starts_with_str(&t, "chrome://") || starts_with_str(&t, "edge://") || starts_with_str(
        &t,
        "about:",
    ) || starts_with_str(&t, "file://") || starts_with_str(&t, "devtools://") {
        return Some(1200 + n32);
    }
    if (starts_with_str(&t, "www.") || contains_str(&tl, "://")) && has_char(&t, '/') && !has_char(
        &t,
        ' ',
    ) && has_char(&t, '.') {
        return Some(120 + if n32 < 512 {
            n32
        } else {
            512
        });
    }
    None
}

/// Accessibility names of search-suggestion controls, whose URL-like values are ignored.
pub open spec fn skip_field_name(name: Seq<char>) -> bool {
    let nl = ascii_lower(name);
    contains(nl, "suggestion"@) || contains(nl, "search suggestions"@) || contains(nl, "推荐"@)
        || contains(nl, "联想"@) || contains(nl, "autocomplete"@)
}

pub fn should_skip_url_value_field(name: &str) -> (r: bool)
    ensures
        r == skip_field_name(name@),
{
    let v = chars_of(name);
    let nl = to_ascii_lower(v.as_slice());
    contains_str(&nl, "suggestion") || contains_str(&nl, "search suggestions") || contains_str(
        &nl,
        "推荐",
    ) || contains_str(&nl, "联想") || contains_str(&nl, "autocomplete")
}

/// Extra weight for controls named like the address bar.
pub open spec fn omnibox_bonus(name: Seq<char>, class: Seq<char>) -> int {
    let nl = ascii_lower(name);
    let cl = ascii_lower(class);
    let b1: int = if contains(nl, "address"@) && (contains(nl, "search"@) || contains(nl, "bar"@)) {
        14_000
    } else if contains(nl, "address and search"@) {
        14_000
    } else if contains(nl, "网址"@) || contains(nl, "地址栏"@) || contains(nl, "地址和搜索"@)
        || contains(nl, "地址和搜索栏"@) {
        12_000
    } else if contains(nl, "address"@) {
        9_000
    } else if contains(nl, "omnibox"@) {
        10_000
    } else {
        0
    };
    let b2: int = if contains(cl, "omnibox"@) {
        8_000
    } else {
        0
    };
    let b3: int = if contains(nl, "adresse"@) || contains(nl, "dirección"@) || contains(
        nl,
        "direccion"@,
    ) {
        7_000
    } else {
        0
    };
    b1 + b2 + b3
}

pub fn omnibox_accessibility_bonus(name: &str, class: &str) -> (r: u32)
    ensures
        r == omnibox_bonus(name@, class@),
{
    let nv = chars_of(name);
    let cv = chars_of(class);
    let nl = to_ascii_lower(nv.as_slice());
    let cl = to_ascii_lower(cv.as_slice());
    let mut b: u32 = 0;
    if contains_str(&nl, "address") && (contains_str(&nl, "search") || contains_str(&nl, "bar")) {
        b += 14_000;
    } else if contains_str(&nl, "address and search") {
        b += 14_000;
    } else if contains_str(&nl, "网址") || contains_str(&nl, "地址栏") || contains_str(&nl, "地址和搜索")
        || contains_str(&nl, "地址和搜索栏") {
        b += 12_000;
    } else if contains_str(&nl, "address") {
        b += 9_000;
    } else if contains_str(&nl, "omnibox") {
        b += 10_000;
    }
    if contains_str(&cl, "omnibox") {
        b += 8_000;
    }
    if contains_str(&nl, "adresse") || contains_str(&nl, "dirección") || contains_str(&nl, "direccion") {
        b += 7_000;
    }
    b
}

/// Shallower nodes are more likely the toolbar's address bar: 14 per level above 40.
pub fn depth_shallower_bonus(depth: usize) -> (r: u32)
    ensures
        r == (40 - min_int(depth as int, 40)) * 14,
{
    let d: u32 = if depth < 40 {
        depth as u32
    } else {
        40
    };
    (40 - d) * 14
}

/// What one `&`-separated query segment redirects to: its `q=` value,
/// decoded and trimmed, when that is an `http(s)` URL.
pub open spec fn segment_target(seg: Seq<char>) -> Option<Seq<char>> {
    match strip_prefix(seg, "q="@) {
        Some(enc) => match url_decoded(enc) {
            Some(d) => if starts_with(trim(d), "http://"@) || starts_with(trim(d), "https://"@) {
                Some(trim(d))
            } else {
                None
            },
            None => None,
        },
        None => None,
    }
}

/// The target of a Google redirect query: that of the first segment that has one.
pub open spec fn google_target(q: Seq<char>) -> Option<Seq<char>>
    decreases q.len(),
{
    let here = segment_target(before_first(q, "&"@));
    if here is Some {
        here
    } else {
        match find(q, "&"@) {
            Some(k) => {
                proof {
                    lemma_find(q, "&"@);
                    reveal_strlit("&");
                }
                google_target(q.skip(k + 1))
            },
            None => None,
        }
    }
}

proof fn lemma_google_target_step(q: Seq<char>, k: int)
    requires
        segment_target(before_first(q, "&"@)) is None,
        find(q, "&"@) == Some(k),
    ensures
        google_target(q) == google_target(q.skip(k + 1)),
{
}

fn segment_target_exec(seg: &Vec<char>) -> (r: Option<String>)
    ensures
        opt_chars(r) == segment_target(seg@),
{
    if let Some(enc) = strip_prefix_str(seg, "q=") {
        let es = string_of(enc.as_slice());
        if let Some(d) = url_decode(es.as_str()) {
            let dv = chars_of(d.as_str());
            let out = trim_chars(dv.as_slice());
            if starts_with_str(&out, "http://") || starts_with_str(&out, "https://") {
                return Some(string_of(out.as_slice()));
            }
        }
    }
    None
}

fn google_target_exec(q: &[char]) -> (r: Option<String>)
    ensures
        opt_chars(r) == google_target(q@),
{
    let amp = chars_of("&");
    proof {
        reveal_strlit("&");
    }
    let mut start: usize = 0;
    let n = q.len();
    assert(q@.skip(0) =~= q@);
    loop
        invariant
            n == q@.len(),
            amp@ == "&"@,
            start <= n,
            google_target(q@) == google_target(q@.skip(start as int)),
        decreases n - start,
    {
        let rest = slice_range(q, start, n);
        assert(rest@ == q@.skip(start as int));
        let seg = before_first_str(rest.as_slice(), "&");
        let here = segment_target_exec(&seg);
        if here.is_some() {
            return here;
        }
        assert(segment_target(before_first(rest@, "&"@)) is None);
        proof {
            lemma_find(rest@, amp@);
            reveal_strlit("&");
        }
        match find_exec(rest.as_slice(), amp.as_slice()) {
            Some(k) => {
                assert(occurs_at(rest@, amp@, k as int));
                assert(rest@.skip(k + 1) =~= q@.skip(start + k + 1));
                proof {
                    lemma_google_target_step(rest@, k as int);
                }
                start = start + k + 1;
            },
            None => {
                return None;
            },
        }
    }
}

/// A Google `/url?...q=` redirect link, unwrapped to its target.
pub open spec fn google_redirect_target(s: Seq<char>) -> Option<Seq<char>> {
    let t = trim(s);
    let lower = ascii_lower(t);
    if !contains(lower, "google."@) || !contains(lower, "/url"@) {
        None
    } else {
        match find(t, "?"@) {
            Some(k) => google_target(t.skip(k + 1)),
            None => None,
        }
    }
}

pub fn unwrap_google_redirect_url(s: &str) -> (r: Option<String>)
    ensures
        opt_chars(r) == google_redirect_target(s@),
{
    let sv = chars_of(s);
    let t = trim_chars(sv.as_slice());
    let lower = to_ascii_lower(t.as_slice());
    if !contains_str(&lower, "google.") || !contains_str(&lower, "/url") {
        return None;
    }
    let qm = chars_of("?");
    proof {
        lemma_find(t@, qm@);
        reveal_strlit("?");
    }
    match find_exec(t.as_slice(), qm.as_slice()) {
        Some(k) => {
            assert(occurs_at(t@, qm@, k as int));
            let tl = t.len();
            let q = slice_range(t.as_slice(), k + 1, tl);
            google_target_exec(q.as_slice())
        },
        None => None,
    }
}

pub open spec fn postprocessed(s: Option<Seq<char>>) -> Option<Seq<char>> {
    match s {
        None => None,
        Some(x) => match google_redirect_target(x) {
            Some(inner) => Some(inner),
            None => Some(x),
        },
    }
}

/// The address shown: a Google redirect is replaced by its target.
pub fn postprocess_chrome_url(s: Option<String>) -> (r: Option<String>)
    ensures
        opt_chars(r) == postprocessed(opt_chars(s)),
{
    let s = match s {
        Some(x) => x,
        None => return None,
    };
    if let Some(inner) = unwrap_google_redirect_url(s.as_str()) {
        return Some(inner);
    }
    Some(s)
}

// ───────────────────────── picking the address ─────────────────────────

/// Lexicographic order of character sequences (that of `String`).
pub open spec fn lex_lt(a: Seq<char>, b: Seq<char>) -> bool
    decreases a.len(),
{
    if b.len() == 0 {
        false
    } else if a.len() == 0 {
        true
    } else if a[0] != b[0] {
        (a[0] as u32) < (b[0] as u32)
    } else {
        lex_lt(a.drop_first(), b.drop_first())
    }
}

pub fn lex_less(a: &[char], b: &[char]) -> (r: bool)
    ensures
        r == lex_lt(a@, b@),
{
    let mut i: usize = 0;
    let na = a.len();
    let nb = b.len();
    assert(a@.skip(0) =~= a@);
    assert(b@.skip(0) =~= b@);
    loop
        invariant
            na == a@.len(),
            nb == b@.len(),
            i <= na,
            i <= nb,
            lex_lt(a@, b@) == lex_lt(a@.skip(i as int), b@.skip(i as int)),
        decreases na - i,
    {
        if i == nb {
            return false;
        }
        if i == na {
            return true;
        }
        if a[i] != b[i] {
            return (a[i] as u32) < (b[i] as u32);
        }
        assert(a@.skip(i as int).drop_first() =~= a@.skip(i + 1));
        assert(b@.skip(i as int).drop_first() =~= b@.skip(i + 1));
        i += 1;
    }
}

/// A candidate `(score, text)` beats the current best: higher score, or the
/// same score and a shorter text, or same score and length and a smaller text.
pub open spec fn beats(score: u32, s: Seq<char>, best: Option<(u32, Seq<char>)>) -> bool {
    match best {
        None => true,
        Some((sc, cur)) => score > sc || (score == sc && utf8_len(s) < utf8_len(cur)) || (score == sc
            && utf8_len(s) == utf8_len(cur) && lex_lt(s, cur)),
    }
}

/// The best address candidate seen while walking the accessibility tree.
pub struct UrlSearch {
    pub best: Option<(u32, String)>,
}

pub open spec fn best_view(b: Option<(u32, String)>) -> Option<(u32, Seq<char>)> {
    match b {
        Some((sc, s)) => Some((sc, s@)),
        None => None,
    }
}

pub open spec fn sat_add(a: int, b: int) -> int {
    if a + b > u32::MAX {
        u32::MAX as int
    } else {
        a + b
    }
}

/// The score a node's value gets, if it is a candidate at all.
pub open spec fn node_score(depth: int, name: Seq<char>, class: Seq<char>, value: Seq<char>) -> Option<u32> {
    if skip_field_name(name) {
        None
    } else {
        match url_score(value) {
            Some(base) => Some(
                sat_add(sat_add(base as int, omnibox_bonus(name, class)), (40 - min_int(depth, 40)) * 14) as u32,
            ),
            None => None,
        }
    }
}

/// The walk stops below depth 42.
pub fn walk_depth_ok(depth: usize) -> (r: bool)
    ensures
        r == (depth <= 42),
{
    depth <= 42
}

impl UrlSearch {
    pub fn new() -> (s: Self)
        ensures
            s.best is None,
    {
        UrlSearch { best: None }
    }

    /// Considers one node of the tree: its accessible name and class, and its
    /// value when it has a value pattern.
    pub fn visit(&mut self, depth: usize, name: &str, class: &str, value: Option<&str>)
        ensures
            match value {
                Some(v) => match node_score(depth as int, name@, class@, v@) {
                    Some(sc) => best_view(final(self).best) == (if beats(sc, v@, best_view(old(self).best)) {
                        Some((sc, v@))
                    } else {
                        best_view(old(self).best)
                    }),
                    None => best_view(final(self).best) == best_view(old(self).best),
                },
                None => best_view(final(self).best) == best_view(old(self).best),
            },
    {
        let v = match value {
            Some(v) => v,
            None => return,
        };
        if should_skip_url_value_field(name) {
            return;
        }
        let base = match score_url_candidate(v) {
            Some(b) => b,
            None => return,
        };
        let score = base.saturating_add(omnibox_accessibility_bonus(name, class)).saturating_add(
            depth_shallower_bonus(depth),
        );
        let vv = chars_of(v);
        let replace = match &self.best {
            None => true,
            Some((sc, cur)) => {
                let cv = chars_of(cur.as_str());
                let lv = utf8_len_exec(vv.as_slice());
                let lc = utf8_len_exec(cv.as_slice());
                score > *sc || (score == *sc && lv < lc) || (score == *sc && lv == lc && lex_less(
                    vv.as_slice(),
                    cv.as_slice(),
                ))
            },
        };
        if replace {
            self.best = Some((score, string_from(v)));
        }
    }

    pub fn result(self) -> (r: Option<String>)
        ensures
            opt_chars(r) == match best_view(self.best) {
                Some((_, s)) => Some(s),
                None => None,
            },
    {
        match self.best {
            Some((_, s)) => Some(s),
            None => None,
        }
    }
}

// ───────────────────────── window title ─────────────────────────

/// `s` cut at the last occurrence of `p`, if `p` occurs.
pub open spec fn cut_at_last(s: Seq<char>, p: Seq<char>) -> Option<Seq<char>> {
    match rfind(s, p) {
        Some(i) => Some(s.take(i)),
        None => None,
    }
}

pub fn cut_at_last_str(s: &Vec<char>, lit: &str) -> (r: Option<Vec<char>>)
    ensures
        match r {
            Some(v) => cut_at_last(s@, lit@) == Some(v@),
            None => cut_at_last(s@, lit@) is None,
        },
{
    let p = chars_of(lit);
    proof {
        lemma_rfind(s@, p@);
    }
    match rfind_exec(s.as_slice(), p.as_slice()) {
        Some(i) => {
            assert(occurs_at(s@, p@, i as int));
            Some(slice_range(s.as_slice(), 0, i))
        },
        None => None,
    }
}

/// Title with the first listed browser suffix cut off at its last occurrence.
pub open spec fn chrome_title_base(s: Seq<char>) -> Seq<char> {
    if cut_at_last(s, " - Google Chrome"@) is Some {
        cut_at_last(s, " - Google Chrome"@)->0
    } else if cut_at_last(s, " – Google Chrome"@) is Some {
        cut_at_last(s, " – Google Chrome"@)->0
    } else if cut_at_last(s, " - Chromium"@) is Some {
        cut_at_last(s, " - Chromium"@)->0
    } else if cut_at_last(s, " - Google Chrome Canary"@) is Some {
        cut_at_last(s, " - Google Chrome Canary"@)->0
    } else {
        s
    }
}

pub open spec fn chrome_title(s: Seq<char>) -> Seq<char> {
    let t = trim(chrome_title_base(s));
    if t.len() == 0 {
        "Chrome"@
    } else {
        t
    }
}

pub fn strip_chrome_suffix(title: &str) -> (r: String)
    ensures
        r@ == chrome_title(title@),
{
    let s = chars_of(title);
    let base = if let Some(v) = cut_at_last_str(&s, " - Google Chrome") {
        v
    } else if let Some(v) = cut_at_last_str(&s, " – Google Chrome") {
        v
    } else if let Some(v) = cut_at_last_str(&s, " - Chromium") {
        v
    } else if let Some(v) = cut_at_last_str(&s, " - Google Chrome Canary") {
        v
    } else {
        s
    };
    let t = trim_chars(base.as_slice());
    if t.len() == 0 {
        string_from("Chrome")
    } else {
        string_of(t.as_slice())
    }
}

/// The page title for a Chrome window whose title text is `raw` (`None` when it has none).
pub fn chrome_page_title(raw: Option<&str>) -> (r: String)
    ensures
        r@ == match raw {
            Some(t) => chrome_title(t@),
            None => "Chrome"@,
        },
{
    match raw {
        Some(t) => strip_chrome_suffix(t),
        None => string_from("Chrome"),
    }
}

/// The lower-cased file name of a process image path.
pub fn exe_base_name_lower(path: &str) -> (r: String)
    ensures
        r@ == ascii_lower(file_name(path@)),
{
    let v = chars_of(path);
    let f = file_name_exec(v.as_slice());
    let l = to_ascii_lower(f.as_slice());
    string_of(l.as_slice())
}

pub open spec fn chrome_image(name: Seq<char>) -> bool {
    name == "chrome.exe"@ || name == "chromium.exe"@
}

pub fn is_chrome_exe(name: &str) -> (r: bool)
    ensures
        r == chrome_image(name@),
{
    let v = chars_of(name);
    eq_str(&v, "chrome.exe") || eq_str(&v, "chromium.exe")
}

// ───────────────────────── audio sessions ─────────────────────────

/// Volume state read from one audio session.
pub struct SessionVolume {
    /// Mute flag, where readable.
    pub muted: Option<bool>,
    /// The master volume is above 0.001.
    pub level_above_threshold: bool,
    /// The session state is active.
    pub active: bool,
}

/// What is read of one audio session on the default output device.
pub struct AudioSessionRead {
    /// The session and its extended control could be obtained.
    pub fetched: bool,
    pub system_sounds: bool,
    /// Full path of the owning process image, where readable.
    pub exe_path: Option<String>,
    /// The session's grouping id, where readable.
    pub grouping: Option<u128>,
    /// Its volume control, where it could be obtained.
    pub volume: Option<SessionVolume>,
}

/// A Chrome session of the default device: fetched, not the system sounds, owned by Chrome, grouped.
pub open spec fn is_chrome_session(s: AudioSessionRead) -> bool {
    &&& s.fetched
    &&& !s.system_sounds
    &&& s.exe_path is Some
    &&& chrome_image(ascii_lower(file_name(s.exe_path->0@)))
    &&& s.grouping is Some
}

pub open spec fn counted(s: AudioSessionRead) -> bool {
    is_chrome_session(s) && s.volume is Some
}

pub open spec fn session_muted(s: AudioSessionRead) -> bool {
    match s.volume {
        Some(v) => match v.muted {
            Some(m) => m,
            None => false,
        },
        None => false,
    }
}

pub open spec fn session_audible(s: AudioSessionRead) -> bool {
    match s.volume {
        Some(v) => v.active && !session_muted(s) && v.level_above_threshold,
        None => false,
    }
}

/// `(has_sessions, audible, chrome_muted)`: Chrome has a counted session; one
/// of them is active, unmuted and above the threshold; there are counted
/// sessions and all are muted.
pub open spec fn aggregate_of(ss: Seq<AudioSessionRead>) -> (bool, bool, bool) {
    let has = exists|i: int| 0 <= i < ss.len() && counted(#[trigger] ss[i]);
    let audible = exists|i: int| 0 <= i < ss.len() && counted(#[trigger] ss[i]) && session_audible(ss[i]);
    let unmuted = exists|i: int| 0 <= i < ss.len() && counted(#[trigger] ss[i]) && !session_muted(ss[i]);
    (has, audible, has && !unmuted)
}

fn is_chrome_session_exec(s: &AudioSessionRead) -> (r: bool)
    ensures
        r == is_chrome_session(*s),
{
    if !s.fetched || s.system_sounds || s.grouping.is_none() {
        return false;
    }
    match &s.exe_path {
        Some(p) => {
            let name = exe_base_name_lower(p.as_str());
            is_chrome_exe(name.as_str())
        },
        None => false,
    }
}

pub fn chrome_audio_aggregate(sessions: &Vec<AudioSessionRead>) -> (r: (bool, bool, bool))
    ensures
        r == aggregate_of(sessions@),
{
    let mut has_sessions = false;
    let mut audible = false;
    let mut any_unmuted = false;
    let n = sessions.len();
    for i in 0..n
        invariant
            n == sessions@.len(),
            has_sessions == exists|j: int| 0 <= j < i && counted(#[trigger] sessions@[j]),
            audible == exists|j: int|
                0 <= j < i && counted(#[trigger] sessions@[j]) && session_audible(sessions@[j]),
            any_unmuted == exists|j: int|
                0 <= j < i && counted(#[trigger] sessions@[j]) && !session_muted(sessions@[j]),
    {
        let s = &sessions[i];
        if is_chrome_session_exec(s) {
            if let Some(v) = &s.volume {
                has_sessions = true;
                let mute = match v.muted {
                    Some(m) => m,
                    None => false,
                };
                if !mute {
                    any_unmuted = true;
                }
                if v.active && !mute && v.level_above_threshold {
                    audible = true;
                }
            }
        }
    }
    (has_sessions, audible, has_sessions && !any_unmuted)
}

/// Sessions to mute or unmute: each Chrome session whose grouping id has not
/// come up before among Chrome sessions.
pub open spec fn is_mute_target(ss: Seq<AudioSessionRead>, i: int) -> bool {
    &&& is_chrome_session(ss[i])
    &&& forall|j: int|
        0 <= j < i && is_chrome_session(#[trigger] ss[j]) ==> ss[j].grouping != ss[i].grouping
}

pub fn chrome_mute_targets(sessions: &Vec<AudioSessionRead>) -> (r: Vec<usize>)
    ensures
        forall|k: int| 0 <= k < r@.len() ==> #[trigger] r@[k] < sessions@.len(),
        forall|i: int| 0 <= i < sessions@.len() ==> (is_mute_target(sessions@, i) <==> r@.contains(i as usize)),
        forall|a: int, b: int| 0 <= a < b < r@.len() ==> r@[a] < r@[b],
{
    let mut seen: Vec<u128> = Vec::new();
    let mut r: Vec<usize> = Vec::new();
    let n = sessions.len();
    for i in 0..n
        invariant
            n == sessions@.len(),
            forall|k: int| 0 <= k < r@.len() ==> #[trigger] r@[k] < i,
            forall|a: int, b: int| 0 <= a < b < r@.len() ==> r@[a] < r@[b],
            forall|j: int| 0 <= j < i ==> (is_mute_target(sessions@, j) <==> r@.contains(j as usize)),
            forall|g: u128| seen@.contains(g) <==> exists|j: int|
                0 <= j < i && is_chrome_session(#[trigger] sessions@[j]) && sessions@[j].grouping
                    == Some(g),
    {
        let s = &sessions[i];
        if is_chrome_session_exec(s) {
            let g = s.grouping.unwrap();
            let mut dup = false;
            let m = seen.len();
            for k in 0..m
                invariant
                    m == seen@.len(),
                    dup == exists|t: int| 0 <= t < k && seen@[t] == g,
            {
                if seen[k] == g {
                    dup = true;
                }
            }
            let ghost before_seen = seen@;
            let ghost before_r = r@;
            proof {
                if dup {
                    let t = choose|t: int| 0 <= t < m && seen@[t] == g;
                    assert(seen@.contains(g));
                } else {
                    assert(!seen@.contains(g));
                }
            }
            if !dup {
                seen.push(g);
                r.push(i);
                assert(r@[r@.len() - 1] == i);
                assert(r@.contains(i));
            }
            assert forall|j: int| 0 <= j < i + 1 implies (is_mute_target(sessions@, j) <==> r@.contains(
                j as usize,
            )) by {
                if j < i {
                    if before_r.contains(j as usize) {
                        let w = choose|w: int| 0 <= w < before_r.len() && before_r[w] == j as usize;
                        assert(r@[w] == j as usize);
                    }
                    if r@.contains(j as usize) {
                        let w = choose|w: int| 0 <= w < r@.len() && r@[w] == j as usize;
                        if w < before_r.len() {
                            assert(before_r[w] == j as usize);
                        }
                    }
                } else {
                    if !dup {
                        assert forall|t: int| 0 <= t < i && is_chrome_session(#[trigger] sessions@[t]) implies sessions@[t].grouping != sessions@[i as int].grouping by {
                            if sessions@[t].grouping == Some(g) {
                                assert(before_seen.contains(g));
                            }
                        }
                    } else {
                        assert(before_seen.contains(g));
                        let t = choose|t: int| 0 <= t < i && is_chrome_session(#[trigger] sessions@[t]) && sessions@[t].grouping == Some(g);
                        assert(!is_mute_target(sessions@, j));
                        assert forall|w: int| 0 <= w < r@.len() implies #[trigger] r@[w] != i by {}
                    }
                }
            }
            assert forall|gg: u128| seen@.contains(gg) <==> exists|j: int|
                0 <= j < i + 1 && is_chrome_session(#[trigger] sessions@[j]) && sessions@[j].grouping
                    == Some(gg) by {
                if seen@.contains(gg) {
                    let w = choose|w: int| 0 <= w < seen@.len() && seen@[w] == gg;
                    if w < before_seen.len() {
                        assert(before_seen.contains(gg));
                    }
                }
                if exists|j: int|
                    0 <= j < i + 1 && is_chrome_session(#[trigger] sessions@[j]) && sessions@[j].grouping
                        == Some(gg) {
                    let j = choose|j: int|
                        0 <= j < i + 1 && is_chrome_session(#[trigger] sessions@[j]) && sessions@[j].grouping
                            == Some(gg);
                    if j < i {
                        assert(before_seen.contains(gg));
                        let w = choose|w: int| 0 <= w < before_seen.len() && before_seen[w] == gg;
                        assert(seen@[w] == gg);
                    } else if !dup {
                        assert(seen@[seen@.len() - 1] == gg);
                    }
                }
            }
        } else {
            let ghost before_r = r@;
            assert forall|j: int| 0 <= j < i + 1 implies (is_mute_target(sessions@, j) <==> r@.contains(
                j as usize,
            )) by {
                if j == i {
                    assert forall|w: int| 0 <= w < r@.len() implies #[trigger] r@[w] != i by {}
                }
            }
        }
    }
    r
}

// ───────────────────────── the payload ─────────────────────────

pub struct ChromeFocusBarPayload {
    pub page_title: String,
    /// Address read from the address bar (best effort).
    pub url: Option<String>,
    pub has_sessions: bool,
    pub audible: bool,
    pub chrome_muted: bool,
}

pub open spec fn payload_same(a: ChromeFocusBarPayload, b: ChromeFocusBarPayload) -> bool {
    &&& a.page_title@ == b.page_title@
    &&& opt_chars(a.url) == opt_chars(b.url)
    &&& a.has_sessions == b.has_sessions
    &&& a.audible == b.audible
    &&& a.chrome_muted == b.chrome_muted
}

pub open spec fn opt_payload_same(a: Option<ChromeFocusBarPayload>, b: Option<ChromeFocusBarPayload>) -> bool {
    match (a, b) {
        (None, None) => true,
        (Some(x), Some(y)) => payload_same(x, y),
        _ => false,
    }
}

fn opt_string_eq(a: &Option<String>, b: &Option<String>) -> (r: bool)
    ensures
        r == (opt_chars(*a) == opt_chars(*b)),
{
    match (a, b) {
        (None, None) => true,
        (Some(x), Some(y)) => *x == *y,
        _ => false,
    }
}

fn clone_opt_string(a: &Option<String>) -> (r: Option<String>)
    ensures
        opt_chars(r) == opt_chars(*a),
{
    match a {
        Some(x) => Some(x.clone()),
        None => None,
    }
}

fn clone_payload(p: &ChromeFocusBarPayload) -> (r: ChromeFocusBarPayload)
    ensures
        payload_same(r, *p),
{
    ChromeFocusBarPayload {
        page_title: p.page_title.clone(),
        url: clone_opt_string(&p.url),
        has_sessions: p.has_sessions,
        audible: p.audible,
        chrome_muted: p.chrome_muted,
    }
}

/// The payload for the foreground Chrome window.
pub fn build_chrome_payload(page_title: String, url: Option<String>, audio: (bool, bool, bool)) -> (r:
    ChromeFocusBarPayload)
    ensures
        r.page_title == page_title,
        r.url == url,
        r.has_sessions == audio.0,
        r.audible == audio.1,
        r.chrome_muted == audio.2,
{
    ChromeFocusBarPayload {
        page_title,
        url,
        has_sessions: audio.0,
        audible: audio.1,
        chrome_muted: audio.2,
    }
}

/// The last payload sent to the island.
pub struct ChromeFocusSlot {
    pub last: Option<ChromeFocusBarPayload>,
}

impl ChromeFocusSlot {
    pub fn new() -> (s: Self)
        ensures
            s.last is None,
    {
        ChromeFocusSlot { last: None }
    }

    /// Records `next`; returns it when it differs from the last one sent, to be sent.
    pub fn emit_if_changed(&mut self, next: Option<ChromeFocusBarPayload>) -> (r: Option<Option<ChromeFocusBarPayload>>)
        ensures
            opt_payload_same(next, old(self).last) ==> r is None && final(self).last == old(self).last,
            !opt_payload_same(next, old(self).last) ==> r == Some(next) && opt_payload_same(final(self).last, next),
    {
        let same = match (&next, &self.last) {
            (None, None) => true,
            (Some(x), Some(y)) => x.page_title == y.page_title && opt_string_eq(&x.url, &y.url)
                && x.has_sessions == y.has_sessions && x.audible == y.audible && x.chrome_muted
                == y.chrome_muted,
            _ => false,
        };
        if same {
            return None;
        }
        self.last = match &next {
            Some(p) => Some(clone_payload(p)),
            None => None,
        };
        Some(next)
    }
}

// ───────────────────────── address cache ─────────────────────────

/// The address is re-read at most every 480 ms for the same window and title.
pub struct ChromeUrlCache {
    url: Option<String>,
    last_uia_at: Option<std::time::Instant>,
    last_hwnd: Option<isize>,
    last_title: Option<String>,
}

impl ChromeUrlCache {
    pub closed spec fn cached_url(&self) -> Option<Seq<char>> {
        opt_chars(self.url)
    }

    pub closed spec fn read_before(&self) -> bool {
        self.last_uia_at is Some
    }

    pub closed spec fn window(&self) -> Option<isize> {
        self.last_hwnd
    }

    pub closed spec fn title(&self) -> Option<Seq<char>> {
        opt_chars(self.last_title)
    }

    pub fn new() -> (c: Self)
        ensures
            c.cached_url() is None,
            !c.read_before(),
            c.window() is None,
            c.title() is None,
    {
        ChromeUrlCache { url: None, last_uia_at: None, last_hwnd: None, last_title: None }
    }

    /// Starts a poll for window `hwnd` titled `title` at `now`, `elapsed_ms`
    /// milliseconds after the last read (not read when there was none).
    /// Returns `now`, to record, when the address must be read again: on a new
    /// window, a new title or the first read, or once 480 ms have passed.
    pub fn begin_after(&mut self, hwnd: isize, title: &str, elapsed_ms: u128, now: std::time::Instant) -> (r: Option<std::time::Instant>)
        ensures
            r == if old(self).window() != Some(hwnd) || old(self).title() != Some(title@)
                || !old(self).read_before() || elapsed_ms >= 480 {
                Some(now)
            } else {
                None
            },
            final(self).title() == Some(title@),
            final(self).cached_url() == old(self).cached_url(),
            final(self).window() == old(self).window(),
            final(self).read_before() == old(self).read_before(),
    {
        let tv = chars_of(title);
        let title_changed = match &self.last_title {
            Some(t) => {
                let lv = chars_of(t.as_str());
                !chars_eq(lv.as_slice(), tv.as_slice())
            },
            None => true,
        };
        let stale = match &self.last_uia_at {
            Some(_) => elapsed_ms >= 480,
            None => true,
        };
        let other_window = match self.last_hwnd {
            Some(h) => h != hwnd,
            None => true,
        };
        if title_changed {
            self.last_title = Some(string_from(title));
        }
        if other_window || stale || title_changed {
            Some(now)
        } else {
            None
        }
    }

    /// Starts a poll for window `hwnd` titled `title`. Returns the instant to
    /// record when the address must be read again: always on a new window, a
    /// new title or the first read; otherwise once 480 ms have passed (the
    /// clock is read here; the decision is `begin_after`'s).
    pub fn begin(&mut self, hwnd: isize, title: &str) -> (r: Option<std::time::Instant>)
        ensures
            (old(self).window() != Some(hwnd) || old(self).title() != Some(title@)
                || !old(self).read_before()) ==> r is Some,
            final(self).title() == Some(title@),
            final(self).cached_url() == old(self).cached_url(),
            final(self).window() == old(self).window(),
            final(self).read_before() == old(self).read_before(),
    {
        let elapsed_ms = match &self.last_uia_at {
            Some(t) => millis_since(t),
            None => 0,
        };
        let now = instant_now();
        self.begin_after(hwnd, title, elapsed_ms, now)
    }

    /// Records the address just read (`raw`) for `hwnd` at `now`.
    pub fn store(&mut self, hwnd: isize, now: std::time::Instant, raw: Option<String>)
        ensures
            final(self).cached_url() == postprocessed(opt_chars(raw)),
            final(self).window() == Some(hwnd),
            final(self).read_before(),
            final(self).title() == old(self).title(),
    {
        self.url = postprocess_chrome_url(raw);
        self.last_uia_at = Some(now);
        self.last_hwnd = Some(hwnd);
    }

    /// The address to show.
    pub fn current(&self) -> (r: Option<String>)
        ensures
            opt_chars(r) == postprocessed(self.cached_url()),
    {
        postprocess_chrome_url(clone_opt_string(&self.url))
    }
}

} // verus!
