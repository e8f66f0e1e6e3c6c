//! Now-playing media: choosing among the system media sessions, reading the
//! player window titles as a fallback, and the accent colour of the cover.
use crate::encoding::{base64_encode, base64_standard, to_lowercase, unicode_lower};
use crate::fmt::{hex2, hex2_exec};
use crate::text::{
    before_first, before_first_str, chars_of, contains, contains_str, ends_with, ends_with_exec, eq_str,
    extend, file_name, file_name_exec, find, find_exec, lemma_find, occurs_at, slice_range, string_from,
    string_of, trim, trim_chars, trim_end_matches, trim_end_matches_exec,
};
use vstd::prelude::*;
use vstd::utf8::is_ascii_chars;

verus! {

pub struct MediaInfo {
    pub title: String,
    pub artist: String,
    pub thumbnail: String,
    pub accent: String,
    pub status: String,
    pub position_ms: u64,
    pub duration_ms: u64,
    pub source: String,
}

pub struct MediaView {
    pub title: Seq<char>,
    pub artist: Seq<char>,
    pub thumbnail: Seq<char>,
    pub accent: Seq<char>,
    pub status: Seq<char>,
    pub position_ms: u64,
    pub duration_ms: u64,
    pub source: Seq<char>,
}

impl View for MediaInfo {
    type V = MediaView;

    open spec fn view(&self) -> MediaView {
        MediaView {
            title: self.title@,
            artist: self.artist@,
            thumbnail: self.thumbnail@,
            accent: self.accent@,
            status: self.status@,
            position_ms: self.position_ms,
            duration_ms: self.duration_ms,
            source: self.source@,
        }
    }
}

pub open spec fn media_opt_view(m: Option<MediaInfo>) -> Option<MediaView> {
    match m {
        Some(x) => Some(x@),
        None => None,
    }
}

/// A copy of the media information.
pub fn clone_media(m: &MediaInfo) -> (r: MediaInfo)
    ensures
        r@ == m@,
{
    MediaInfo {
        title: m.title.clone(),
        artist: m.artist.clone(),
        thumbnail: m.thumbnail.clone(),
        accent: m.accent.clone(),
        status: m.status.clone(),
        position_ms: m.position_ms,
        duration_ms: m.duration_ms,
        source: m.source.clone(),
    }
}

pub fn clone_media_opt(m: &Option<MediaInfo>) -> (r: Option<MediaInfo>)
    ensures
        media_opt_view(r) == media_opt_view(*m),
{
    match m {
        Some(x) => Some(clone_media(x)),
        None => None,
    }
}

// ───────────────────────── accent colour ─────────────────────────

/// The sampling stride: one pixel in 64, at least every third byte.
pub open spec fn accent_step(len: nat) -> nat {
    if len / 3 / 64 > 3 {
        len / 3 / 64
    } else {
        3
    }
}

/// A sample at `i` counts when its brightness `(r + g + b) / 3` lies strictly between 30 and 220.
pub open spec fn sample_counts(data: Seq<u8>, i: int) -> bool {
    let br = (data[i] + data[i + 1] + data[i + 2]) / 3;
    30 < br < 220
}

/// Sums of red, green and blue over the counted samples at `i, i + step, ...`, and their number.
pub open spec fn accent_totals(data: Seq<u8>, step: nat, i: nat) -> (int, int, int, int)
    decreases data.len() + step - i,
{
    if step == 0 || i + 2 >= data.len() {
        (0, 0, 0, 0)
    } else {
        let rest = accent_totals(data, step, i + step);
        if sample_counts(data, i as int) {
            (
                data[i as int] + rest.0,
                data[i + 1int] + rest.1,
                data[i + 2int] + rest.2,
                rest.3 + 1,
            )
        } else {
            rest
        }
    }
}

/// `#rrggbb` of the mean counted sample, or `#a0a0a0` when none counts.
pub open spec fn accent_of(data: Seq<u8>) -> Seq<char> {
    let t = accent_totals(data, accent_step(data.len()), 0);
    if t.3 == 0 {
        "#a0a0a0"@
    } else {
        seq!['#'] + hex2((t.0 / t.3) as u8) + hex2((t.1 / t.3) as u8) + hex2((t.2 / t.3) as u8)
    }
}

pub fn extract_accent(data: &[u8]) -> (r: String)
    ensures
        r@ == accent_of(data@),
{
    let len = data.len();
    let step = if len / 3 / 64 > 3 {
        len / 3 / 64
    } else {
        3
    };
    let (mut rs, mut gs, mut bs, mut n) = (0u128, 0u128, 0u128, 0u128);
    let mut i: usize = 0;
    let ghost total = accent_totals(data@, step as nat, 0);
    while i < len && len - i > 2
        invariant
            len == data@.len(),
            step == accent_step(len as nat),
            step >= 3,
            rs + accent_totals(data@, step as nat, i as nat).0 == total.0,
            gs + accent_totals(data@, step as nat, i as nat).1 == total.1,
            bs + accent_totals(data@, step as nat, i as nat).2 == total.2,
            n + accent_totals(data@, step as nat, i as nat).3 == total.3,
            rs <= 255 * n,
            gs <= 255 * n,
            bs <= 255 * n,
            n <= i,
            i <= len,
        decreases len - i,
    {
        let (r, g, b) = (data[i] as u128, data[i + 1] as u128, data[i + 2] as u128);
        let br = (r + g + b) / 3;
        if br > 30 && br < 220 {
            rs += r;
            gs += g;
            bs += b;
            n += 1;
        }
        if step >= len - i {
            assert(accent_totals(data@, step as nat, (i + step) as nat) == accent_totals(
                data@,
                step as nat,
                len as nat,
            ));
            i = len;
        } else {
            i += step;
        }
    }
    if n == 0 {
        return string_from("#a0a0a0");
    }
    assert(rs / n <= 255) by (nonlinear_arith)
        requires
            rs <= 255 * n,
            n > 0,
    ;
    assert(gs / n <= 255) by (nonlinear_arith)
        requires
            gs <= 255 * n,
            n > 0,
    ;
    assert(bs / n <= 255) by (nonlinear_arith)
        requires
            bs <= 255 * n,
            n > 0,
    ;
    let mut out: Vec<char> = Vec::new();
    out.push('#');
    let h1 = hex2_exec((rs / n) as u8);
    let h2 = hex2_exec((gs / n) as u8);
    let h3 = hex2_exec((bs / n) as u8);
    extend(&mut out, h1.as_slice());
    extend(&mut out, h2.as_slice());
    extend(&mut out, h3.as_slice());
    string_of(out.as_slice())
}

// ───────────────────────── sources and titles ─────────────────────────

/// Source tag for an already lower-cased application id.
pub open spec fn normalized_source(l: Seq<char>) -> Seq<char> {
    if contains(l, "qqmusic"@) || contains(l, "qq音乐"@) {
        "qqmusic"@
    } else if contains(l, "cloudmusic"@) || contains(l, "netease"@) || contains(l, "orpheus"@) {
        "cloudmusic"@
    } else if contains(l, "spotify"@) {
        "spotify"@
    } else if contains(l, "chrome"@) {
        "chrome"@
    } else {
        "unknown"@
    }
}

proof fn lemma_absent(s: Seq<char>, p: Seq<char>)
    requires
        p.len() > 0,
        forall|j: int| 0 <= j && j + p.len() <= s.len() ==> s[j] != p[0],
    ensures
        !contains(s, p),
{
    if contains(s, p) {
        let i = choose|i: int| occurs_at(s, p, i);
        assert(s.subrange(i, i + p.len())[0] == s[i]);
    }
}

proof fn lemma_present(s: Seq<char>)
    ensures
        contains(s, s),
{
    assert(s.subrange(0, s.len() as int) =~= s);
    assert(occurs_at(s, s, 0));
}

proof fn lemma_qqmusic_maps_to_itself()
    ensures
        normalized_source("qqmusic"@) == "qqmusic"@,
{
    reveal_strlit("qqmusic");
    lemma_present("qqmusic"@);
}

proof fn lemma_qqmusic_is_lower_ascii()
    ensures
        is_ascii_chars("qqmusic"@),
        crate::text::ascii_lower("qqmusic"@) == "qqmusic"@,
{
    reveal_strlit("qqmusic");
    assert(crate::text::ascii_lower("qqmusic"@) =~= "qqmusic"@);
}

proof fn lemma_cloudmusic_maps_to_itself()
    ensures
        normalized_source("cloudmusic"@) == "cloudmusic"@,
{
    reveal_strlit("cloudmusic");
    reveal_strlit("qqmusic");
    reveal_strlit("qq音乐");
    lemma_present("cloudmusic"@);
    lemma_absent("cloudmusic"@, "qqmusic"@);
    lemma_absent("cloudmusic"@, "qq音乐"@);
}

proof fn lemma_cloudmusic_is_lower_ascii()
    ensures
        is_ascii_chars("cloudmusic"@),
        crate::text::ascii_lower("cloudmusic"@) == "cloudmusic"@,
{
    reveal_strlit("cloudmusic");
    assert(crate::text::ascii_lower("cloudmusic"@) =~= "cloudmusic"@);
}

proof fn lemma_spotify_maps_to_itself()
    ensures
        normalized_source("spotify"@) == "spotify"@,
{
    reveal_strlit("spotify");
    reveal_strlit("qqmusic");
    reveal_strlit("qq音乐");
    reveal_strlit("cloudmusic");
    reveal_strlit("netease");
    reveal_strlit("orpheus");
    lemma_present("spotify"@);
    lemma_absent("spotify"@, "qqmusic"@);
    lemma_absent("spotify"@, "qq音乐"@);
    lemma_absent("spotify"@, "cloudmusic"@);
    lemma_absent("spotify"@, "netease"@);
    lemma_absent("spotify"@, "orpheus"@);
}

proof fn lemma_spotify_is_lower_ascii()
    ensures
        is_ascii_chars("spotify"@),
        crate::text::ascii_lower("spotify"@) == "spotify"@,
{
    reveal_strlit("spotify");
    assert(crate::text::ascii_lower("spotify"@) =~= "spotify"@);
}

proof fn lemma_chrome_maps_to_itself()
    ensures
        normalized_source("chrome"@) == "chrome"@,
{
    reveal_strlit("chrome");
    reveal_strlit("qqmusic");
    reveal_strlit("qq音乐");
    reveal_strlit("cloudmusic");
    reveal_strlit("netease");
    reveal_strlit("orpheus");
    reveal_strlit("spotify");
    lemma_present("chrome"@);
    lemma_absent("chrome"@, "qqmusic"@);
    lemma_absent("chrome"@, "qq音乐"@);
    lemma_absent("chrome"@, "cloudmusic"@);
    lemma_absent("chrome"@, "netease"@);
    lemma_absent("chrome"@, "orpheus"@);
    lemma_absent("chrome"@, "spotify"@);
}

proof fn lemma_chrome_is_lower_ascii()
    ensures
        is_ascii_chars("chrome"@),
        crate::text::ascii_lower("chrome"@) == "chrome"@,
{
    reveal_strlit("chrome");
    assert(crate::text::ascii_lower("chrome"@) =~= "chrome"@);
}

proof fn lemma_unknown_maps_to_itself()
    ensures
        normalized_source("unknown"@) == "unknown"@,
{
    reveal_strlit("unknown");
    reveal_strlit("qqmusic");
    reveal_strlit("qq音乐");
    reveal_strlit("cloudmusic");
    reveal_strlit("netease");
    reveal_strlit("orpheus");
    reveal_strlit("spotify");
    reveal_strlit("chrome");
    lemma_present("unknown"@);
    lemma_absent("unknown"@, "qqmusic"@);
    lemma_absent("unknown"@, "qq音乐"@);
    lemma_absent("unknown"@, "cloudmusic"@);
    lemma_absent("unknown"@, "netease"@);
    lemma_absent("unknown"@, "orpheus"@);
    lemma_absent("unknown"@, "spotify"@);
    lemma_absent("unknown"@, "chrome"@);
}

proof fn lemma_unknown_is_lower_ascii()
    ensures
        is_ascii_chars("unknown"@),
        crate::text::ascii_lower("unknown"@) == "unknown"@,
{
    reveal_strlit("unknown");
    assert(crate::text::ascii_lower("unknown"@) =~= "unknown"@);
}

/// What `normalize_source` returns is one of its own outputs: lower-case ASCII
/// (which lower-casing keeps) that maps to itself.
pub proof fn law_normalized_source_is_fixed(l: Seq<char>)
    ensures
        ({
            let r = normalized_source(l);
            &&& r == "qqmusic"@ || r == "cloudmusic"@ || r == "spotify"@ || r == "chrome"@ || r == "unknown"@
            &&& is_ascii_chars(r)
            &&& crate::text::ascii_lower(r) == r
            &&& normalized_source(r) == r
        }),
{
    lemma_qqmusic_maps_to_itself();
    lemma_qqmusic_is_lower_ascii();
    lemma_cloudmusic_maps_to_itself();
    lemma_cloudmusic_is_lower_ascii();
    lemma_spotify_maps_to_itself();
    lemma_spotify_is_lower_ascii();
    lemma_chrome_maps_to_itself();
    lemma_chrome_is_lower_ascii();
    lemma_unknown_maps_to_itself();
    lemma_unknown_is_lower_ascii();
}

/// Maps a media session's application id to `qqmusic`, `cloudmusic`, `spotify`, `chrome` or `unknown`.
pub fn normalize_source(source: &str) -> (r: String)
    ensures
        r@ == normalized_source(unicode_lower(source@)),
        is_ascii_chars(r@),
        crate::text::ascii_lower(r@) == r@,
        normalized_source(r@) == r@,
{
    proof {
        law_normalized_source_is_fixed(unicode_lower(source@));
    }
    let lower = to_lowercase(source);
    let s = chars_of(lower.as_str());
    if contains_str(&s, "qqmusic") || contains_str(&s, "qq音乐") {
        string_from("qqmusic")
    } else if contains_str(&s, "cloudmusic") || contains_str(&s, "netease") || contains_str(
        &s,
        "orpheus",
    ) {
        string_from("cloudmusic")
    } else if contains_str(&s, "spotify") {
        string_from("spotify")
    } else if contains_str(&s, "chrome") {
        string_from("chrome")
    } else {
        string_from("unknown")
    }
}

/// The title with the first matching player suffix removed.
pub open spec fn strip_player_suffix(t: Seq<char>) -> Seq<char> {
    if ends_with(t, " - 网易云音乐"@) {
        t.take(t.len() - " - 网易云音乐"@.len())
    } else if ends_with(t, " - NetEase Cloud Music"@) {
        t.take(t.len() - " - NetEase Cloud Music"@.len())
    } else if ends_with(t, " - QQ音乐"@) {
        t.take(t.len() - " - QQ音乐"@.len())
    } else if ends_with(t, " - Spotify"@) {
        t.take(t.len() - " - Spotify"@.len())
    } else {
        t
    }
}

/// `(song, artist)` read from a player window title `song - artist[ - ...][ - player]`.
pub open spec fn parsed_title(title: Seq<char>) -> (Seq<char>, Seq<char>) {
    let t = strip_player_suffix(title);
    match find(t, " - "@) {
        Some(pos) => (
            trim(t.take(pos)),
            trim(before_first(trim(t.skip(pos + 3)), " - "@)),
        ),
        None => (t, Seq::empty()),
    }
}

fn strip_suffix_lit(t: &Vec<char>, suffix: &str) -> (r: Option<Vec<char>>)
    ensures
        r matches Some(v) ==> ends_with(t@, suffix@) && v@ == t@.take(t@.len() - suffix@.len()),
        r is None ==> !ends_with(t@, suffix@),
{
    let p = chars_of(suffix);
    if ends_with_exec(t.as_slice(), p.as_slice()) {
        Some(slice_range(t.as_slice(), 0, t.len() - p.len()))
    } else {
        None
    }
}

/// Splits a player window title into song and artist.
pub fn parse_title(title: &str, app_hint: &str) -> (r: (String, String))
    ensures
        (r.0@, r.1@) == parsed_title(title@),
{
    let _ = app_hint;
    let t0 = chars_of(title);
    let t = if let Some(v) = strip_suffix_lit(&t0, " - 网易云音乐") {
        v
    } else if let Some(v) = strip_suffix_lit(&t0, " - NetEase Cloud Music") {
        v
    } else if let Some(v) = strip_suffix_lit(&t0, " - QQ音乐") {
        v
    } else if let Some(v) = strip_suffix_lit(&t0, " - Spotify") {
        v
    } else {
        t0
    };
    assert(t@ == strip_player_suffix(title@));
    let sep = chars_of(" - ");
    proof {
        lemma_find(t@, sep@);
    }
    proof {
        reveal_strlit(" - ");
    }
    match find_exec(t.as_slice(), sep.as_slice()) {
        Some(pos) => {
            assert(occurs_at(t@, sep@, pos as int));
            let head = slice_range(t.as_slice(), 0, pos);
            let song = trim_chars(head.as_slice());
            let tl = t.len();
            assert(sep@.len() == 3);
            let tail = slice_range(t.as_slice(), pos + 3, tl);
            let tail_t = trim_chars(tail.as_slice());
            let first = before_first_str(tail_t.as_slice(), " - ");
            let artist = trim_chars(first.as_slice());
            assert(head@ == t@.take(pos as int));
            assert(tail@ == t@.skip(pos + 3));
            (string_of(song.as_slice()), string_of(artist.as_slice()))
        },
        None => (string_of(t.as_slice()), String::new()),
    }
}

/// 100-ns ticks to milliseconds; negative spans count as zero.
pub fn timespan_to_ms(ticks: i64) -> (r: u64)
    ensures
        r == (if ticks <= 0 {
            0
        } else {
            ticks / 10_000
        }),
{
    if ticks <= 0 {
        0
    } else {
        (ticks as u64) / 10_000
    }
}

/// QQ Music's media session is known to report nothing useful; it is recognised by its id.
pub open spec fn qq_session_id(l: Seq<char>) -> bool {
    l.len() > 0 && (contains(l, "qqmusic"@) || contains(l, "qq音乐"@) || contains(
        l,
        "tencent.qqmusic"@,
    ) || contains(l, "y.qq.com"@))
}

pub fn aumid_is_qq_music_smtc_broken(id: &str) -> (r: bool)
    ensures
        r == qq_session_id(unicode_lower(id@)),
{
    let lower = to_lowercase(id);
    let l = chars_of(lower.as_str());
    if l.len() == 0 {
        return false;
    }
    contains_str(&l, "qqmusic") || contains_str(&l, "qq音乐") || contains_str(&l, "tencent.qqmusic")
        || contains_str(&l, "y.qq.com")
}

/// Whether a session's application id belongs to the player named by `source`.
pub open spec fn app_id_matches(app_id: Seq<char>, source: Seq<char>) -> bool {
    let l = unicode_lower(app_id);
    if source == "qqmusic"@ {
        qq_session_id(l)
    } else if source == "cloudmusic"@ {
        contains(l, "cloudmusic"@) || contains(l, "netease"@) || contains(l, "orpheus"@)
    } else if source == "spotify"@ {
        contains(l, "spotify"@)
    } else {
        false
    }
}

pub fn app_id_matches_media_source(app_id: &str, source: &str) -> (r: bool)
    ensures
        r == app_id_matches(app_id@, source@),
{
    let lower = to_lowercase(app_id);
    let l = chars_of(lower.as_str());
    let src = chars_of(source);
    if eq_str(&src, "qqmusic") {
        aumid_is_qq_music_smtc_broken(app_id)
    } else if eq_str(&src, "cloudmusic") {
        contains_str(&l, "cloudmusic") || contains_str(&l, "netease") || contains_str(&l, "orpheus")
    } else if eq_str(&src, "spotify") {
        contains_str(&l, "spotify")
    } else {
        false
    }
}

// ───────────────────────── media sessions ─────────────────────────

#[derive(Clone, Copy, PartialEq, Eq, Structural)]
pub enum PlaybackStatus {
    Closed,
    Opened,
    Changing,
    Stopped,
    Playing,
    Paused,
}

pub open spec fn status_text_of(p: Option<PlaybackStatus>) -> Seq<char> {
    match p {
        Some(PlaybackStatus::Playing) => "playing"@,
        Some(PlaybackStatus::Paused) => "paused"@,
        _ => "stopped"@,
    }
}

pub fn status_text(p: Option<PlaybackStatus>) -> (r: String)
    ensures
        r@ == status_text_of(p),
{
    match p {
        Some(PlaybackStatus::Playing) => string_from("playing"),
        Some(PlaybackStatus::Paused) => string_from("paused"),
        _ => string_from("stopped"),
    }
}

/// What the media-session list reports for one session.
pub struct SessionInfo {
    /// The session could be fetched from the list.
    pub available: bool,
    /// Its application id, where it could be read.
    pub app_id: Option<String>,
    /// Its playback status, where it could be read.
    pub playback: Option<PlaybackStatus>,
    /// `(title, artist)` when its media properties could be read
    /// (a field that failed to read is empty).
    pub meta: Option<(String, String)>,
}

/// Ranking points of a session: playing 30, paused 20, other known status 10, unknown 0;
/// 5 more when it carries a title or artist.
pub open spec fn session_score(s: SessionInfo) -> int {
    let st: int = match s.playback {
        Some(PlaybackStatus::Playing) => 30,
        Some(PlaybackStatus::Paused) => 20,
        Some(_) => 10,
        None => 0,
    };
    st + if has_meta(s) {
        5int
    } else {
        0int
    }
}

/// The session's title or artist is not blank.
pub open spec fn has_meta(s: SessionInfo) -> bool {
    match s.meta {
        Some((t, a)) => trim(t@).len() > 0 || trim(a@).len() > 0,
        None => false,
    }
}

pub open spec fn app_id_or_empty(s: SessionInfo) -> Seq<char> {
    match s.app_id {
        Some(a) => a@,
        None => Seq::empty(),
    }
}

/// A session that may be shown: fetched, and not QQ Music's.
pub open spec fn is_candidate(s: SessionInfo) -> bool {
    s.available && !qq_session_id(unicode_lower(app_id_or_empty(s)))
}

/// `k` is the last candidate of highest score.
pub open spec fn is_chosen(ss: Seq<SessionInfo>, k: int) -> bool {
    &&& 0 <= k < ss.len()
    &&& is_candidate(ss[k])
    &&& forall|j: int|
        0 <= j < ss.len() && is_candidate(#[trigger] ss[j]) ==> session_score(ss[j]) <= session_score(
            ss[k],
        )
    &&& forall|j: int|
        k < j < ss.len() && is_candidate(#[trigger] ss[j]) ==> session_score(ss[j]) < session_score(
            ss[k],
        )
}

pub open spec fn has_candidate(ss: Seq<SessionInfo>) -> bool {
    exists|j: int| 0 <= j < ss.len() && is_candidate(#[trigger] ss[j])
}

pub proof fn lemma_chosen_unique(ss: Seq<SessionInfo>, a: int, b: int)
    requires
        is_chosen(ss, a),
        is_chosen(ss, b),
    ensures
        a == b,
{
}

fn session_score_exec(s: &SessionInfo) -> (r: u8)
    ensures
        r as int == session_score(*s),
{
    let st: u8 = match s.playback {
        Some(PlaybackStatus::Playing) => 30,
        Some(PlaybackStatus::Paused) => 20,
        Some(_) => 10,
        None => 0,
    };
    let meta = match &s.meta {
        Some((t, a)) => {
            let tv = chars_of(t.as_str());
            let av = chars_of(a.as_str());
            trim_chars(tv.as_slice()).len() > 0 || trim_chars(av.as_slice()).len() > 0
        },
        None => false,
    };
    st + if meta {
        5
    } else {
        0
    }
}

fn is_candidate_exec(s: &SessionInfo) -> (r: bool)
    ensures
        r == is_candidate(*s),
{
    if !s.available {
        return false;
    }
    let id = match &s.app_id {
        Some(a) => a.clone(),
        None => String::new(),
    };
    !aumid_is_qq_music_smtc_broken(id.as_str())
}

/// The session to show: the last of the highest-ranked non-QQ sessions, or `None`
/// when there is none and the player window titles must be read instead.
pub fn choose_media_session(sessions: &Vec<SessionInfo>) -> (r: Option<usize>)
    ensures
        r matches Some(k) ==> is_chosen(sessions@, k as int),
        r is None <==> !has_candidate(sessions@),
{
    let mut best: Option<usize> = None;
    let mut best_score: u8 = 0;
    let n = sessions.len();
    for i in 0..n
        invariant
            n == sessions@.len(),
            best matches Some(k) ==> k < i && is_candidate(sessions@[k as int]) && best_score as int
                == session_score(sessions@[k as int]) && (forall|j: int|
                0 <= j < i && is_candidate(#[trigger] sessions@[j]) ==> session_score(sessions@[j])
                    <= best_score) && (forall|j: int|
                k < j < i && is_candidate(#[trigger] sessions@[j]) ==> session_score(sessions@[j])
                    < best_score),
            best is None ==> forall|j: int| 0 <= j < i ==> !is_candidate(#[trigger] sessions@[j]),
    {
        if is_candidate_exec(&sessions[i]) {
            let sc = session_score_exec(&sessions[i]);
            let take = match best {
                None => true,
                Some(_) => sc >= best_score,
            };
            if take {
                best = Some(i);
                best_score = sc;
            }
        }
    }
    proof {
        if let Some(k) = best {
            assert(is_chosen(sessions@, k as int));
        } else {
            assert(!has_candidate(sessions@));
        }
    }
    best
}

/// Playback status of the first session that belongs to `source` and reports a status.
pub open spec fn status_for_source_from(ss: Seq<SessionInfo>, source: Seq<char>, i: int) -> Option<
    Seq<char>,
>
    decreases ss.len() - i,
{
    if i < 0 || i >= ss.len() {
        None
    } else {
        let s = ss[i];
        if s.available && s.app_id is Some && app_id_matches(s.app_id->0@, source)
            && s.playback is Some {
            Some(status_text_of(s.playback))
        } else {
            status_for_source_from(ss, source, i + 1)
        }
    }
}

pub fn try_playback_status_for_source(sessions: &Vec<SessionInfo>, source: &str) -> (r: Option<
    String,
>)
    ensures
        crate::encoding::opt_chars(r) == status_for_source_from(sessions@, source@, 0),
{
    let n = sessions.len();
    let mut i: usize = 0;
    while i < n
        invariant
            n == sessions@.len(),
            i <= n,
            status_for_source_from(sessions@, source@, 0) == status_for_source_from(
                sessions@,
                source@,
                i as int,
            ),
        decreases n - i,
    {
        let s = &sessions[i];
        if s.available && s.playback.is_some() {
            if let Some(a) = &s.app_id {
                if app_id_matches_media_source(a.as_str(), source) {
                    return Some(status_text(s.playback));
                }
            }
        }
        i += 1;
    }
    None
}

/// With exactly one session, its status, whichever player it belongs to.
pub open spec fn single_session_status(ss: Seq<SessionInfo>) -> Option<Seq<char>> {
    if ss.len() == 1 && ss[0].available && ss[0].playback is Some {
        Some(status_text_of(ss[0].playback))
    } else {
        None
    }
}

pub fn try_playback_status_single_session(sessions: &Vec<SessionInfo>) -> (r: Option<String>)
    ensures
        crate::encoding::opt_chars(r) == single_session_status(sessions@),
{
    if sessions.len() != 1 {
        return None;
    }
    let s = &sessions[0];
    if s.available && s.playback.is_some() {
        Some(status_text(s.playback))
    } else {
        None
    }
}

// ───────────────────────── window titles ─────────────────────────

/// The foreground window as read from the system.
pub struct ForegroundWindow {
    /// Its text, as decoded from the title buffer (may end in NULs).
    pub title: String,
    pub class_name: String,
    /// Full path of its process image, where it could be read.
    pub exe_path: Option<String>,
}

/// Window titles the fallback reads: the foreground window (when it has a
/// title) and the windows of the classes `OrpheusBrowserHost`,
/// `TXGuiFoundation` and `ApolloRuntimeContentWindow`, in that order (`None`
/// where the window is missing or has no title).
pub struct WindowTitles {
    pub foreground: Option<ForegroundWindow>,
    pub candidates: Vec<Option<String>>,
}

/// Player tag for the foreground window, or empty when it is no known player.
pub open spec fn foreground_hint(title: Seq<char>, class: Seq<char>, exe: Seq<char>) -> Seq<char> {
    if contains(exe, "cloudmusic"@) || contains(title, "网易云音乐"@) || contains(
        class,
        "OrpheusBrowserHost"@,
    ) {
        "cloudmusic"@
    } else if contains(exe, "qqmusic"@) || contains(title, "QQ音乐"@) || contains(
        class,
        "TXGuiFoundation"@,
    ) {
        "qqmusic"@
    } else if contains(exe, "spotify"@) || contains(title, "Spotify"@) || contains(
        class,
        "ApolloRuntimeContentWindow"@,
    ) {
        "spotify"@
    } else {
        Seq::empty()
    }
}

/// The media entry built from a window title: playing, no cover, grey accent.
pub open spec fn title_media(song: Seq<char>, artist: Seq<char>, hint: Seq<char>) -> MediaView {
    MediaView {
        title: song,
        artist: artist,
        thumbnail: Seq::empty(),
        accent: "#a0a0a0"@,
        status: "playing"@,
        position_ms: 0,
        duration_ms: 0,
        source: hint,
    }
}

/// Lower-cased file name of a process image path (empty when unknown).
pub open spec fn exe_lower_of(path: Option<String>) -> Seq<char> {
    match path {
        Some(p) => unicode_lower(file_name(p@)),
        None => Seq::empty(),
    }
}

pub open spec fn foreground_media(fg: ForegroundWindow) -> Option<MediaView> {
    let title = trim_end_matches(fg.title@, seq!['\0']);
    let hint = foreground_hint(title, fg.class_name@, exe_lower_of(fg.exe_path));
    if !contains(title, "IslandCore"@) && trim(title).len() > 0 && hint.len() > 0 && parsed_title(
        title,
    ).0.len() > 0 {
        Some(title_media(parsed_title(title).0, parsed_title(title).1, hint))
    } else {
        None
    }
}

pub open spec fn candidate_hint(i: int) -> Seq<char> {
    if i == 0 {
        "cloudmusic"@
    } else if i == 1 {
        "qqmusic"@
    } else {
        "spotify"@
    }
}

/// A song read from a player window found by its class is tagged with that
/// player: the first candidate (NetEase's window) `cloudmusic`, the second
/// (QQ Music's) `qqmusic`, the third (Spotify's) `spotify`; the entry is the
/// song and artist of the title, playing, with no cover.
pub proof fn law_candidate_windows_name_their_player(cands: Seq<Option<String>>, i: int)
    requires
        0 <= i < 3,
        i < cands.len(),
        cands[i] is Some,
        trim_end_matches(cands[i]->0@, seq!['\0']).len() > 0,
        parsed_title(trim_end_matches(cands[i]->0@, seq!['\0'])).0.len() > 0,
    ensures
        ({
            let title = trim_end_matches(cands[i]->0@, seq!['\0']);
            let player = if i == 0 {
                "cloudmusic"@
            } else if i == 1 {
                "qqmusic"@
            } else {
                "spotify"@
            };
            candidate_media_from(cands, i) == Some(
                MediaView {
                    title: parsed_title(title).0,
                    artist: parsed_title(title).1,
                    thumbnail: Seq::empty(),
                    accent: "#a0a0a0"@,
                    status: "playing"@,
                    position_ms: 0,
                    duration_ms: 0,
                    source: player,
                },
            )
        }),
{
}

/// The first candidate window whose title yields a song.
pub open spec fn candidate_media_from(cands: Seq<Option<String>>, i: int) -> Option<MediaView>
    decreases cands.len() - i,
{
    if i < 0 || i >= cands.len() || i >= 3 {
        None
    } else {
        match cands[i] {
            Some(raw) => {
                let title = trim_end_matches(raw@, seq!['\0']);
                if title.len() > 0 && parsed_title(title).0.len() > 0 {
                    Some(title_media(parsed_title(title).0, parsed_title(title).1, candidate_hint(i)))
                } else {
                    candidate_media_from(cands, i + 1)
                }
            },
            None => candidate_media_from(cands, i + 1),
        }
    }
}

pub open spec fn window_media(w: WindowTitles) -> Option<MediaView> {
    let fg = match w.foreground {
        Some(f) => foreground_media(f),
        None => None,
    };
    match fg {
        Some(m) => Some(m),
        None => candidate_media_from(w.candidates@, 0),
    }
}

fn build_title_media(song: String, artist: String, hint: &str) -> (r: MediaInfo)
    ensures
        r@ == title_media(song@, artist@, hint@),
{
    MediaInfo {
        title: song,
        artist: artist,
        thumbnail: String::new(),
        accent: string_from("#a0a0a0"),
        status: string_from("playing"),
        position_ms: 0,
        duration_ms: 0,
        source: string_from(hint),
    }
}

fn exe_lower_exec(path: &Option<String>) -> (r: Vec<char>)
    ensures
        r@ == exe_lower_of(*path),
{
    match path {
        Some(p) => {
            let v = chars_of(p.as_str());
            let f = file_name_exec(v.as_slice());
            let fs = string_of(f.as_slice());
            let l = to_lowercase(fs.as_str());
            chars_of(l.as_str())
        },
        None => Vec::new(),
    }
}

fn foreground_media_exec(fg: &ForegroundWindow) -> (r: Option<MediaInfo>)
    ensures
        media_opt_view(r) == foreground_media(*fg),
{
    let raw = chars_of(fg.title.as_str());
    let nul = chars_of("\0");
    assert(nul@ =~= seq!['\0']) by {
        reveal_strlit("\0");
    }
    let title = trim_end_matches_exec(raw.as_slice(), nul.as_slice());
    let class = chars_of(fg.class_name.as_str());
    let exe = exe_lower_exec(&fg.exe_path);
    if contains_str(&title, "IslandCore") {
        return None;
    }
    let tt = trim_chars(title.as_slice());
    if tt.len() == 0 {
        return None;
    }
    let hint = if contains_str(&exe, "cloudmusic") || contains_str(&title, "网易云音乐")
        || contains_str(&class, "OrpheusBrowserHost") {
        "cloudmusic"
    } else if contains_str(&exe, "qqmusic") || contains_str(&title, "QQ音乐") || contains_str(
        &class,
        "TXGuiFoundation",
    ) {
        "qqmusic"
    } else if contains_str(&exe, "spotify") || contains_str(&title, "Spotify") || contains_str(
        &class,
        "ApolloRuntimeContentWindow",
    ) {
        "spotify"
    } else {
        ""
    };
    let hv = chars_of(hint);
    proof {
        reveal_strlit("");
    }
    assert(hv@ == foreground_hint(title@, class@, exe@));
    if hv.len() == 0 {
        return None;
    }
    let ts = string_of(title.as_slice());
    let (song, artist) = parse_title(ts.as_str(), hint);
    if song.as_str().is_empty() {
        return None;
    }
    Some(build_title_media(song, artist, hint))
}

fn candidate_media_exec(cands: &Vec<Option<String>>) -> (r: Option<MediaInfo>)
    ensures
        media_opt_view(r) == candidate_media_from(cands@, 0),
{
    let n = cands.len();
    let nul = chars_of("\0");
    assert(nul@ =~= seq!['\0']) by {
        reveal_strlit("\0");
    }
    let mut i: usize = 0;
    while i < n && i < 3
        invariant
            n == cands@.len(),
            i <= n,
            nul@ == seq!['\0'],
            candidate_media_from(cands@, 0) == candidate_media_from(cands@, i as int),
        decreases n - i,
    {
        if let Some(raw) = &cands[i] {
            let rv = chars_of(raw.as_str());
            let title = trim_end_matches_exec(rv.as_slice(), nul.as_slice());
            if title.len() > 0 {
                let ts = string_of(title.as_slice());
                let hint = if i == 0 {
                    "cloudmusic"
                } else if i == 1 {
                    "qqmusic"
                } else {
                    "spotify"
                };
                let (song, artist) = parse_title(ts.as_str(), hint);
                if !song.as_str().is_empty() {
                    return Some(build_title_media(song, artist, hint));
                }
            }
        }
        i += 1;
    }
    None
}

/// The media entry read from player window titles.
pub fn get_media_from_window_title(w: &WindowTitles) -> (r: Option<MediaInfo>)
    ensures
        media_opt_view(r) == window_media(*w),
{
    if let Some(fg) = &w.foreground {
        if let Some(m) = foreground_media_exec(fg) {
            return Some(m);
        }
    }
    candidate_media_exec(&w.candidates)
}

/// The window-title entry, with its status taken from the matching session,
/// or from the only session when there is exactly one.
pub open spec fn window_fallback(ss: Seq<SessionInfo>, w: WindowTitles) -> Option<MediaView> {
    match window_media(w) {
        None => None,
        Some(m) => match status_for_source_from(ss, m.source, 0) {
            Some(st) => Some(MediaView { status: st, ..m }),
            None => match single_session_status(ss) {
                Some(st) => Some(MediaView { status: st, ..m }),
                None => Some(m),
            },
        },
    }
}

proof fn lemma_candidate_media_has_no_cover(cands: Seq<Option<String>>, i: int)
    ensures
        candidate_media_from(cands, i) matches Some(m) ==> m.thumbnail.len() == 0 && m.accent == "#a0a0a0"@
            && m.position_ms == 0 && m.duration_ms == 0,
    decreases cands.len() - i,
{
    if 0 <= i < cands.len() && i < 3 {
        lemma_candidate_media_has_no_cover(cands, i + 1);
    }
}

fn window_fallback_exec(sessions: &Vec<SessionInfo>, w: &WindowTitles) -> (r: Option<MediaInfo>)
    ensures
        media_opt_view(r) == window_fallback(sessions@, *w),
        r matches Some(m) ==> m.thumbnail@.len() == 0 && m.accent@ == "#a0a0a0"@ && m.position_ms == 0
            && m.duration_ms == 0,
{
    proof {
        lemma_candidate_media_has_no_cover(w.candidates@, 0);
    }
    let mut info = match get_media_from_window_title(w) {
        Some(m) => m,
        None => return None,
    };
    if let Some(st) = try_playback_status_for_source(sessions, info.source.as_str()) {
        info.status = st;
    } else if let Some(st) = try_playback_status_single_session(sessions) {
        info.status = st;
    }
    Some(info)
}

// ───────────────────────── the chosen session ─────────────────────────

/// What is read from the chosen session.
pub struct SessionDetails {
    /// Timeline position and end, in 100-ns ticks, where readable.
    pub position_ticks: Option<i64>,
    pub end_ticks: Option<i64>,
    /// `(title, artist)` when the media properties could be read
    /// (a field that failed to read is empty).
    pub props: Option<(String, String)>,
    /// The cover image bytes, when the thumbnail stream could be read.
    pub thumbnail: Option<Vec<u8>>,
}

/// Bytes to read from a thumbnail stream of `size` bytes: the size taken as
/// `u32`, when it is positive and under 2 MiB.
pub open spec fn thumbnail_len(size: u64) -> Option<u32> {
    let s = (size % 0x1_0000_0000) as u32;
    if 0 < s < 2 * 1024 * 1024 {
        Some(s)
    } else {
        None
    }
}

pub fn thumbnail_read_len(size: u64) -> (r: Option<u32>)
    ensures
        r == thumbnail_len(size),
{
    let s = (size % 0x1_0000_0000) as u32;
    if s > 0 && s < 2 * 1024 * 1024 {
        Some(s)
    } else {
        None
    }
}

pub open spec fn ms_of(ticks: Option<i64>) -> u64 {
    match ticks {
        Some(t) => if t <= 0 {
            0
        } else {
            (t / 10_000) as u64
        },
        None => 0,
    }
}

pub open spec fn source_of(id: Option<String>) -> Seq<char> {
    match id {
        Some(s) => normalized_source(unicode_lower(s@)),
        None => "unknown"@,
    }
}

/// A session whose source reads as QQ Music is never a candidate: its id names
/// QQ Music, so it is one of the sessions that are skipped.
proof fn lemma_qq_source_is_skipped(s: SessionInfo)
    requires
        source_of(s.app_id) == "qqmusic"@,
    ensures
        !is_candidate(s),
{
    reveal_strlit("qqmusic");
    reveal_strlit("qq音乐");
    reveal_strlit("cloudmusic");
    reveal_strlit("spotify");
    reveal_strlit("chrome");
    reveal_strlit("unknown");
    assert("unknown"@[0] != "qqmusic"@[0]);
    assert("spotify"@[0] != "qqmusic"@[0]);
    match s.app_id {
        Some(x) => {
            let l = unicode_lower(x@);
            if contains(l, "qqmusic"@) {
                let i = choose|i: int| occurs_at(l, "qqmusic"@, i);
            } else if contains(l, "qq音乐"@) {
                let i = choose|i: int| occurs_at(l, "qq音乐"@, i);
            }
        },
        None => {},
    }
}

/// Cover bytes that are shown: at least one byte and under 2 MiB, as the
/// stream size is checked before it is read.
pub open spec fn cover_bytes_ok(b: Seq<u8>) -> bool {
    0 < b.len() < 2 * 1024 * 1024
}

/// The media entry for the chosen session `k`.
pub open spec fn session_media(ss: Seq<SessionInfo>, k: int, d: SessionDetails, w: WindowTitles) -> Option<
    MediaView,
> {
    match d.props {
        None => None,
        Some((title, artist)) => if title@.len() == 0 && artist@.len() == 0 {
            window_fallback(ss, w)
        } else {
            Some(
                MediaView {
                    title: title@,
                    artist: artist@,
                    thumbnail: match d.thumbnail {
                        Some(b) => if cover_bytes_ok(b@) {
                            base64_standard(b@)
                        } else {
                            Seq::empty()
                        },
                        None => Seq::empty(),
                    },
                    accent: match d.thumbnail {
                        Some(b) => if cover_bytes_ok(b@) {
                            accent_of(b@)
                        } else {
                            "#a0a0a0"@
                        },
                        None => "#a0a0a0"@,
                    },
                    status: status_text_of(ss[k].playback),
                    position_ms: ms_of(d.position_ticks),
                    duration_ms: ms_of(d.end_ticks),
                    source: source_of(ss[k].app_id),
                },
            )
        },
    }
}

/// The current media: `None` when the session list is unreadable; otherwise the
/// chosen session's entry, or the window-title entry when there is no session to show.
pub open spec fn current_media(
    ss: Option<Seq<SessionInfo>>,
    d: SessionDetails,
    w: WindowTitles,
) -> Option<MediaView> {
    match ss {
        None => None,
        Some(s) => if has_candidate(s) {
            session_media(s, choose|k: int| is_chosen(s, k), d, w)
        } else {
            window_fallback(s, w)
        },
    }
}

fn ticks_ms(t: Option<i64>) -> (r: u64)
    ensures
        r == ms_of(t),
{
    match t {
        Some(x) => timespan_to_ms(x),
        None => 0,
    }
}

/// The current media from the session list (`None` when it could not be read),
/// the details of the session that `choose_media_session` picks, and the window titles.
pub fn get_current_media_sync(
    sessions: Option<&Vec<SessionInfo>>,
    details: &SessionDetails,
    window: &WindowTitles,
) -> (r: Option<MediaInfo>)
    ensures
        media_opt_view(r) == current_media(
            match sessions {
                Some(s) => Some(s@),
                None => None,
            },
            *details,
            *window,
        ),
        r matches Some(m) ==> (m.thumbnail@.len() == 0 ==> m.accent@ == "#a0a0a0"@),
        r matches Some(m) ==> (m.source@ == "qqmusic"@ ==> m.thumbnail@.len() == 0 && m.accent@
            == "#a0a0a0"@ && m.position_ms == 0 && m.duration_ms == 0),
        r matches Some(m) ==> (m.thumbnail@.len() > 0 ==> (details.thumbnail matches Some(b) && cover_bytes_ok(
            b@,
        ) && m.thumbnail@ == base64_standard(b@) && m.accent@ == accent_of(b@))),
{
    let ss = match sessions {
        Some(s) => s,
        None => return None,
    };
    let k = match choose_media_session(ss) {
        None => return window_fallback_exec(ss, window),
        Some(k) => k,
    };
    proof {
        let c = choose|c: int| is_chosen(ss@, c);
        lemma_chosen_unique(ss@, c, k as int);
    }
    let (title, artist) = match &details.props {
        None => return None,
        Some(p) => (p.0.clone(), p.1.clone()),
    };
    if title.as_str().is_empty() && artist.as_str().is_empty() {
        return window_fallback_exec(ss, window);
    }
    let (thumbnail, accent) = match &details.thumbnail {
        Some(b) => if b.len() > 0 && b.len() < 2 * 1024 * 1024 {
            proof {
                crate::encoding::lemma_base64_len(b@);
            }
            (base64_encode(b.as_slice()), extract_accent(b.as_slice()))
        } else {
            (String::new(), string_from("#a0a0a0"))
        },
        None => (String::new(), string_from("#a0a0a0")),
    };
    let source = match &ss[k].app_id {
        Some(s) => normalize_source(s.as_str()),
        None => string_from("unknown"),
    };
    proof {
        if source@ == "qqmusic"@ {
            lemma_qq_source_is_skipped(ss@[k as int]);
        }
    }
    Some(
        MediaInfo {
            title,
            artist,
            thumbnail,
            accent,
            status: status_text(ss[k].playback),
            position_ms: ticks_ms(details.position_ticks),
            duration_ms: ticks_ms(details.end_ticks),
            source,
        },
    )
}

} // verus!
