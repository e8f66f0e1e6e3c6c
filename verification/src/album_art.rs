//! Album covers looked up on music platforms. The platform the media came
//! from is asked first, then the others by priority (NetEase, QQ Music,
//! Spotify, iTunes; Last.fm needs a key and sends no request), then the
//! fetchers that plugins registered. The requests are sent, and the plugins
//! run, by the caller, which hands each result back to the session.
use crate::encoding::{base64_encode, base64_standard, opt_chars, percent_encode, to_lowercase, unicode_lower, url_encode};
use crate::fmt::{decimal_signed, i64_decimal};
use crate::json::{
    at_opt, get_opt, i64_opt, opt_at, opt_get, opt_i64, opt_str, str_opt, JsonValue,
};
use crate::text::{
    chars_of, contains, contains_str, extend, extend_str, replace_all, replace_all_exec, string_from,
    string_of, trim, trim_chars, trim_end_matches, trim_end_matches_exec, trim_start_matches,
    trim_start_matches_exec,
};
use vstd::prelude::*;
use vstd::utf8::*;

verus! {

pub struct AlbumArtPayload {
    pub url: Option<String>,
    pub base64: Option<String>,
    pub source: String,
}

#[derive(PartialEq, Eq, Structural, Clone, Copy, Debug)]
pub enum FetcherKind {
    Netease,
    QQMusic,
    Spotify,
    ITunes,
    LastFm,
    /// A fetcher that a plugin registered, numbered in the order of
    /// registration; the caller runs it (see `FetchStep::Plugin`).
    Plugin(u32),
}

pub open spec fn fetcher_name(k: FetcherKind) -> Seq<char> {
    match k {
        FetcherKind::Netease => "netease"@,
        FetcherKind::QQMusic => "qqmusic"@,
        FetcherKind::Spotify => "spotify"@,
        FetcherKind::ITunes => "itunes"@,
        FetcherKind::LastFm => "lastfm"@,
        FetcherKind::Plugin(_) => "plugin"@,
    }
}

pub fn fetcher_name_of(k: FetcherKind) -> (r: &'static str)
    ensures
        r@ == fetcher_name(k),
{
    match k {
        FetcherKind::Netease => "netease",
        FetcherKind::QQMusic => "qqmusic",
        FetcherKind::Spotify => "spotify",
        FetcherKind::ITunes => "itunes",
        FetcherKind::LastFm => "lastfm",
        FetcherKind::Plugin(_) => "plugin",
    }
}

/// Whether a (lower-cased) media source names the platform of `name`.
pub open spec fn source_matches_spec(name: Seq<char>, source: Seq<char>) -> bool {
    if name == "netease"@ {
        contains(source, "netease"@) || contains(source, "cloudmusic"@) || contains(source, "orpheus"@)
    } else if name == "qqmusic"@ {
        contains(source, "qqmusic"@)
    } else if name == "spotify"@ {
        contains(source, "spotify"@)
    } else {
        false
    }
}

pub open spec fn kind_matches(k: FetcherKind, source: Seq<char>) -> bool {
    source_matches_spec(fetcher_name(k), source)
}

/// The index of the first fetcher that matches the source.
pub open spec fn first_match(fs: Seq<FetcherKind>, source: Seq<char>, i: int) -> Option<int>
    decreases fs.len() - i,
{
    if i < 0 || i >= fs.len() {
        None
    } else if kind_matches(fs[i], source) {
        Some(i)
    } else {
        first_match(fs, source, i + 1)
    }
}

/// The fetchers that do not match the source, in order.
pub open spec fn unmatched(fs: Seq<FetcherKind>, source: Seq<char>) -> Seq<FetcherKind>
    decreases fs.len(),
{
    if fs.len() == 0 {
        Seq::empty()
    } else if kind_matches(fs.last(), source) {
        unmatched(fs.drop_last(), source)
    } else {
        unmatched(fs.drop_last(), source).push(fs.last())
    }
}

/// The order in which the fetchers are tried: the first matching one, then
/// every one that does not match.
pub open spec fn plan_of(fs: Seq<FetcherKind>, source: Seq<char>) -> Seq<FetcherKind> {
    match first_match(fs, source, 0) {
        Some(i) => seq![fs[i]] + unmatched(fs, source),
        None => unmatched(fs, source),
    }
}

/// A percent-encoded query term.
pub open spec fn enc(s: Seq<char>) -> Seq<char> {
    percent_encode(encode_utf8(s))
}

/// Title and artist as a search term: encoded, joined by a space.
pub open spec fn search_terms(title: Seq<char>, artist: Seq<char>) -> Seq<char> {
    if artist.len() == 0 {
        enc(title)
    } else {
        enc(title) + " "@ + enc(artist)
    }
}

pub open spec fn spotify_terms(title: Seq<char>, artist: Seq<char>) -> Seq<char> {
    if artist.len() == 0 {
        enc(title)
    } else {
        enc(title) + " artist:"@ + enc(artist)
    }
}

/// The search request of a platform for a song; Last.fm and plugins send none.
pub open spec fn request_url(k: FetcherKind, title: Seq<char>, artist: Seq<char>) -> Option<Seq<char>> {
    match k {
        FetcherKind::Netease => Some(
            "https://music.163.com/api/search/get/web?csrf_token=&hlpretag=&hlposttag=&s="@
                + search_terms(title, artist) + "&type=1&offset=0&total=true&limit=5"@,
        ),
        FetcherKind::QQMusic => Some(
            "https://c.y.qq.com/soso/fcgi-bin/client_search_cp?ct=24&qqmusic_ver=1298&new_json=1&remoteplace=txt.yqq.song&searchid=&t=0&aggr=1&cr=1&catZhida=1&lossless=0&flag_qc=0&p=1&n=5&w="@
                + search_terms(title, artist),
        ),
        FetcherKind::Spotify => Some(
            "https://api.spotify.com/v1/search?q="@ + spotify_terms(title, artist)
                + "&type=track&limit=1"@,
        ),
        FetcherKind::ITunes => Some(
            "https://itunes.apple.com/search?term="@ + search_terms(title, artist)
                + "&media=music&entity=song&limit=5"@,
        ),
        FetcherKind::LastFm | FetcherKind::Plugin(_) => None,
    }
}

/// Each platform's search request carries the percent-encoded title, and,
/// when there is an artist, a space (` artist:` for Spotify) and the
/// percent-encoded artist; Last.fm and plugins send no request.
pub proof fn law_search_requests(k: FetcherKind, title: Seq<char>, artist: Seq<char>)
    ensures
        ({
            let q = if artist.len() == 0 {
                percent_encode(encode_utf8(title))
            } else {
                percent_encode(encode_utf8(title)) + " "@ + percent_encode(encode_utf8(artist))
            };
            let qs = if artist.len() == 0 {
                percent_encode(encode_utf8(title))
            } else {
                percent_encode(encode_utf8(title)) + " artist:"@ + percent_encode(encode_utf8(artist))
            };
            request_url(k, title, artist) == match k {
                FetcherKind::Netease => Some(
                    "https://music.163.com/api/search/get/web?csrf_token=&hlpretag=&hlposttag=&s="@ + q
                        + "&type=1&offset=0&total=true&limit=5"@,
                ),
                FetcherKind::QQMusic => Some(
                    "https://c.y.qq.com/soso/fcgi-bin/client_search_cp?ct=24&qqmusic_ver=1298&new_json=1&remoteplace=txt.yqq.song&searchid=&t=0&aggr=1&cr=1&catZhida=1&lossless=0&flag_qc=0&p=1&n=5&w="@
                        + q,
                ),
                FetcherKind::Spotify => Some(
                    "https://api.spotify.com/v1/search?q="@ + qs + "&type=track&limit=1"@,
                ),
                FetcherKind::ITunes => Some(
                    "https://itunes.apple.com/search?term="@ + q + "&media=music&entity=song&limit=5"@,
                ),
                FetcherKind::LastFm => None,
                FetcherKind::Plugin(_) => None,
            }
        }),
{
}

/// Whether the reply comes wrapped in `callback(...)` (QQ Music's JSONP).
pub open spec fn callback_wrapped(k: FetcherKind) -> bool {
    k == FetcherKind::QQMusic
}

/// `n / 100` rounded toward zero, as Rust divides integers.
pub open spec fn div100(n: int) -> int {
    if n >= 0 {
        n / 100
    } else {
        -((-n) / 100)
    }
}

pub open spec fn netease_cover_url(album_id: i64) -> Seq<char> {
    "https://p2.music.126.net/6y-UleORITEDbvrOLV0Q8A==/"@ + decimal_signed(div100(album_id as int))
        + "/"@ + decimal_signed(album_id as int) + ".jpg?param=200y200"@
}

pub open spec fn qq_cover_url(albummid: Seq<char>) -> Seq<char> {
    "https://y.gtimg.cn/music/photo_new/T002R300x300M000"@ + albummid + ".jpg"@
}

/// The cover address in a platform's reply: that of the first song found.
pub open spec fn cover_from_reply(k: FetcherKind, v: JsonValue) -> Option<Seq<char>> {
    match k {
        FetcherKind::Netease => match opt_i64(
            opt_get(opt_get(opt_at(opt_get(json_get_root(v, "result"@), "songs"@), 0), "album"@), "id"@),
        ) {
            Some(id) => Some(netease_cover_url(id)),
            None => None,
        },
        FetcherKind::QQMusic => match opt_str(
            opt_get(opt_at(opt_get(opt_get(json_get_root(v, "data"@), "song"@), "list"@), 0), "albummid"@),
        ) {
            Some(mid) => Some(qq_cover_url(mid)),
            None => None,
        },
        FetcherKind::Spotify => opt_str(
            opt_get(
                opt_at(opt_get(opt_get(opt_at(opt_get(json_get_root(v, "tracks"@), "items"@), 0), "album"@), "images"@), 0),
                "url"@,
            ),
        ),
        FetcherKind::ITunes => match opt_str(
            opt_get(opt_at(json_get_root(v, "results"@), 0), "artworkUrl100"@),
        ) {
            Some(a) => Some(replace_all(a, "100x100"@, "600x600"@)),
            None => None,
        },
        FetcherKind::LastFm | FetcherKind::Plugin(_) => None,
    }
}

pub open spec fn json_get_root(v: JsonValue, key: Seq<char>) -> Option<JsonValue> {
    crate::json::json_get(v, key)
}

/// The JSON text inside QQ Music's `callback(...)` wrapper.
pub open spec fn unwrapped_callback(text: Seq<char>) -> Seq<char> {
    trim(trim_end_matches(trim_start_matches(text, "callback("@), ")"@))
}

pub fn strip_callback_wrapper(text: &str) -> (r: String)
    ensures
        r@ == unwrapped_callback(text@),
{
    let v = chars_of(text);
    let open = chars_of("callback(");
    let close = chars_of(")");
    let a = trim_start_matches_exec(v.as_slice(), open.as_slice());
    let b = trim_end_matches_exec(a.as_slice(), close.as_slice());
    let c = trim_chars(b.as_slice());
    string_of(c.as_slice())
}

fn search_terms_exec(title: &str, artist: &str, spotify: bool) -> (r: Vec<char>)
    ensures
        r@ == if spotify {
            spotify_terms(title@, artist@)
        } else {
            search_terms(title@, artist@)
        },
{
    let t = url_encode(title);
    let mut r = chars_of(t.as_str());
    let artist_chars = chars_of(artist);
    if artist_chars.len() > 0 {
        if spotify {
            extend_str(&mut r, " artist:");
        } else {
            extend_str(&mut r, " ");
        }
        let a = url_encode(artist);
        let av = chars_of(a.as_str());
        extend(&mut r, av.as_slice());
    }
    r
}

fn url_of(prefix: &str, q: &[char], suffix: &str) -> (r: String)
    ensures
        r@ == prefix@ + q@ + suffix@,
{
    let mut v = chars_of(prefix);
    extend(&mut v, q);
    extend_str(&mut v, suffix);
    string_of(v.as_slice())
}

pub fn request_url_of(k: FetcherKind, title: &str, artist: &str) -> (r: Option<String>)
    ensures
        opt_chars(r) == request_url(k, title@, artist@),
{
    match k {
        FetcherKind::Netease => {
            let q = search_terms_exec(title, artist, false);
            Some(
                url_of(
                    "https://music.163.com/api/search/get/web?csrf_token=&hlpretag=&hlposttag=&s=",
                    q.as_slice(),
                    "&type=1&offset=0&total=true&limit=5",
                ),
            )
        },
        FetcherKind::QQMusic => {
            let q = search_terms_exec(title, artist, false);
            let mut v = chars_of(
                "https://c.y.qq.com/soso/fcgi-bin/client_search_cp?ct=24&qqmusic_ver=1298&new_json=1&remoteplace=txt.yqq.song&searchid=&t=0&aggr=1&cr=1&catZhida=1&lossless=0&flag_qc=0&p=1&n=5&w=",
            );
            extend(&mut v, q.as_slice());
            Some(string_of(v.as_slice()))
        },
        FetcherKind::Spotify => {
            let q = search_terms_exec(title, artist, true);
            Some(url_of("https://api.spotify.com/v1/search?q=", q.as_slice(), "&type=track&limit=1"))
        },
        FetcherKind::ITunes => {
            let q = search_terms_exec(title, artist, false);
            Some(
                url_of(
                    "https://itunes.apple.com/search?term=",
                    q.as_slice(),
                    "&media=music&entity=song&limit=5",
                ),
            )
        },
        FetcherKind::LastFm | FetcherKind::Plugin(_) => None,
    }
}

/// The headers a platform's request carries: a `User-Agent`, and a `Referer`
/// where the platform wants one.
pub open spec fn headers_of(k: FetcherKind) -> Seq<(Seq<char>, Seq<char>)> {
    match k {
        FetcherKind::Netease => seq![
            ("User-Agent"@, "Mozilla/5.0 (Windows NT 10.0; Win64; x64) AppleWebKit/537.36"@),
            ("Referer"@, "https://music.163.com/"@),
        ],
        FetcherKind::QQMusic => seq![
            ("User-Agent"@, "Mozilla/5.0 (Windows NT 10.0; Win64; x64)"@),
            ("Referer"@, "https://y.qq.com/"@),
        ],
        FetcherKind::Spotify | FetcherKind::ITunes => seq![("User-Agent"@, "Mozilla/5.0"@)],
        FetcherKind::LastFm | FetcherKind::Plugin(_) => seq![],
    }
}

/// Every request names a browser `User-Agent`; NetEase's and QQ Music's also
/// carry their site as `Referer`; Last.fm and plugins send none.
pub proof fn law_request_headers(k: FetcherKind)
    ensures
        k == FetcherKind::Netease ==> headers_of(k) == seq![
            ("User-Agent"@, "Mozilla/5.0 (Windows NT 10.0; Win64; x64) AppleWebKit/537.36"@),
            ("Referer"@, "https://music.163.com/"@),
        ],
        k == FetcherKind::QQMusic ==> headers_of(k) == seq![
            ("User-Agent"@, "Mozilla/5.0 (Windows NT 10.0; Win64; x64)"@),
            ("Referer"@, "https://y.qq.com/"@),
        ],
        k == FetcherKind::Spotify || k == FetcherKind::ITunes ==> headers_of(k) == seq![
            ("User-Agent"@, "Mozilla/5.0"@),
        ],
        k == FetcherKind::LastFm || k is Plugin ==> headers_of(k).len() == 0,
{
}

pub open spec fn header_views(v: Seq<(&'static str, &'static str)>) -> Seq<(Seq<char>, Seq<char>)> {
    v.map_values(|h: (&'static str, &'static str)| (h.0@, h.1@))
}

pub fn request_headers(k: FetcherKind) -> (r: Vec<(&'static str, &'static str)>)
    ensures
        header_views(r@) == headers_of(k),
{
    let mut r: Vec<(&'static str, &'static str)> = Vec::new();
    match k {
        FetcherKind::Netease => {
            r.push(("User-Agent", "Mozilla/5.0 (Windows NT 10.0; Win64; x64) AppleWebKit/537.36"));
            r.push(("Referer", "https://music.163.com/"));
        },
        FetcherKind::QQMusic => {
            r.push(("User-Agent", "Mozilla/5.0 (Windows NT 10.0; Win64; x64)"));
            r.push(("Referer", "https://y.qq.com/"));
        },
        FetcherKind::Spotify | FetcherKind::ITunes => {
            r.push(("User-Agent", "Mozilla/5.0"));
        },
        FetcherKind::LastFm | FetcherKind::Plugin(_) => {},
    }
    assert(header_views(r@) =~= headers_of(k));
    r
}

fn netease_cover_url_exec(album_id: i64) -> (r: String)
    ensures
        r@ == netease_cover_url(album_id),
{
    let q: i64 = if album_id >= 0 {
        album_id / 100
    } else {
        let m: i128 = 0i128 - (album_id as i128);
        (0i128 - m / 100) as i64
    };
    let a = i64_decimal(q);
    let b = i64_decimal(album_id);
    let mut v = chars_of("https://p2.music.126.net/6y-UleORITEDbvrOLV0Q8A==/");
    extend(&mut v, a.as_slice());
    extend_str(&mut v, "/");
    extend(&mut v, b.as_slice());
    extend_str(&mut v, ".jpg?param=200y200");
    string_of(v.as_slice())
}

/// The cover address found in a platform's (parsed) reply.
pub fn cover_from_reply_of(k: FetcherKind, v: &JsonValue) -> (r: Option<String>)
    ensures
        opt_chars(r) == cover_from_reply(k, *v),
{
    match k {
        FetcherKind::Netease => {
            let id = i64_opt(get_opt(get_opt(at_opt(get_opt(v.get("result"), "songs"), 0), "album"), "id"));
            match id {
                Some(id) => Some(netease_cover_url_exec(id)),
                None => None,
            }
        },
        FetcherKind::QQMusic => {
            let mid = str_opt(get_opt(at_opt(get_opt(get_opt(v.get("data"), "song"), "list"), 0), "albummid"));
            match mid {
                Some(m) => {
                    let mv = chars_of(m.as_str());
                    Some(url_of("https://y.gtimg.cn/music/photo_new/T002R300x300M000", mv.as_slice(), ".jpg"))
                },
                None => None,
            }
        },
        FetcherKind::Spotify => str_opt(
            get_opt(at_opt(get_opt(get_opt(at_opt(get_opt(v.get("tracks"), "items"), 0), "album"), "images"), 0), "url"),
        ),
        FetcherKind::ITunes => {
            let art = str_opt(get_opt(at_opt(v.get("results"), 0), "artworkUrl100"));
            match art {
                Some(a) => {
                    let av = chars_of(a.as_str());
                    let from = chars_of("100x100");
                    let to = chars_of("600x600");
                    proof {
                        reveal_strlit("100x100");
                    }
                    let hv = replace_all_exec(av.as_slice(), from.as_slice(), to.as_slice());
                    Some(string_of(hv.as_slice()))
                },
                None => None,
            }
        },
        FetcherKind::LastFm | FetcherKind::Plugin(_) => None,
    }
}

// ───────────────────────── trying the platforms ─────────────────────────

/// The registered fetchers, in priority order: the platforms, then the
/// fetchers that plugins registered, in the order they came.
pub struct AlbumArtManager {
    fetchers: Vec<FetcherKind>,
    plugins: u32,
}

pub open spec fn default_fetchers() -> Seq<FetcherKind> {
    seq![
        FetcherKind::Netease,
        FetcherKind::QQMusic,
        FetcherKind::Spotify,
        FetcherKind::ITunes,
        FetcherKind::LastFm,
    ]
}

/// One step of a cover look-up: a request to send, a plugin to run, or the
/// outcome.
pub enum FetchStep {
    /// Send a GET request to `url` with the platform's headers and hand the
    /// parsed JSON reply (or `None` if it failed) to `FetchSession::on_reply`.
    /// A `callback_wrapped` reply is unwrapped with `strip_callback_wrapper`
    /// before it is parsed.
    Get { kind: FetcherKind, url: String, callback_wrapped: bool },
    /// Run the fetcher that plugin `id` registered on the song and hand its
    /// result to `FetchSession::on_plugin_result`.
    Plugin { id: u32, title: String, artist: String, album: String },
    Done(Option<AlbumArtPayload>),
}

/// A cover look-up in progress.
pub struct FetchSession {
    title: String,
    artist: String,
    album: String,
    plan: Vec<FetcherKind>,
    pos: usize,
    waiting: bool,
}

/// The first fetcher from `i` on that sends a request or runs a plugin.
pub open spec fn next_request(plan: Seq<FetcherKind>, i: int) -> Option<int>
    decreases plan.len() - i,
{
    if i < 0 || i >= plan.len() {
        None
    } else if plan[i] != FetcherKind::LastFm {
        Some(i)
    } else {
        next_request(plan, i + 1)
    }
}

/// The step that asks fetcher `k` for the cover of the song.
pub open spec fn step_is_request(
    step: FetchStep,
    k: FetcherKind,
    title: Seq<char>,
    artist: Seq<char>,
    album: Seq<char>,
) -> bool {
    match k {
        FetcherKind::Plugin(id) => step matches FetchStep::Plugin { id: i, title: t, artist: a, album: al }
            && i == id && t@ == title && a@ == artist && al@ == album,
        _ => step matches FetchStep::Get { kind, url, callback_wrapped: wrapped } && kind == k && Some(url@)
            == request_url(k, title, artist) && wrapped == callback_wrapped(k),
    }
}

pub open spec fn payload_is(p: AlbumArtPayload, url: Seq<char>, k: FetcherKind) -> bool {
    &&& opt_chars(p.url) == Some(url)
    &&& p.base64 is None
    &&& p.source@ == fetcher_name(k)
}

impl FetchSession {
    pub closed spec fn title_view(&self) -> Seq<char> {
        self.title@
    }

    pub closed spec fn artist_view(&self) -> Seq<char> {
        self.artist@
    }

    pub closed spec fn album_view(&self) -> Seq<char> {
        self.album@
    }

    pub closed spec fn plan_view(&self) -> Seq<FetcherKind> {
        self.plan@
    }

    /// The plan index whose reply is awaited, if one is.
    pub closed spec fn awaiting(&self) -> Option<int> {
        if self.waiting {
            Some(self.pos as int)
        } else {
            None
        }
    }

    pub closed spec fn wf(&self) -> bool {
        self.waiting ==> self.pos < self.plan@.len() && self.plan@[self.pos as int] != FetcherKind::LastFm
    }

    /// The song and the plan stay as they are.
    pub open spec fn same_song(&self, other: &Self) -> bool {
        &&& self.title_view() == other.title_view()
        &&& self.artist_view() == other.artist_view()
        &&& self.album_view() == other.album_view()
        &&& self.plan_view() == other.plan_view()
    }

    /// After the fetchers before plan index `i` gave nothing: the step of the
    /// next fetcher that asks, awaited, or no cover when none is left.
    pub open spec fn next_step(&self, i: int, step: FetchStep, after: Self) -> bool {
        match next_request(self.plan_view(), i) {
            Some(j) => after.awaiting() == Some(j) && step_is_request(
                step,
                self.plan_view()[j],
                self.title_view(),
                self.artist_view(),
                self.album_view(),
            ),
            None => after.awaiting() is None && step matches FetchStep::Done(None),
        }
    }

    /// The request of the first fetcher from `i` on that sends one, or the end.
    fn advance(&mut self, i: usize) -> (step: FetchStep)
        ensures
            final(self).same_song(old(self)),
            final(self).wf(),
            old(self).next_step(i as int, step, *final(self)),
    {
        let n = self.plan.len();
        let mut j = i;
        if j > n {
            j = n;
        }
        while j < n
            invariant
                n == self.plan@.len(),
                self.plan@ == old(self).plan@,
                self.title@ == old(self).title@,
                self.artist@ == old(self).artist@,
                self.album@ == old(self).album@,
                i <= j || j == n,
                j <= n,
                i > n ==> next_request(self.plan@, i as int) is None,
                i <= n ==> next_request(self.plan@, i as int) == next_request(self.plan@, j as int),
            decreases n - j,
        {
            let k = self.plan[j];
            match k {
                FetcherKind::Plugin(id) => {
                    self.pos = j;
                    self.waiting = true;
                    return FetchStep::Plugin {
                        id,
                        title: string_from(self.title.as_str()),
                        artist: string_from(self.artist.as_str()),
                        album: string_from(self.album.as_str()),
                    };
                },
                FetcherKind::LastFm => {},
                _ => {
                    let url = request_url_of(k, self.title.as_str(), self.artist.as_str());
                    match url {
                        Some(u) => {
                            self.pos = j;
                            self.waiting = true;
                            return FetchStep::Get { kind: k, url: u, callback_wrapped: k == FetcherKind::QQMusic };
                        },
                        None => {},
                    }
                },
            }
            j = j + 1;
        }
        self.waiting = false;
        FetchStep::Done(None)
    }

    /// The first step.
    pub fn start(&mut self) -> (step: FetchStep)
        ensures
            final(self).same_song(old(self)),
            final(self).wf(),
            old(self).next_step(0, step, *final(self)),
    {
        self.advance(0)
    }

    /// The step after the awaited reply: the cover when the reply has one,
    /// else the next fetcher's step, or no cover when none is left.
    pub fn on_reply(&mut self, reply: Option<JsonValue>) -> (step: FetchStep)
        requires
            old(self).wf(),
        ensures
            final(self).same_song(old(self)),
            final(self).wf(),
            match old(self).awaiting() {
                None => step matches FetchStep::Done(None),
                Some(p) => {
                    let k = old(self).plan_view()[p];
                    let found = match reply {
                        Some(v) => cover_from_reply(k, v),
                        None => None,
                    };
                    match found {
                        Some(u) => final(self).awaiting() is None && (step matches FetchStep::Done(
                            Some(pl),
                        ) && payload_is(pl, u, k)),
                        None => old(self).next_step(p + 1, step, *final(self)),
                    }
                },
            },
    {
        if !self.waiting {
            return FetchStep::Done(None);
        }
        let k = self.plan[self.pos];
        let found = match &reply {
            Some(v) => cover_from_reply_of(k, v),
            None => None,
        };
        match found {
            Some(u) => {
                self.waiting = false;
                FetchStep::Done(
                    Some(AlbumArtPayload { url: Some(u), base64: None, source: string_from(fetcher_name_of(k)) }),
                )
            },
            None => {
                let n = self.plan.len();
                assert(self.pos < n);
                let next = self.pos + 1;
                self.advance(next)
            },
        }
    }

    /// The step after the awaited plugin's result: that cover when it found
    /// one, else the next fetcher's step, or no cover when none is left.
    pub fn on_plugin_result(&mut self, result: Option<AlbumArtPayload>) -> (step: FetchStep)
        requires
            old(self).wf(),
        ensures
            final(self).same_song(old(self)),
            final(self).wf(),
            match old(self).awaiting() {
                None => step matches FetchStep::Done(None),
                Some(p) => match result {
                    Some(pl) => final(self).awaiting() is None && step == FetchStep::Done(Some(pl)),
                    None => old(self).next_step(p + 1, step, *final(self)),
                },
            },
    {
        if !self.waiting {
            return FetchStep::Done(None);
        }
        match result {
            Some(pl) => {
                self.waiting = false;
                FetchStep::Done(Some(pl))
            },
            None => {
                let n = self.plan.len();
                assert(self.pos < n);
                let next = self.pos + 1;
                self.advance(next)
            },
        }
    }
}

impl AlbumArtManager {
    pub closed spec fn fetchers_view(&self) -> Seq<FetcherKind> {
        self.fetchers@
    }

    /// How many fetchers plugins have registered.
    pub closed spec fn plugin_count(&self) -> nat {
        self.plugins as nat
    }

    /// NetEase, QQ Music, Spotify, then iTunes and Last.fm as fallbacks.
    pub fn new() -> (m: Self)
        ensures
            m.fetchers_view() == default_fetchers(),
            m.plugin_count() == 0,
    {
        let mut fetchers: Vec<FetcherKind> = Vec::new();
        fetchers.push(FetcherKind::Netease);
        fetchers.push(FetcherKind::QQMusic);
        fetchers.push(FetcherKind::Spotify);
        fetchers.push(FetcherKind::ITunes);
        fetchers.push(FetcherKind::LastFm);
        assert(fetchers@ =~= default_fetchers());
        AlbumArtManager { fetchers, plugins: 0 }
    }

    /// A look-up of the cover of `title` by `artist` (both trimmed): the
    /// fetcher that `preferred_source` (lower-cased) names first, then the
    /// others in order. A blank title looks nothing up.
    pub fn fetch(&self, title: &str, artist: &str, album: &str, preferred_source: &str) -> (s: FetchSession)
        ensures
            s.title_view() == trim(title@),
            s.artist_view() == trim(artist@),
            s.album_view() == album@,
            s.plan_view() == if trim(title@).len() == 0 {
                Seq::<FetcherKind>::empty()
            } else {
                plan_of(self.fetchers_view(), unicode_lower(preferred_source@))
            },
            s.awaiting() is None,
            s.wf(),
    {
        let tv = chars_of(title);
        let t = trim_chars(tv.as_slice());
        let av = chars_of(artist);
        let a = trim_chars(av.as_slice());
        let title_s = string_of(t.as_slice());
        let artist_s = string_of(a.as_slice());
        let album_s = string_from(album);
        if t.len() == 0 {
            return FetchSession {
                title: title_s,
                artist: artist_s,
                album: album_s,
                plan: Vec::new(),
                pos: 0,
                waiting: false,
            };
        }
        let source_lower = to_lowercase(preferred_source);
        let plan = plan_exec(&self.fetchers, source_lower.as_str());
        FetchSession { title: title_s, artist: artist_s, album: album_s, plan, pos: 0, waiting: false }
    }

    /// Whether `source` (lower-cased) names the platform of the fetcher called `fetcher_name`.
    pub fn source_matches(fetcher_name: &str, source: &str) -> (r: bool)
        ensures
            r == source_matches_spec(fetcher_name@, source@),
    {
        let n = chars_of(fetcher_name);
        let s = chars_of(source);
        if crate::text::eq_str(&n, "netease") {
            contains_str(&s, "netease") || contains_str(&s, "cloudmusic") || contains_str(&s, "orpheus")
        } else if crate::text::eq_str(&n, "qqmusic") {
            contains_str(&s, "qqmusic")
        } else if crate::text::eq_str(&n, "spotify") {
            contains_str(&s, "spotify")
        } else {
            false
        }
    }
}

impl Default for AlbumArtManager {
    fn default() -> (m: Self)
        ensures
            m.fetchers_view() == default_fetchers(),
    {
        AlbumArtManager::new()
    }
}

fn kind_matches_exec(k: FetcherKind, source: &str) -> (r: bool)
    ensures
        r == kind_matches(k, source@),
{
    AlbumArtManager::source_matches(fetcher_name_of(k), source)
}

fn first_match_exec(fs: &Vec<FetcherKind>, source: &str) -> (r: Option<usize>)
    ensures
        match r {
            Some(f) => first_match(fs@, source@, 0) == Some(f as int) && f < fs@.len(),
            None => first_match(fs@, source@, 0) is None,
        },
{
    let n = fs.len();
    let mut i: usize = 0;
    while i < n
        invariant
            n == fs@.len(),
            i <= n,
            first_match(fs@, source@, 0) == first_match(fs@, source@, i as int),
        decreases n - i,
    {
        if kind_matches_exec(fs[i], source) {
            return Some(i);
        }
        i = i + 1;
    }
    None
}

fn plan_exec(fs: &Vec<FetcherKind>, source: &str) -> (plan: Vec<FetcherKind>)
    ensures
        plan@ == plan_of(fs@, source@),
{
    let n = fs.len();
    let first = first_match_exec(fs, source);
    let mut rest: Vec<FetcherKind> = Vec::new();
    for j in 0..n
        invariant
            n == fs@.len(),
            rest@ == unmatched(fs@.take(j as int), source@),
    {
        assert(fs@.take(j + 1).drop_last() =~= fs@.take(j as int));
        if !kind_matches_exec(fs[j], source) {
            rest.push(fs[j]);
        }
    }
    assert(fs@.take(n as int) =~= fs@);
    match first {
        Some(f) => {
            let mut plan: Vec<FetcherKind> = Vec::new();
            plan.push(fs[f]);
            let ghost head = plan@;
            let m = rest.len();
            for j in 0..m
                invariant
                    m == rest@.len(),
                    plan@ == head + rest@.take(j as int),
            {
                plan.push(rest[j]);
                assert(rest@.take(j + 1) =~= rest@.take(j as int).push(rest@[j as int]));
            }
            assert(rest@.take(m as int) =~= rest@);
            assert(head =~= seq![fs@[f as int]]);
            plan
        },
        None => rest,
    }
}

/// Fetching the cover of a song with the shared manager: the platform the
/// source names first, then the other platforms and the plugins' fetchers.
pub fn fetch_album_art(manager: &AlbumArtManager, title: &str, artist: &str, album: &str, source_hint: &str) -> (s: FetchSession)
    ensures
        s.title_view() == trim(title@),
        s.artist_view() == trim(artist@),
        s.album_view() == album@,
        s.plan_view() == if trim(title@).len() == 0 {
            Seq::<FetcherKind>::empty()
        } else {
            plan_of(manager.fetchers_view(), unicode_lower(source_hint@))
        },
        s.awaiting() is None,
        s.wf(),
{
    manager.fetch(title, artist, album, source_hint)
}

/// Registers a plugin's cover fetcher with the shared manager: it is added
/// after every fetcher registered so far, under the next plugin number, which
/// the caller keeps to run the plugin when a look-up asks for it. A plugin's
/// fetcher is never taken for the platform that a media source names.
pub fn register_fetcher(manager: &mut AlbumArtManager) -> (k: FetcherKind)
    requires
        old(manager).plugin_count() < u32::MAX,
    ensures
        k == FetcherKind::Plugin(old(manager).plugin_count() as u32),
        final(manager).fetchers_view() == old(manager).fetchers_view().push(k),
        final(manager).plugin_count() == old(manager).plugin_count() + 1,
{
    let k = FetcherKind::Plugin(manager.plugins);
    manager.fetchers.push(k);
    manager.plugins = manager.plugins + 1;
    k
}

/// A downloaded image as standard base64; nothing for an empty download.
pub fn image_base64(bytes: &[u8]) -> (r: Option<String>)
    ensures
        bytes@.len() == 0 ==> r is None,
        bytes@.len() > 0 ==> opt_chars(r) == Some(base64_standard(bytes@)),
{
    if bytes.len() == 0 {
        return None;
    }
    Some(base64_encode(bytes))
}

/// The cover with the downloaded image, when there is one.
pub fn with_download(result: AlbumArtPayload, image_base64: Option<String>) -> (r: AlbumArtPayload)
    ensures
        r.url == result.url,
        r.source == result.source,
        r.base64 == if image_base64 is Some {
            image_base64
        } else {
            result.base64
        },
{
    let mut r = result;
    if image_base64.is_some() {
        r.base64 = image_base64;
    }
    r
}

proof fn lemma_unmatched_contains(fs: Seq<FetcherKind>, source: Seq<char>, w: int)
    requires
        0 <= w < fs.len(),
        !kind_matches(fs[w], source),
    ensures
        unmatched(fs, source).contains(fs[w]),
    decreases fs.len(),
{
    if w == fs.len() - 1 {
        assert(unmatched(fs, source).last() == fs[w]);
    } else {
        assert(fs.drop_last()[w] == fs[w]);
        lemma_unmatched_contains(fs.drop_last(), source, w);
        let u = unmatched(fs.drop_last(), source);
        let i = choose|i: int| 0 <= i < u.len() && u[i] == fs[w];
        if !kind_matches(fs.last(), source) {
            assert(unmatched(fs, source)[i] == fs[w]);
        }
    }
}

proof fn lemma_plugin_matches_no_source(id: u32, source: Seq<char>)
    ensures
        !kind_matches(FetcherKind::Plugin(id), source),
{
    reveal_strlit("plugin");
    reveal_strlit("netease");
    reveal_strlit("qqmusic");
    reveal_strlit("spotify");
}

proof fn lemma_first_match_in_range(fs: Seq<FetcherKind>, source: Seq<char>, i: int)
    ensures
        first_match(fs, source, i) matches Some(j) ==> i <= j < fs.len(),
    decreases fs.len() - i,
{
    if 0 <= i < fs.len() {
        lemma_first_match_in_range(fs, source, i + 1);
    }
}

proof fn lemma_first_match_push(fs: Seq<FetcherKind>, k: FetcherKind, source: Seq<char>, i: int)
    requires
        !kind_matches(k, source),
        0 <= i,
    ensures
        first_match(fs.push(k), source, i) == first_match(fs, source, i),
    decreases fs.len() - i,
{
    if i < fs.len() {
        assert(fs.push(k)[i] == fs[i]);
        lemma_first_match_push(fs, k, source, i + 1);
    } else if i == fs.len() {
        assert(fs.push(k)[i] == k);
        assert(first_match(fs.push(k), source, i + 1) is None);
    }
}

/// A fetcher that a plugin registers is asked last: after registration a
/// look-up asks the fetchers in the order it did before, then the new one.
pub proof fn law_registered_fetcher_is_asked_last(fs: Seq<FetcherKind>, k: FetcherKind, source: Seq<char>)
    requires
        k is Plugin,
    ensures
        plan_of(fs.push(k), source) == plan_of(fs, source).push(k),
{
    lemma_plugin_matches_no_source(k->0, source);
    lemma_first_match_push(fs, k, source, 0);
    lemma_first_match_in_range(fs, source, 0);
    assert(fs.push(k).drop_last() =~= fs);
    assert(fs.push(k).last() == k);
    assert(!kind_matches(k, source));
    match first_match(fs, source, 0) {
        Some(i) => {
            assert(fs.push(k)[i] == fs[i]);
            assert(plan_of(fs.push(k), source) =~= plan_of(fs, source).push(k));
        },
        None => {},
    }
}

/// With the default fetchers, a look-up asks each platform at most once, asks
/// the platform that the source names first, and leaves out only platforms
/// that the source names (other than the first one named).
pub proof fn law_plan_asks_each_platform_once(source: Seq<char>)
    ensures
        ({
            let plan = plan_of(default_fetchers(), source);
            &&& forall|i: int, j: int| 0 <= i < j < plan.len() ==> plan[i] != plan[j]
            &&& first_match(default_fetchers(), source, 0) matches Some(f) ==> plan.len() > 0 && plan[0]
                == default_fetchers()[f]
            &&& forall|k: FetcherKind|
                !kind_matches(k, source) && !(k is Plugin) ==> plan.contains(k)
        }),
{
    reveal_with_fuel(unmatched, 6);
    reveal_with_fuel(first_match, 6);
    let fs = default_fetchers();
    assert(fs.drop_last() =~= seq![FetcherKind::Netease, FetcherKind::QQMusic, FetcherKind::Spotify, FetcherKind::ITunes]);
    assert(fs.drop_last().drop_last() =~= seq![FetcherKind::Netease, FetcherKind::QQMusic, FetcherKind::Spotify]);
    assert(fs.drop_last().drop_last().drop_last() =~= seq![FetcherKind::Netease, FetcherKind::QQMusic]);
    assert(fs.drop_last().drop_last().drop_last().drop_last() =~= seq![FetcherKind::Netease]);
    assert(fs.drop_last().drop_last().drop_last().drop_last().drop_last() =~= Seq::<FetcherKind>::empty());
    let plan = plan_of(fs, source);
    assert forall|k: FetcherKind| !kind_matches(k, source) && !(k is Plugin) implies plan.contains(k) by {
        let w: int = match k {
            FetcherKind::Netease => 0,
            FetcherKind::QQMusic => 1,
            FetcherKind::Spotify => 2,
            FetcherKind::ITunes => 3,
            FetcherKind::LastFm => 4,
            FetcherKind::Plugin(_) => 0,
        };
        assert(fs[w] == k);
        lemma_unmatched_contains(fs, source, w);
        let u = unmatched(fs, source);
        let i = choose|i: int| 0 <= i < u.len() && u[i] == k;
        match first_match(fs, source, 0) {
            Some(f) => {
                assert(plan[i + 1] == k);
            },
            None => {
                assert(plan[i] == k);
            },
        }
    }
}

} // verus!
