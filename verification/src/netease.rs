//! NetEase Cloud Music: the cover of the playing song, searched on three
//! endpoints in turn, and the local client's player status.
use crate::encoding::{opt_chars, percent_encode, url_encode};
use crate::json::{get_opt, opt_get, opt_str, str_opt, JsonValue};
use crate::text::{
    chars_of, contains, contains_str, extend, extend_str, replace_first, replace_first_exec, starts_with,
    starts_with_str, string_from, string_of, trim, trim_chars,
};
use vstd::prelude::*;
use vstd::utf8::*;

verus! {

pub struct CoverUrlPayload {
    pub title: String,
    pub artist: String,
    pub url: Option<String>,
    /// `netease`
    pub source: String,
}

/// A cover address made `https` and asking for 512×512 pixels, unless it
/// already asks for a size.
pub open spec fn hd_url(url: Seq<char>) -> Seq<char> {
    let u = if starts_with(url, "http://"@) {
        replace_first(url, "http://"@, "https://"@)
    } else {
        url
    };
    if contains(u, "?param="@) {
        u
    } else {
        u + "?param=512y512"@
    }
}

pub fn add_hd_param(url: &str) -> (r: String)
    ensures
        r@ == hd_url(url@),
        contains(r@, "?param="@),
        !starts_with(r@, "http://"@),
{
    proof {
        law_hd_url_idempotent(url@);
    }
    let v = chars_of(url);
    let u = if starts_with_str(&v, "http://") {
        let from = chars_of("http://");
        let to = chars_of("https://");
        replace_first_exec(v.as_slice(), from.as_slice(), to.as_slice())
    } else {
        v
    };
    if contains_str(&u, "?param=") {
        string_of(u.as_slice())
    } else {
        let mut w = u;
        extend_str(&mut w, "?param=512y512");
        string_of(w.as_slice())
    }
}

/// A made cover address always asks for a size and never starts with
/// `http://`; making it `https` and sized twice changes nothing more.
pub proof fn law_hd_url_idempotent(url: Seq<char>)
    ensures
        contains(hd_url(url), "?param="@),
        !starts_with(hd_url(url), "http://"@),
        hd_url(hd_url(url)) == hd_url(url),
{
    reveal_strlit("http://");
    reveal_strlit("https://");
    reveal_strlit("?param=");
    reveal_strlit("?param=512y512");
    let u = if starts_with(url, "http://"@) {
        replace_first(url, "http://"@, "https://"@)
    } else {
        url
    };
    if starts_with(url, "http://"@) {
        assert(crate::text::find(url, "http://"@) == Some(0int));
        assert(u[4] == 's');
        if starts_with(u, "http://"@) {
            assert(u.subrange(0, 7)[4] == u[4]);
        }
    }
    assert(!starts_with(u, "http://"@));
    let h = hd_url(url);
    if !contains(u, "?param="@) {
        let n = u.len() as int;
        assert(h =~= u + "?param=512y512"@);
        assert(h.subrange(n, n + 7) =~= "?param="@);
        assert(crate::text::occurs_at(h, "?param="@, n));
        if starts_with(h, "http://"@) {
            if n >= 7 {
                assert(h.subrange(0, 7) =~= u.subrange(0, 7));
            } else {
                assert(h[n] == '?');
                assert(h.subrange(0, 7)[n] == h[n]);
            }
        }
    }
    assert(contains(h, "?param="@));
    assert(!starts_with(h, "http://"@));
}

pub open spec fn nonblank_str(v: Option<JsonValue>) -> Option<Seq<char>> {
    match opt_str(v) {
        Some(s) => if trim(s).len() > 0 {
            Some(s)
        } else {
            None
        },
        None => None,
    }
}

/// The cover of the first song of a search reply: `album.picUrl`, else
/// `al.picUrl` (the two shapes the endpoints answer in), when not blank.
pub open spec fn pic_url(v: JsonValue) -> Option<Seq<char>> {
    let first = match crate::json::json_get(v, "result"@) {
        Some(r) => match crate::json::json_get(r, "songs"@) {
            Some(songs) => crate::json::json_at(songs, 0),
            None => None,
        },
        None => None,
    };
    if first is None {
        None
    } else if nonblank_str(opt_get(opt_get(first, "album"@), "picUrl"@)) is Some {
        nonblank_str(opt_get(opt_get(first, "album"@), "picUrl"@))
    } else {
        nonblank_str(opt_get(opt_get(first, "al"@), "picUrl"@))
    }
}

fn nonblank(s: Option<String>) -> (r: Option<String>)
    ensures
        opt_chars(r) == match opt_chars(s) {
            Some(x) => if trim(x).len() > 0 {
                Some(x)
            } else {
                None
            },
            None => None,
        },
{
    match s {
        Some(x) => {
            let v = chars_of(x.as_str());
            let t = trim_chars(v.as_slice());
            if t.len() > 0 {
                Some(x)
            } else {
                None
            }
        },
        None => None,
    }
}

pub fn extract_pic_url(v: &JsonValue) -> (r: Option<String>)
    ensures
        opt_chars(r) == pic_url(*v),
{
    let songs = get_opt(v.get("result"), "songs");
    let first = match songs {
        Some(s) => s.at(0),
        None => None,
    };
    if first.is_none() {
        return None;
    }
    let a = nonblank(str_opt(get_opt(get_opt(first, "album"), "picUrl")));
    if a.is_some() {
        return a;
    }
    nonblank(str_opt(get_opt(get_opt(first, "al"), "picUrl")))
}

/// Whether an HTTP status is a success (2xx); other replies are not parsed.
pub fn status_ok(status: u16) -> (r: bool)
    ensures
        r == (200 <= status < 300),
{
    !(status < 200 || status >= 300)
}

/// The search keyword: the title, and the artist after a space when there is one.
pub open spec fn keyword_of(title: Seq<char>, artist: Seq<char>) -> Seq<char> {
    if artist.len() == 0 {
        title
    } else {
        title + " "@ + artist
    }
}

/// The three search endpoints, in the order they are tried.
pub open spec fn endpoint(i: int, keyword: Seq<char>) -> Seq<char> {
    let q = percent_encode(encode_utf8(keyword));
    if i == 0 {
        "https://music.163.com/api/search/pc?s="@ + q + "&type=1&limit=1"@
    } else if i == 1 {
        "https://music.163.com/api/search/get?s="@ + q + "&type=1&limit=1"@
    } else {
        "https://music.163.com/api/cloudsearch/pc?s="@ + q + "&type=1&limit=1"@
    }
}

pub const ENDPOINT_COUNT: usize = 3;

/// The headers of a search request (some endpoints answer differently
/// without the client's cookie).
pub open spec fn search_headers() -> Seq<(Seq<char>, Seq<char>)> {
    seq![
        ("User-Agent"@, "Mozilla/5.0 (Windows NT 10.0; Win64; x64) IslandCore/0.1"@),
        ("Accept"@, "application/json, text/plain, */*"@),
        ("Referer"@, "https://music.163.com/"@),
        ("Cookie"@, "os=pc; appver=2.0.0; channel=netease"@),
    ]
}

pub fn request_headers() -> (r: Vec<(&'static str, &'static str)>)
    ensures
        crate::album_art::header_views(r@) == search_headers(),
{
    let mut r: Vec<(&'static str, &'static str)> = Vec::new();
    r.push(("User-Agent", "Mozilla/5.0 (Windows NT 10.0; Win64; x64) IslandCore/0.1"));
    r.push(("Accept", "application/json, text/plain, */*"));
    r.push(("Referer", "https://music.163.com/"));
    r.push(("Cookie", "os=pc; appver=2.0.0; channel=netease"));
    assert(crate::album_art::header_views(r@) =~= search_headers());
    r
}

/// One step of a cover search: a request, or the cover found (if any).
pub enum CoverStep {
    /// GET `url`; hand the parsed JSON of a 2xx reply (else `None`) to `CoverSearch::on_reply`.
    Get { url: String },
    Done(Option<String>),
}

/// A cover search in progress.
pub struct CoverSearch {
    keyword: String,
    next: usize,
}

impl CoverSearch {
    pub closed spec fn keyword_view(&self) -> Seq<char> {
        self.keyword@
    }

    /// How many endpoints were asked.
    pub closed spec fn asked(&self) -> nat {
        self.next as nat
    }

    pub closed spec fn wf(&self) -> bool {
        self.next <= ENDPOINT_COUNT
    }

    fn endpoint_url(&self, i: usize) -> (r: String)
        requires
            i < ENDPOINT_COUNT,
        ensures
            r@ == endpoint(i as int, self.keyword@),
    {
        let q = url_encode(self.keyword.as_str());
        let qv = chars_of(q.as_str());
        let mut v = if i == 0 {
            chars_of("https://music.163.com/api/search/pc?s=")
        } else if i == 1 {
            chars_of("https://music.163.com/api/search/get?s=")
        } else {
            chars_of("https://music.163.com/api/cloudsearch/pc?s=")
        };
        extend(&mut v, qv.as_slice());
        extend_str(&mut v, "&type=1&limit=1");
        string_of(v.as_slice())
    }

    /// The first request, or no cover for a blank title.
    pub fn start(&mut self) -> (step: CoverStep)
        requires
            old(self).wf(),
        ensures
            final(self).wf(),
            final(self).keyword_view() == old(self).keyword_view(),
            old(self).asked() < ENDPOINT_COUNT ==> final(self).asked() == old(self).asked() + 1
                && (step matches CoverStep::Get { url } && url@ == endpoint(
                old(self).asked() as int,
                old(self).keyword_view(),
            )),
            old(self).asked() >= ENDPOINT_COUNT ==> step matches CoverStep::Done(None),
    {
        if self.next < ENDPOINT_COUNT {
            let url = self.endpoint_url(self.next);
            self.next = self.next + 1;
            CoverStep::Get { url }
        } else {
            CoverStep::Done(None)
        }
    }

    /// After a reply: the cover (made `https`, 512×512) when it has one, else
    /// the next endpoint, or no cover after the third.
    pub fn on_reply(&mut self, reply: Option<JsonValue>) -> (step: CoverStep)
        requires
            old(self).wf(),
        ensures
            final(self).wf(),
            final(self).keyword_view() == old(self).keyword_view(),
            ({
                let found = match reply {
                    Some(v) => pic_url(v),
                    None => None,
                };
                match found {
                    Some(p) => step matches CoverStep::Done(Some(u)) && u@ == hd_url(p),
                    None => if old(self).asked() < ENDPOINT_COUNT {
                        final(self).asked() == old(self).asked() + 1 && (step matches CoverStep::Get {
                            url,
                        } && url@ == endpoint(old(self).asked() as int, old(self).keyword_view()))
                    } else {
                        step matches CoverStep::Done(None)
                    },
                }
            }),
    {
        let found = match &reply {
            Some(v) => extract_pic_url(v),
            None => None,
        };
        match found {
            Some(p) => CoverStep::Done(Some(add_hd_param(p.as_str()))),
            None => self.start(),
        }
    }
}

/// The cover search for a song: keyword from the trimmed title and artist. A
/// blank title searches nothing.
pub fn fetch_netease_cover_url(title: &str, artist: &str) -> (s: CoverSearch)
    ensures
        s.keyword_view() == keyword_of(trim(title@), trim(artist@)),
        s.asked() == if trim(title@).len() == 0 {
            ENDPOINT_COUNT as nat
        } else {
            0
        },
        s.wf(),
{
    let tv = chars_of(title);
    let t = trim_chars(tv.as_slice());
    let av = chars_of(artist);
    let a = trim_chars(av.as_slice());
    let mut k = t;
    if a.len() > 0 {
        extend_str(&mut k, " ");
        extend(&mut k, a.as_slice());
    }
    let done = t_is_empty(&tv);
    CoverSearch { keyword: string_of(k.as_slice()), next: if done { ENDPOINT_COUNT } else { 0 } }
}

fn t_is_empty(v: &Vec<char>) -> (r: bool)
    ensures
        r == (trim(v@).len() == 0),
{
    let t = trim_chars(v.as_slice());
    t.len() == 0
}

/// The cover found for a song, as sent to the island.
pub fn cover_payload(title: String, artist: String, url: Option<String>) -> (p: CoverUrlPayload)
    ensures
        p.title == title,
        p.artist == artist,
        p.url == url,
        p.source@ == "netease"@,
{
    CoverUrlPayload { title, artist, url, source: string_from("netease") }
}

/// The empty cover sent when nothing plays.
pub fn empty_cover_payload() -> (p: CoverUrlPayload)
    ensures
        p.title@.len() == 0,
        p.artist@.len() == 0,
        p.url is None,
        p.source@ == "netease"@,
{
    CoverUrlPayload { title: String::new(), artist: String::new(), url: None, source: string_from("netease") }
}

// ───────────────────────── the local client ─────────────────────────

/// The `data` part of the local client's player status reply.
pub struct NcmData {
    /// milliseconds
    pub progress: Option<i64>,
    /// milliseconds
    pub duration: Option<i64>,
    pub id: Option<u64>,
    pub name: Option<String>,
    pub artist: Option<String>,
    /// 1 while playing
    pub status: Option<i32>,
}

pub struct NcmResponse {
    pub data: Option<NcmData>,
}

pub struct NeteaseLocalStatus {
    pub progress_ms: u64,
    pub duration_ms: u64,
    pub id: Option<u64>,
    pub title: String,
    pub artist: String,
    pub playing: bool,
}

pub open spec fn clamp0(n: i64) -> u64 {
    if n < 0 {
        0
    } else {
        n as u64
    }
}

/// The player status: there is none without data, progress, duration or a
/// title that is not blank; negative times count as 0; status 1 is playing.
pub fn get_player_status(reply: Option<NcmResponse>) -> (r: Option<NeteaseLocalStatus>)
    ensures
        match reply {
            Some(NcmResponse { data: Some(d) }) => match (d.progress, d.duration) {
                (Some(p), Some(du)) => {
                    let title = match d.name {
                        Some(n) => n@,
                        None => Seq::empty(),
                    };
                    if trim(title).len() == 0 {
                        r is None
                    } else {
                        r matches Some(st) && st.progress_ms == clamp0(p) && st.duration_ms == clamp0(du)
                            && st.id == d.id && st.title@ == title && st.artist@ == (match d.artist {
                            Some(a) => a@,
                            None => Seq::<char>::empty(),
                        }) && st.playing == (d.status == Some(1i32))
                    }
                },
                _ => r is None,
            },
            _ => r is None,
        },
{
    let data = match reply {
        Some(resp) => match resp.data {
            Some(d) => d,
            None => return None,
        },
        None => return None,
    };
    let progress = match data.progress {
        Some(p) => p,
        None => return None,
    };
    let duration = match data.duration {
        Some(d) => d,
        None => return None,
    };
    let title = match data.name {
        Some(n) => n,
        None => String::new(),
    };
    let artist = match data.artist {
        Some(a) => a,
        None => String::new(),
    };
    let tv = chars_of(title.as_str());
    let tt = trim_chars(tv.as_slice());
    if tt.len() == 0 {
        return None;
    }
    let playing = match data.status {
        Some(s) => s == 1,
        None => false,
    };
    Some(
        NeteaseLocalStatus {
            progress_ms: if progress < 0 { 0 } else { progress as u64 },
            duration_ms: if duration < 0 { 0 } else { duration as u64 },
            id: data.id,
            title,
            artist,
            playing,
        },
    )
}

} // verus!
