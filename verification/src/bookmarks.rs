//! Website bookmarks. They are kept in a local SQLite database (one row per
//! address); this module checks and shapes what goes in and out.
use crate::text::{chars_of, string_from, string_of, trim, trim_chars};
use vstd::prelude::*;

verus! {

pub struct Bookmark {
    pub id: i64,
    pub url: String,
    pub title: String,
    pub created_at: i64,
}

/// A bookmark to add: the trimmed address, which must not be empty, and the
/// trimmed title, or the address when the title is blank.
pub open spec fn new_bookmark_fields(url: Seq<char>, title: Seq<char>) -> Option<(Seq<char>, Seq<char>)> {
    if trim(url).len() == 0 {
        None
    } else if trim(title).len() == 0 {
        Some((trim(url), trim(url)))
    } else {
        Some((trim(url), trim(title)))
    }
}

pub fn prepare_bookmark(url: &str, title: &str) -> (r: Result<(String, String), String>)
    ensures
        match r {
            Ok((u, t)) => new_bookmark_fields(url@, title@) == Some((u@, t@)),
            Err(e) => new_bookmark_fields(url@, title@) is None && e@ == "url 为空"@,
        },
{
    let uv = chars_of(url);
    let u = trim_chars(uv.as_slice());
    if u.len() == 0 {
        return Err(string_from("url 为空"));
    }
    let tv = chars_of(title);
    let t = trim_chars(tv.as_slice());
    let title_out = if t.len() == 0 {
        string_of(u.as_slice())
    } else {
        string_of(t.as_slice())
    };
    Ok((string_of(u.as_slice()), title_out))
}

/// The bookmark that an add gives back: the row's id, the fields as stored and
/// the time of the request.
pub fn added_bookmark(id: i64, url: String, title: String, now_secs: i64) -> (b: Bookmark)
    ensures
        b.id == id,
        b.url == url,
        b.title == title,
        b.created_at == now_secs,
{
    Bookmark { id, url, title, created_at: now_secs }
}

/// The address to look up or open: trimmed; `None` when blank (a blank
/// address is never bookmarked and never opened).
pub fn bookmark_key(url: &str) -> (r: Option<String>)
    ensures
        match r {
            Some(k) => trim(url@).len() > 0 && k@ == trim(url@),
            None => trim(url@).len() == 0,
        },
{
    let uv = chars_of(url);
    let u = trim_chars(uv.as_slice());
    if u.len() == 0 {
        None
    } else {
        Some(string_of(u.as_slice()))
    }
}

/// A bookmark exists when the count of rows with its address is positive.
pub fn bookmark_count_exists(count: i64) -> (r: bool)
    ensures
        r == (count > 0),
{
    count > 0
}

} // verus!
