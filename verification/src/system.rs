//! System actions: key combinations sent as input, media keys, opening the
//! now-playing app, the accent colour, and the island window's styles and
//! position.
use crate::encoding::{to_lowercase, unicode_lower};
use crate::fmt::{hex2, hex2_exec};
use crate::text::{chars_of, eq_str, extend, replace_all, replace_all_exec, string_of};
use vstd::prelude::*;

verus! {

// ───────────────────────── key input ─────────────────────────

pub const VK_LWIN: u16 = 0x5B;

pub const VK_SHIFT: u16 = 0x10;

pub const VK_S: u16 = 0x53;

pub const VK_A: u16 = 0x41;

/// The key events of a combination: every key pressed in order, then released
/// in reverse order. Each event is `(virtual key, released)`.
pub open spec fn combo_spec(vks: Seq<u16>) -> Seq<(u16, bool)> {
    Seq::new(vks.len(), |i: int| (vks[i], false)) + Seq::new(
        vks.len(),
        |i: int| (vks[vks.len() - 1 - i], true),
    )
}

pub fn combo_events(vks: &[u16]) -> (r: Vec<(u16, bool)>)
    ensures
        r@ == combo_spec(vks@),
{
    let n = vks.len();
    let mut r: Vec<(u16, bool)> = Vec::new();
    for i in 0..n
        invariant
            n == vks@.len(),
            r@.len() == i,
            forall|j: int| 0 <= j < i ==> r@[j] == (vks@[j], false),
    {
        r.push((vks[i], false));
    }
    for i in 0..n
        invariant
            n == vks@.len(),
            r@.len() == n + i,
            forall|j: int| 0 <= j < n ==> r@[j] == (vks@[j], false),
            forall|j: int| n <= j < n + i ==> #[trigger] r@[j] == (vks@[n - 1 - (j - n)], true),
    {
        r.push((vks[n - 1 - i], true));
    }
    assert(r@ =~= combo_spec(vks@));
    r
}

/// Every key of a combination is pressed once and released once, the
/// releases mirroring the presses.
pub proof fn law_combo_releases_in_reverse(vks: Seq<u16>)
    ensures
        combo_spec(vks).len() == 2 * vks.len(),
        forall|i: int|
            0 <= i < vks.len() ==> (#[trigger] combo_spec(vks)[i]).0 == combo_spec(vks)[2 * vks.len()
                - 1 - i].0 && !combo_spec(vks)[i].1 && combo_spec(vks)[2 * vks.len() - 1 - i].1,
{
    assert forall|i: int| 0 <= i < vks.len() implies (#[trigger] combo_spec(vks)[i]).0 == combo_spec(
        vks,
    )[2 * vks.len() - 1 - i].0 && !combo_spec(vks)[i].1 && combo_spec(vks)[2 * vks.len() - 1 - i].1 by {
        let n = vks.len() as int;
        assert(combo_spec(vks)[2 * n - 1 - i] == (vks[n - 1 - (n - 1 - i)], true));
    }
}

/// Win + Shift + S: the screenshot tool.
pub fn screenshot_combo() -> (r: Vec<(u16, bool)>)
    ensures
        r@ == combo_spec(seq![VK_LWIN, VK_SHIFT, VK_S]),
{
    let keys: Vec<u16> = vec![VK_LWIN, VK_SHIFT, VK_S];
    assert(keys@ =~= seq![VK_LWIN, VK_SHIFT, VK_S]);
    combo_events(keys.as_slice())
}

/// Win + A: quick settings (the action centre on Windows 10).
pub fn quick_settings_combo() -> (r: Vec<(u16, bool)>)
    ensures
        r@ == combo_spec(seq![VK_LWIN, VK_A]),
{
    let keys: Vec<u16> = vec![VK_LWIN, VK_A];
    assert(keys@ =~= seq![VK_LWIN, VK_A]);
    combo_events(keys.as_slice())
}

/// The media key for an action: `play_pause`, `next` or `prev`.
pub open spec fn media_key_spec(action: Seq<char>) -> Option<u16> {
    if action == "play_pause"@ {
        Some(0xB3u16)
    } else if action == "next"@ {
        Some(0xB0u16)
    } else if action == "prev"@ {
        Some(0xB1u16)
    } else {
        None
    }
}

pub fn media_key(action: &str) -> (r: Option<u16>)
    ensures
        r == media_key_spec(action@),
{
    let a = chars_of(action);
    if eq_str(&a, "play_pause") {
        Some(0xB3)
    } else if eq_str(&a, "next") {
        Some(0xB0)
    } else if eq_str(&a, "prev") {
        Some(0xB1)
    } else {
        None
    }
}

// ───────────────────────── opening things ─────────────────────────

/// `ShellExecuteW` succeeded: it returns a value greater than 32.
pub fn shell_execute_succeeded(result: isize) -> (r: bool)
    ensures
        r == (result > 32),
{
    result > 32
}

/// `%LOCALAPPDATA%`, `%ProgramFiles%` and `%ProgramFiles(x86)%` replaced by the
/// values of those variables, where they are set.
pub open spec fn expanded_path(
    raw: Seq<char>,
    local_app_data: Option<Seq<char>>,
    program_files: Option<Seq<char>>,
    program_files_x86: Option<Seq<char>>,
) -> Seq<char> {
    let a = match local_app_data {
        Some(v) => replace_all(raw, "%LOCALAPPDATA%"@, v),
        None => raw,
    };
    let b = match program_files {
        Some(v) => replace_all(a, "%ProgramFiles%"@, v),
        None => a,
    };
    match program_files_x86 {
        Some(v) => replace_all(b, "%ProgramFiles(x86)%"@, v),
        None => b,
    }
}

fn replace_var(s: Vec<char>, name: &str, value: Option<&str>) -> (r: Vec<char>)
    requires
        name@.len() > 0,
    ensures
        r@ == match value {
            Some(v) => replace_all(s@, name@, v@),
            None => s@,
        },
{
    match value {
        Some(v) => {
            let nv = chars_of(name);
            let vv = chars_of(v);
            replace_all_exec(s.as_slice(), nv.as_slice(), vv.as_slice())
        },
        None => s,
    }
}

pub fn expand_env_path(
    raw: &str,
    local_app_data: Option<&str>,
    program_files: Option<&str>,
    program_files_x86: Option<&str>,
) -> (r: String)
    ensures
        r@ == expanded_path(
            raw@,
            match local_app_data {
                Some(v) => Some(v@),
                None => None,
            },
            match program_files {
                Some(v) => Some(v@),
                None => None,
            },
            match program_files_x86 {
                Some(v) => Some(v@),
                None => None,
            },
        ),
{
    proof {
        reveal_strlit("%LOCALAPPDATA%");
        reveal_strlit("%ProgramFiles%");
        reveal_strlit("%ProgramFiles(x86)%");
    }
    let s = chars_of(raw);
    let a = replace_var(s, "%LOCALAPPDATA%", local_app_data);
    let b = replace_var(a, "%ProgramFiles%", program_files);
    let c = replace_var(b, "%ProgramFiles(x86)%", program_files_x86);
    string_of(c.as_slice())
}

/// How to bring up the player of a media source: addresses to open in turn,
/// then program paths (with variables) to start if one exists.
pub open spec fn launch_uris(source_lower: Seq<char>) -> Seq<Seq<char>> {
    if source_lower == "spotify"@ {
        seq!["spotify:"@]
    } else if source_lower == "cloudmusic"@ {
        seq!["orpheus://"@, "cloudmusic://"@]
    } else if source_lower == "qqmusic"@ {
        seq!["qqmusic://"@]
    } else if source_lower == "chrome"@ {
        seq!["chrome://newtab"@]
    } else {
        seq![]
    }
}

pub open spec fn launch_exes(source_lower: Seq<char>) -> Seq<Seq<char>> {
    if source_lower == "spotify"@ {
        seq!["%LOCALAPPDATA%\\Microsoft\\WindowsApps\\Spotify.exe"@]
    } else if source_lower == "cloudmusic"@ {
        seq![
            "%LOCALAPPDATA%\\NetEase\\CloudMusic\\cloudmusic.exe"@,
            "%ProgramFiles%\\CloudMusic\\cloudmusic.exe"@,
            "%ProgramFiles(x86)%\\CloudMusic\\cloudmusic.exe"@,
            "%ProgramFiles%\\NetEase\\CloudMusic\\cloudmusic.exe"@,
        ]
    } else if source_lower == "qqmusic"@ {
        seq!["%ProgramFiles%\\Tencent\\QQMusic\\QQMusic.exe"@, "%ProgramFiles(x86)%\\Tencent\\QQMusic\\QQMusic.exe"@]
    } else {
        seq![]
    }
}

pub open spec fn str_views(v: Seq<&'static str>) -> Seq<Seq<char>> {
    v.map_values(|s: &'static str| s@)
}

/// The launch plan for the media source `source` (compared lower-cased).
pub fn now_playing_launch(source: &str) -> (r: (Vec<&'static str>, Vec<&'static str>))
    ensures
        str_views(r.0@) == launch_uris(unicode_lower(source@)),
        str_views(r.1@) == launch_exes(unicode_lower(source@)),
{
    let l = to_lowercase(source);
    let s = chars_of(l.as_str());
    let mut uris: Vec<&'static str> = Vec::new();
    let mut exes: Vec<&'static str> = Vec::new();
    if eq_str(&s, "spotify") {
        uris.push("spotify:");
        exes.push("%LOCALAPPDATA%\\Microsoft\\WindowsApps\\Spotify.exe");
    } else if eq_str(&s, "cloudmusic") {
        uris.push("orpheus://");
        uris.push("cloudmusic://");
        exes.push("%LOCALAPPDATA%\\NetEase\\CloudMusic\\cloudmusic.exe");
        exes.push("%ProgramFiles%\\CloudMusic\\cloudmusic.exe");
        exes.push("%ProgramFiles(x86)%\\CloudMusic\\cloudmusic.exe");
        exes.push("%ProgramFiles%\\NetEase\\CloudMusic\\cloudmusic.exe");
    } else if eq_str(&s, "qqmusic") {
        uris.push("qqmusic://");
        exes.push("%ProgramFiles%\\Tencent\\QQMusic\\QQMusic.exe");
        exes.push("%ProgramFiles(x86)%\\Tencent\\QQMusic\\QQMusic.exe");
    } else if eq_str(&s, "chrome") {
        uris.push("chrome://newtab");
    }
    assert(str_views(uris@) =~= launch_uris(unicode_lower(source@)));
    assert(str_views(exes@) =~= launch_exes(unicode_lower(source@)));
    (uris, exes)
}

// ───────────────────────── accent colour ─────────────────────────

/// `#rrggbb` of an `0xAARRGGBB` colour (the alpha byte is dropped).
pub open spec fn argb_hex(argb: u32) -> Seq<char> {
    seq!['#'] + hex2(((argb / 0x10000) % 0x100) as u8) + hex2(((argb / 0x100) % 0x100) as u8) + hex2(
        (argb % 0x100) as u8,
    )
}

pub fn argb_to_hex(argb: u32) -> (r: String)
    ensures
        r@ == argb_hex(argb),
{
    let r8 = ((argb >> 16) & 0xff) as u8;
    let g8 = ((argb >> 8) & 0xff) as u8;
    let b8 = (argb & 0xff) as u8;
    assert((argb >> 16) & 0xff == (argb / 0x10000) % 0x100) by (bit_vector);
    assert((argb >> 8) & 0xff == (argb / 0x100) % 0x100) by (bit_vector);
    assert(argb & 0xff == argb % 0x100) by (bit_vector);
    let mut v: Vec<char> = Vec::new();
    v.push('#');
    let a = hex2_exec(r8);
    extend(&mut v, a.as_slice());
    let b = hex2_exec(g8);
    extend(&mut v, b.as_slice());
    let c = hex2_exec(b8);
    extend(&mut v, c.as_slice());
    string_of(v.as_slice())
}

// ───────────────────────── the island window ─────────────────────────

pub const WS_CAPTION: u32 = 0x00C0_0000;

pub const WS_THICKFRAME: u32 = 0x0004_0000;

pub const WS_MINIMIZEBOX: u32 = 0x0002_0000;

pub const WS_MAXIMIZEBOX: u32 = 0x0001_0000;

pub const WS_SYSMENU: u32 = 0x0008_0000;

pub const WS_EX_LAYERED: u32 = 0x0008_0000;

pub const WS_EX_TOOLWINDOW: u32 = 0x0000_0080;

pub const WS_EX_NOACTIVATE: u32 = 0x0800_0000;

pub const WS_EX_APPWINDOW: u32 = 0x0004_0000;

/// The island's logical width.
pub const ISLAND_WIDTH: i32 = 400;

/// The island's distance from the top of the screen.
pub const ISLAND_TOP: i32 = 8;

pub open spec fn island_style_spec(style: u32) -> u32 {
    style & !(WS_CAPTION | WS_THICKFRAME | WS_MINIMIZEBOX | WS_MAXIMIZEBOX | WS_SYSMENU)
}

pub open spec fn island_ex_style_spec(ex: u32) -> u32 {
    (ex & !WS_EX_APPWINDOW) | (WS_EX_LAYERED | WS_EX_TOOLWINDOW | WS_EX_NOACTIVATE)
}

/// The window style without title bar, frame and system buttons.
pub fn island_style(style: u32) -> (r: u32)
    ensures
        r == island_style_spec(style),
{
    style & !(WS_CAPTION | WS_THICKFRAME | WS_MINIMIZEBOX | WS_MAXIMIZEBOX | WS_SYSMENU)
}

/// The extended style: layered, a tool window (no taskbar button) that takes no focus.
pub fn island_ex_style(ex: u32) -> (r: u32)
    ensures
        r == island_ex_style_spec(ex),
{
    (ex & !WS_EX_APPWINDOW) | (WS_EX_LAYERED | WS_EX_TOOLWINDOW | WS_EX_NOACTIVATE)
}

/// Applying the island styles twice gives what applying them once gave, and the
/// result has no caption and is a layered tool window off the taskbar.
pub proof fn law_island_styles_settle(style: u32, ex: u32)
    ensures
        island_style_spec(island_style_spec(style)) == island_style_spec(style),
        island_ex_style_spec(island_ex_style_spec(ex)) == island_ex_style_spec(ex),
        island_style_spec(style) & WS_CAPTION == 0,
        island_ex_style_spec(ex) & WS_EX_APPWINDOW == 0,
        island_ex_style_spec(ex) & WS_EX_TOOLWINDOW == WS_EX_TOOLWINDOW,
        island_ex_style_spec(ex) & WS_EX_NOACTIVATE == WS_EX_NOACTIVATE,
        island_ex_style_spec(ex) & WS_EX_LAYERED == WS_EX_LAYERED,
{
    assert(((style & !0x00cf_0000u32) & !0x00cf_0000u32) == (style & !0x00cf_0000u32)) by (bit_vector);
    assert((style & !0x00cf_0000u32) & 0x00c0_0000u32 == 0) by (bit_vector);
    assert((((ex & !0x0004_0000u32) | 0x0808_0080u32) & !0x0004_0000u32) | 0x0808_0080u32 == (ex
        & !0x0004_0000u32) | 0x0808_0080u32) by (bit_vector);
    assert(((ex & !0x0004_0000u32) | 0x0808_0080u32) & 0x0004_0000u32 == 0) by (bit_vector);
    assert(((ex & !0x0004_0000u32) | 0x0808_0080u32) & 0x80u32 == 0x80u32) by (bit_vector);
    assert(((ex & !0x0004_0000u32) | 0x0808_0080u32) & 0x0800_0000u32 == 0x0800_0000u32) by (bit_vector);
    assert(((ex & !0x0004_0000u32) | 0x0808_0080u32) & 0x0008_0000u32 == 0x0008_0000u32) by (bit_vector);
    assert(0x00C0_0000u32 | 0x0004_0000u32 | 0x0002_0000u32 | 0x0001_0000u32 | 0x0008_0000u32
        == 0x00cf_0000u32) by (bit_vector);
    assert(0x0008_0000u32 | 0x0000_0080u32 | 0x0800_0000u32 == 0x0808_0080u32) by (bit_vector);
}

/// Half of `n`, rounded toward zero as Rust divides.
pub open spec fn half_toward_zero(n: int) -> int {
    if n >= 0 {
        n / 2
    } else {
        -((-n) / 2)
    }
}

/// The island's left edge: centred on a screen `screen_width` wide.
pub fn island_x(screen_width: i32) -> (x: i32)
    requires
        screen_width >= i32::MIN + ISLAND_WIDTH,
    ensures
        x == half_toward_zero(screen_width - ISLAND_WIDTH),
{
    let d = screen_width - ISLAND_WIDTH;
    d / 2
}

} // verus!
