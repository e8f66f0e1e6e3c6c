//! Device settings the island shows and changes: volume (and the keys that
//! change it or Caps Lock), focus assist, the radios, light or dark mode, and
//! display brightness.
use crate::events::SystemEvent;
use crate::fmt::{decimal, u64_decimal};
use crate::text::{chars_of, eq_str, extend, extend_str, string_from, string_of};
use vstd::prelude::*;

verus! {

// ───────────────────────── volume and keys ─────────────────────────

pub struct VolumeInfo {
    pub percent: u8,
    pub muted: bool,
}

/// The volume to set: at most 100 %.
pub fn volume_target(percent: u8) -> (r: u8)
    ensures
        r == if percent > 100 {
            100
        } else {
            percent
        },
{
    if percent > 100 {
        100
    } else {
        percent
    }
}

pub const VK_VOLUME_MUTE: u16 = 0xAD;

pub const VK_VOLUME_DOWN: u16 = 0xAE;

pub const VK_VOLUME_UP: u16 = 0xAF;

pub const VK_CAPITAL: u16 = 0x14;

pub const WM_KEYDOWN: u32 = 0x0100;

pub const WM_SYSKEYDOWN: u32 = 0x0104;

/// A key press the island reacts to.
#[derive(PartialEq, Eq, Structural, Clone, Copy, Debug)]
pub enum HookKey {
    CapsLock,
    Volume { mute: bool },
}

pub open spec fn hook_key_spec(code: i32, msg: u32, vk: u16) -> Option<HookKey> {
    if code < 0 || !(msg == WM_KEYDOWN || msg == WM_SYSKEYDOWN) {
        None
    } else if vk == VK_CAPITAL {
        Some(HookKey::CapsLock)
    } else if vk == VK_VOLUME_UP || vk == VK_VOLUME_DOWN || vk == VK_VOLUME_MUTE {
        Some(HookKey::Volume { mute: vk == VK_VOLUME_MUTE })
    } else {
        None
    }
}

/// What a low-level keyboard hook call is about: a key going down (plain or
/// with Alt) that is Caps Lock or a volume key.
pub fn hook_key(code: i32, msg: u32, vk: u16) -> (r: Option<HookKey>)
    ensures
        r == hook_key_spec(code, msg, vk),
{
    if code < 0 || !(msg == WM_KEYDOWN || msg == WM_SYSKEYDOWN) {
        return None;
    }
    if vk == VK_CAPITAL {
        Some(HookKey::CapsLock)
    } else if vk == VK_VOLUME_UP || vk == VK_VOLUME_DOWN || vk == VK_VOLUME_MUTE {
        Some(HookKey::Volume { mute: vk == VK_VOLUME_MUTE })
    } else {
        None
    }
}

/// The event for a Caps Lock press: the hook runs before the toggle, so the
/// new state is the opposite of the current one.
pub fn caps_lock_event(currently_on: bool) -> (e: SystemEvent)
    ensures
        e == (SystemEvent::CapsLock { on: !currently_on }),
{
    SystemEvent::CapsLock { on: !currently_on }
}

/// The event for a volume key: the volume read from the device, or 50 % and
/// muted-if-it-was-the-mute-key when it could not be read.
pub fn volume_key_event(mute_key: bool, read: Option<(u8, bool)>) -> (e: SystemEvent)
    ensures
        e == match read {
            Some((p, m)) => SystemEvent::VolumeChange { percent: p, muted: m },
            None => SystemEvent::VolumeChange { percent: 50, muted: mute_key },
        },
{
    match read {
        Some((p, m)) => SystemEvent::VolumeChange { percent: p, muted: m },
        None => SystemEvent::VolumeChange { percent: 50, muted: mute_key },
    }
}

// ───────────────────────── focus assist ─────────────────────────

pub struct FocusAssistInfo {
    pub supported: bool,
    pub on: Option<bool>,
}

/// Focus assist cannot be read: the island opens the settings instead.
pub fn get_focus_assist() -> (r: FocusAssistInfo)
    ensures
        !r.supported,
        r.on is None,
{
    FocusAssistInfo { supported: false, on: None }
}

/// Focus assist cannot be switched from here.
pub fn set_focus_assist(_on: bool) -> (r: bool)
    ensures
        !r,
{
    false
}

// ───────────────────────── radios ─────────────────────────

pub struct RadiosState {
    pub wifi: Option<bool>,
    pub bluetooth: Option<bool>,
}

#[derive(PartialEq, Eq, Structural, Clone, Copy, Debug)]
pub enum RadioKind {
    Other,
    WiFi,
    MobileBroadband,
    Bluetooth,
    FM,
}

#[derive(PartialEq, Eq, Structural, Clone, Copy, Debug)]
pub enum RadioState {
    Unknown,
    On,
    Off,
    Disabled,
}

pub open spec fn bool_state(s: RadioState) -> Option<bool> {
    match s {
        RadioState::On => Some(true),
        RadioState::Off => Some(false),
        _ => None,
    }
}

pub fn to_bool_state(s: RadioState) -> (r: Option<bool>)
    ensures
        r == bool_state(s),
{
    match s {
        RadioState::On => Some(true),
        RadioState::Off => Some(false),
        _ => None,
    }
}

pub fn to_target_state(on: bool) -> (r: RadioState)
    ensures
        r == if on {
            RadioState::On
        } else {
            RadioState::Off
        },
{
    if on {
        RadioState::On
    } else {
        RadioState::Off
    }
}

/// The state of the last radio of `kind` among the first `n` readable ones.
pub open spec fn last_state(radios: Seq<(Option<RadioKind>, Option<RadioState>)>, kind: RadioKind, n: int) -> Option<bool>
    decreases n,
{
    if n <= 0 {
        None
    } else {
        match radios[n - 1] {
            (Some(k), Some(s)) if k == kind => bool_state(s),
            _ => last_state(radios, kind, n - 1),
        }
    }
}

/// The Wi-Fi and Bluetooth states from the radio list (kind and state of each,
/// `None` where unreadable); where a kind occurs more than once the last wins.
pub fn radios_state_from(radios: &Vec<(Option<RadioKind>, Option<RadioState>)>) -> (r: RadiosState)
    ensures
        r.wifi == last_state(radios@, RadioKind::WiFi, radios@.len() as int),
        r.bluetooth == last_state(radios@, RadioKind::Bluetooth, radios@.len() as int),
{
    let mut wifi: Option<bool> = None;
    let mut bluetooth: Option<bool> = None;
    let n = radios.len();
    for i in 0..n
        invariant
            n == radios@.len(),
            wifi == last_state(radios@, RadioKind::WiFi, i as int),
            bluetooth == last_state(radios@, RadioKind::Bluetooth, i as int),
    {
        match radios[i] {
            (Some(RadioKind::WiFi), Some(s)) => {
                wifi = to_bool_state(s);
            },
            (Some(RadioKind::Bluetooth), Some(s)) => {
                bluetooth = to_bool_state(s);
            },
            _ => {},
        }
    }
    RadiosState { wifi, bluetooth }
}

/// Where no radio can be read.
pub fn radios_unknown() -> (r: RadiosState)
    ensures
        r.wifi is None,
        r.bluetooth is None,
{
    RadiosState { wifi: None, bluetooth: None }
}

/// The radio kind a request names: `wifi` or `bluetooth`.
pub fn radio_kind_of(kind: &str) -> (r: Option<RadioKind>)
    ensures
        r == if kind@ == "wifi"@ {
            Some(RadioKind::WiFi)
        } else if kind@ == "bluetooth"@ {
            Some(RadioKind::Bluetooth)
        } else {
            None
        },
{
    let k = chars_of(kind);
    if eq_str(&k, "wifi") {
        Some(RadioKind::WiFi)
    } else if eq_str(&k, "bluetooth") {
        Some(RadioKind::Bluetooth)
    } else {
        None
    }
}

/// The radio to switch: the first of the requested kind.
pub fn radio_to_switch(kinds: &Vec<Option<RadioKind>>, target: RadioKind) -> (r: Option<usize>)
    ensures
        r matches Some(i) ==> i < kinds@.len() && kinds@[i as int] == Some(target) && forall|j: int|
            0 <= j < i ==> kinds@[j] != Some(target),
        r is None ==> forall|j: int| 0 <= j < kinds@.len() ==> kinds@[j] != Some(target),
{
    let n = kinds.len();
    for i in 0..n
        invariant
            n == kinds@.len(),
            forall|j: int| 0 <= j < i ==> kinds@[j] != Some(target),
    {
        if kinds[i] == Some(target) {
            return Some(i);
        }
    }
    None
}

// ───────────────────────── light and dark mode ─────────────────────────

pub struct ThemeModeInfo {
    /// `light`, `dark` or `unknown`
    pub mode: String,
}

/// The mode from the `AppsUseLightTheme` value: 0 is dark; any other value,
/// or none readable, is light.
pub fn theme_mode_from(apps_use_light_theme: Option<u32>) -> (r: ThemeModeInfo)
    ensures
        r.mode@ == if apps_use_light_theme == Some(0u32) {
            "dark"@
        } else {
            "light"@
        },
{
    let v = match apps_use_light_theme {
        Some(v) => v,
        None => 1,
    };
    ThemeModeInfo {
        mode: if v == 0 {
            string_from("dark")
        } else {
            string_from("light")
        },
    }
}

/// Where the mode cannot be read.
pub fn theme_mode_unknown() -> (r: ThemeModeInfo)
    ensures
        r.mode@ == "unknown"@,
{
    ThemeModeInfo { mode: string_from("unknown") }
}

/// The registry value for a requested mode: 1 for `light`, 0 for `dark`.
pub fn theme_mode_value(mode: &str) -> (r: Option<u32>)
    ensures
        r == if mode@ == "light"@ {
            Some(1u32)
        } else if mode@ == "dark"@ {
            Some(0u32)
        } else {
            None
        },
{
    let m = chars_of(mode);
    if eq_str(&m, "light") {
        Some(1)
    } else if eq_str(&m, "dark") {
        Some(0)
    } else {
        None
    }
}

/// Setting the mode succeeded when either registry value was written (the
/// change is then broadcast).
pub fn theme_set_succeeded(apps_written: bool, system_written: bool) -> (r: bool)
    ensures
        r == (apps_written || system_written),
{
    apps_written || system_written
}

// ───────────────────────── brightness ─────────────────────────

pub struct BrightnessInfo {
    pub supported: bool,
    pub percent: u8,
}

/// Where brightness cannot be read: unsupported, shown at 50 %.
pub fn brightness_unsupported() -> (r: BrightnessInfo)
    ensures
        !r.supported,
        r.percent == 50,
{
    BrightnessInfo { supported: false, percent: 50 }
}

/// From the first row of the built-in display's brightness query, when there
/// is one (capped at 100 %).
pub fn brightness_from_wmi(first_row: Option<u8>) -> (r: Option<BrightnessInfo>)
    ensures
        match first_row {
            Some(b) => r matches Some(i) && i.supported && i.percent == if b > 100 {
                100
            } else {
                b
            },
            None => r is None,
        },
{
    match first_row {
        Some(b) => Some(BrightnessInfo { supported: true, percent: if b > 100 { 100 } else { b } }),
        None => None,
    }
}

/// From the external monitors (DDC/CI), when one answered.
pub fn brightness_from_ddc(percent: Option<u8>) -> (r: BrightnessInfo)
    ensures
        match percent {
            Some(p) => r.supported && r.percent == p,
            None => !r.supported && r.percent == 50,
        },
{
    match percent {
        Some(p) => BrightnessInfo { supported: true, percent: p },
        None => brightness_unsupported(),
    }
}

/// The brightness to set: at most 100 %.
pub fn brightness_target(percent: u8) -> (r: u8)
    ensures
        r == if percent > 100 {
            100
        } else {
            percent
        },
{
    if percent > 100 {
        100
    } else {
        percent
    }
}

pub open spec fn wmi_script_spec(pct: u8) -> Seq<char> {
    "(Get-WmiObject -Namespace root/WMI -Class WmiMonitorBrightnessMethods).WmiSetBrightness(1,"@
        + decimal(pct as nat) + ") | Out-Null"@
}

/// The PowerShell command that sets the built-in display's brightness.
pub fn wmi_brightness_script(pct: u8) -> (r: String)
    ensures
        r@ == wmi_script_spec(pct),
{
    let mut v = chars_of(
        "(Get-WmiObject -Namespace root/WMI -Class WmiMonitorBrightnessMethods).WmiSetBrightness(1,",
    );
    let d = u64_decimal(pct as u64);
    extend(&mut v, d.as_slice());
    extend_str(&mut v, ") | Out-Null");
    string_of(v.as_slice())
}

/// Setting brightness on the external monitors succeeded when any monitor took it.
pub fn any_succeeded(results: &Vec<bool>) -> (r: bool)
    ensures
        r == exists|i: int| 0 <= i < results@.len() && results@[i],
{
    let n = results.len();
    for i in 0..n
        invariant
            n == results@.len(),
            forall|j: int| 0 <= j < i ==> !results@[j],
    {
        if results[i] {
            return true;
        }
    }
    false
}

} // verus!
