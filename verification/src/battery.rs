//! Battery level and charging state.
use vstd::prelude::*;

verus! {

#[derive(PartialEq, Eq, Structural, Clone, Copy, Debug)]
pub struct BatteryInfo {
    pub percent: u32,
    pub charging: bool,
}

/// Where no power status can be read: shown as a full battery, not charging.
pub fn get_battery() -> (b: BatteryInfo)
    ensures
        b.percent == 100,
        !b.charging,
{
    BatteryInfo { percent: 100, charging: false }
}

/// The battery from the system power status: a life percentage of 255 means
/// there is no battery (mains only), shown as 100 %; charging means a battery
/// is present and the AC line status is 1 (online).
pub fn battery_from_power_status(battery_life_percent: u8, ac_line_status: u8) -> (b: BatteryInfo)
    ensures
        b.percent == if battery_life_percent == 255 {
            100
        } else {
            battery_life_percent as u32
        },
        b.charging == (battery_life_percent != 255 && ac_line_status == 1),
{
    let has_battery = battery_life_percent != 255;
    let percent: u32 = if has_battery {
        battery_life_percent as u32
    } else {
        100
    };
    BatteryInfo { percent, charging: has_battery && ac_line_status == 1 }
}

} // verus!
