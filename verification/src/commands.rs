//! The control surface: how each UI command changes the tunables, and the
//! status snapshot the UI shows.

use vstd::prelude::*;
use vstd::string::StringExecFns;

use crate::effects::battery::BatteryState;
use crate::effects::{interval_from_speed, mode_named, speed_interval, EffectMode, EffectParams};

verus! {

/// Switch the backlight power on or off.
pub fn set_power(params: &mut EffectParams, on: bool)
    ensures
        *final(params) == (EffectParams { power: on, ..*old(params) }),
{
    params.power = on;
}

/// Flip the backlight power.
pub fn toggle_power(params: &mut EffectParams)
    ensures
        *final(params) == (EffectParams { power: !old(params).power, ..*old(params) }),
{
    params.power = !params.power;
}

/// The message for a mode name that denotes no mode.
pub open spec fn unknown_mode_text(name: Seq<char>) -> Seq<char> {
    "unknown mode: "@ + name
}

/// Select the mode a name denotes; an unknown name is refused and leaves the
/// tunables as they were.
pub fn set_mode(params: &mut EffectParams, mode: &str) -> (r: Result<(), String>)
    ensures
        match mode_named(mode@) {
            Some(m) => r is Ok && *final(params) == (EffectParams { mode: m, ..*old(params) }),
            None => r is Err && r->Err_0@ == unknown_mode_text(mode@) && *final(params) == *old(
                params,
            ),
        },
{
    match EffectMode::from_name(mode) {
        Some(m) => {
            params.mode = m;
            Ok(())
        },
        None => {
            let msg = String::from_str("unknown mode: ").concat(mode);
            Err(msg)
        },
    }
}

/// Set the speed, clamped into 1..=10.
pub fn set_speed(params: &mut EffectParams, speed: u8)
    ensures
        *final(params) == (EffectParams {
            speed: if speed < 1 {
                1
            } else if speed > 10 {
                10
            } else {
                speed
            },
            ..*old(params)
        }),
{
    params.speed = if speed < 1 {
        1
    } else if speed > 10 {
        10
    } else {
        speed
    };
}

/// Set the audio sensitivity, clamped into 0..=100.
pub fn set_sensitivity(params: &mut EffectParams, sensitivity: u32)
    ensures
        *final(params) == (EffectParams {
            sensitivity: if sensitivity > 100 {
                100
            } else {
                sensitivity
            },
            ..*old(params)
        }),
{
    params.sensitivity = if sensitivity > 100 {
        100
    } else {
        sensitivity
    };
}

/// Set the battery guard threshold, clamped into 1..=100 percent.
pub fn set_battery_threshold(params: &mut EffectParams, threshold: u32)
    ensures
        *final(params) == (EffectParams {
            battery_threshold: if threshold < 1 {
                1
            } else if threshold > 100 {
                100
            } else {
                threshold
            },
            ..*old(params)
        }),
{
    params.battery_threshold = if threshold < 1 {
        1
    } else if threshold > 100 {
        100
    } else {
        threshold
    };
}

/// Set the static level, clamped into 0..=2.
pub fn set_static_level(params: &mut EffectParams, level: u8)
    ensures
        *final(params) == (EffectParams {
            static_level: if level > 2 {
                2
            } else {
                level
            },
            ..*old(params)
        }),
{
    params.static_level = if level > 2 {
        2
    } else {
        level
    };
}

/// Choose whether closing the window hides it to the tray.
pub fn set_tray_close(params: &mut EffectParams, enabled: bool)
    ensures
        *final(params) == (EffectParams { tray_close: enabled, ..*old(params) }),
{
    params.tray_close = enabled;
}

/// The status snapshot shown in the UI header.
pub struct StatusInfo {
    pub power: bool,
    pub mode: String,
    pub static_level: u8,
    pub interval_ms: u64,
    pub speed: u8,
    pub sensitivity: u32,
    pub driver_supported: bool,
    pub driver_path: String,
    pub driver_error: Option<String>,
    pub audio_error: Option<String>,
    pub battery: Option<BatteryState>,
    pub autostart: bool,
    pub tray_close: bool,
    pub os: String,
}

/// The view of an optional string.
pub open spec fn opt_view(s: Option<String>) -> Option<Seq<char>> {
    match s {
        Some(t) => Some(t@),
        None => None,
    }
}

/// A battery reading flagged low: discharging at or below the threshold.
pub open spec fn flag_low(b: BatteryState, threshold: u32) -> BatteryState {
    BatteryState { low: b.discharging && b.percent <= threshold, ..b }
}

/// Assemble the status from the tunables and what was read from the driver,
/// the battery, the autostart entry and the OS. The driver's last error also
/// shows as the audio error while the audio mode is selected; a battery
/// reading is flagged low when discharging at or below the guard threshold.
pub fn get_status(
    p: &EffectParams,
    driver_supported: bool,
    driver_path: String,
    driver_error: Option<String>,
    battery: Option<BatteryState>,
    autostart: bool,
    os: String,
) -> (s: StatusInfo)
    ensures
        s.power == p.power,
        s.mode@ == crate::effects::mode_name(p.mode),
        s.static_level == p.static_level,
        s.interval_ms == speed_interval(p.speed as int),
        s.speed == p.speed,
        s.sensitivity == p.sensitivity,
        s.driver_supported == driver_supported,
        s.driver_path == driver_path,
        opt_view(s.driver_error) == opt_view(driver_error),
        opt_view(s.audio_error) == if p.mode == EffectMode::Audio {
            opt_view(driver_error)
        } else {
            None
        },
        s.battery == match battery {
            Some(b) => Some(flag_low(b, p.battery_threshold)),
            None => None,
        },
        s.battery is Some <==> battery is Some,
        battery matches Some(b) ==> (s.battery matches Some(x) && x.percent == b.percent
            && x.discharging == b.discharging && (x.low <==> (b.discharging && b.percent
            <= p.battery_threshold))),
        s.autostart == autostart,
        s.tray_close == p.tray_close,
        s.os == os,
{
    let audio_error = if p.mode == EffectMode::Audio {
        match &driver_error {
            Some(e) => Some(e.clone()),
            None => None,
        }
    } else {
        None
    };
    let threshold = p.battery_threshold;
    let battery = match battery {
        Some(b) => Some(
            BatteryState {
                percent: b.percent,
                discharging: b.discharging,
                low: b.discharging && b.percent <= threshold,
            },
        ),
        None => None,
    };
    StatusInfo {
        power: p.power,
        mode: String::from_str(p.mode.name()),
        static_level: p.static_level,
        interval_ms: interval_from_speed(p.speed),
        speed: p.speed,
        sensitivity: p.sensitivity,
        driver_supported,
        driver_path,
        driver_error,
        audio_error,
        battery,
        autostart,
        tray_close: p.tray_close,
        os,
    }
}


/// The status flags a battery low exactly when it is discharging at or below
/// the guard threshold: a charging or full battery is never low, however
/// empty; the reading's charge and discharging state pass through.
pub proof fn lemma_low_only_while_discharging(b: BatteryState, threshold: u32)
    ensures
        flag_low(b, threshold).low <==> (b.discharging && b.percent <= threshold),
        flag_low(b, threshold).low ==> b.discharging,
        flag_low(b, threshold).percent == b.percent,
        flag_low(b, threshold).discharging == b.discharging,
{
}

} // verus!
