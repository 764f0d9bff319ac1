//! Schedule effect: brightness follows the time of day. The "day" window runs
//! from `day_start` to `night_start` around the 24 h clock (wrapping at midnight);
//! the two boundary hours render at the mid level, the night floor otherwise.

use vstd::prelude::*;

use super::{
    level_range, mid_level, mid_of, range_hi, range_lo, single_tick, tick_of, tick_safe,
    EffectParams, Tick,
};

verus! {

/// How often the clock is checked.
pub const CHECK_MS: u64 = 15_000;

/// Whether `hour` lies in the bright window from `day` to `night` (both taken
/// modulo 24): the start hour always, every hour when the two coincide, and
/// otherwise the hours from `day` up to but not including `night`, wrapping
/// at midnight.
pub open spec fn is_bright(hour: int, day: int, night: int) -> bool {
    hour == day || day == night || if day < night {
        day <= hour < night
    } else {
        hour >= day || hour < night
    }
}

/// The scheduled level at `hour`: the two boundary hours (day start and
/// night start) at the midpoint, the rest of the bright window at the
/// ceiling, and the night at the floor.
pub open spec fn schedule_level(hour: int, day_start: u8, night_start: u8, lo: int, hi: int) -> int {
    let day = day_start as int % 24;
    let night = night_start as int % 24;
    if hour == day || hour == night {
        mid_of(lo, hi)
    } else if is_bright(hour, day, night) {
        hi
    } else {
        lo
    }
}

/// The hour the schedule last rendered.
pub struct ScheduleState {
    pub last: Option<u8>,
}

impl ScheduleState {
    pub fn new() -> (s: Self)
        ensures
            s.last is None,
    {
        ScheduleState { last: None }
    }
}

/// The tick the schedule gives at `hour` after last rendering `last`: a write
/// of the scheduled level (through auto-dim) when the hour changed, nothing
/// otherwise; then a 15 s wait.
pub open spec fn schedule_tick(last: Option<u8>, hour: u8, params: EffectParams) -> Tick {
    tick_of(
        if last == Some(hour) {
            None
        } else {
            Some(
                schedule_level(
                    hour as int,
                    params.day_start_hour,
                    params.night_start_hour,
                    range_lo(params),
                    range_hi(params),
                ) as u8,
            )
        },
        true,
        CHECK_MS as int,
    )
}

/// One schedule step at the current local hour (as read from the clock):
/// the level is written when the hour differs from the one last rendered.
pub fn run(state: &mut ScheduleState, params: &EffectParams, hour: u8) -> (t: Tick)
    ensures
        final(state).last == Some(hour),
        t == schedule_tick(old(state).last, hour, *params),
        t.level matches Some(l) ==> range_lo(*params) <= l <= range_hi(*params),
        tick_safe(t),
{
    let mut level: Option<u8> = None;
    if state.last != Some(hour) {
        state.last = Some(hour);
        let (min, max) = level_range(params);
        let mid = mid_level(min, max);
        let day = params.day_start_hour % 24;
        let night = params.night_start_hour % 24;
        let bright = hour == day || day == night || if day < night {
            hour >= day && hour < night
        } else {
            hour >= day || hour < night
        };
        let l = if hour == day || hour == night {
            mid
        } else if bright {
            max
        } else {
            min
        };
        level = Some(l);
    }
    single_tick(level, true, CHECK_MS)
}

} // verus!
