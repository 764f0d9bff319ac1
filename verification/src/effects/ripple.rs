//! Ripple effect: a sonar/radar-style "ping" — sharp flash up to the ceiling,
//! stepped decay down to the floor, then a long quiet dwell before the next
//! ping. A temporal stand-in for spatial ripples on single-zone hardware.

use vstd::prelude::*;

use super::{
    interval_from_speed, level_range, range_hi, range_lo, single_tick, speed_interval, tick_of,
    tick_safe, EffectParams, Tick,
};

verus! {

/// Ticks the flash holds its peak level.
pub const FLASH_T: i64 = 2;
/// Ticks per decay step.
pub const STEP_T: i64 = 2;
/// Ticks of quiet dwell at the floor.
pub const DWELL_T: i64 = 10;

/// Ticks since the effect started.
pub struct RippleState {
    pub tick: i64,
}

impl RippleState {
    pub fn new() -> (s: Self)
        ensures
            s.tick == 0,
    {
        RippleState { tick: 0 }
    }
}

/// The ripple level at tick count `tick` over `[lo, hi]`. A ping lasts
/// `FLASH_T + span * STEP_T + DWELL_T` ticks (span = hi - lo): the flash at
/// the ceiling, one level lower every `STEP_T` ticks (never below the floor),
/// then the dwell at the floor. With no span, the ceiling throughout.
pub open spec fn ripple_level(tick: int, lo: int, hi: int) -> int {
    let span = hi - lo;
    let period = FLASH_T + span * STEP_T + DWELL_T;
    let t = tick % period;
    if span == 0 {
        hi
    } else if t < FLASH_T {
        hi
    } else if t < FLASH_T + span * STEP_T {
        let down = (t - FLASH_T) / (STEP_T as int);
        if hi - (down + 1) >= lo {
            hi - (down + 1)
        } else {
            lo
        }
    } else {
        lo
    }
}

/// The length of one ping over `[lo, hi]`, in ticks.
pub open spec fn ripple_period(lo: int, hi: int) -> int {
    FLASH_T + (hi - lo) * STEP_T + DWELL_T
}

/// A ripple repeats: one ping period later the level is the same, so the
/// effect is an endless train of identical pings while the range holds.
pub proof fn lemma_ripple_periodic(tick: int, lo: int, hi: int)
    requires
        0 <= lo <= hi,
    ensures
        ripple_level(tick + ripple_period(lo, hi), lo, hi) == ripple_level(tick, lo, hi),
{
    vstd::arithmetic::div_mod::lemma_mod_add_multiples_vanish(tick, ripple_period(lo, hi));
    assert(ripple_period(lo, hi) + tick == tick + ripple_period(lo, hi));
}

/// One ripple step; the level goes through the auto-dim override.
pub fn run(state: &mut RippleState, params: &EffectParams) -> (t: Tick)
    requires
        0 <= old(state).tick < i64::MAX,
    ensures
        final(state).tick == old(state).tick + 1,
        t == tick_of(
            Some(ripple_level(old(state).tick as int, range_lo(*params), range_hi(*params)) as u8),
            true,
            speed_interval(params.speed as int),
        ),
        t.level matches Some(l) ==> range_lo(*params) <= l <= range_hi(*params),
        tick_safe(t),
{
    let (min, max) = level_range(params);
    let span: i64 = max as i64 - min as i64;
    let period: i64 = FLASH_T + span * STEP_T + DWELL_T;
    let t: i64 = state.tick % period;
    let level: u8 = if span == 0 {
        max
    } else if t < FLASH_T {
        max
    } else if t < FLASH_T + span * STEP_T {
        let down: i64 = (t - FLASH_T) / STEP_T;
        let v: i64 = max as i64 - (down + 1);
        if v >= min as i64 {
            v as u8
        } else {
            min
        }
    } else {
        min
    };
    state.tick = state.tick + 1;
    let interval = interval_from_speed(params.speed);
    single_tick(Some(level), true, interval)
}

} // verus!
