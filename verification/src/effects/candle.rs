//! Candle/ember flicker: mostly mid-level with weighted dips to the floor and
//! occasional brief flares up to the ceiling.

use vstd::prelude::*;

use super::{
    draw, interval_from_speed, level_range, mid_level, mid_of, range_hi, range_lo, single_tick,
    speed_interval, tick_of, tick_safe, xorshift, EffectParams, Rng, Tick,
};

verus! {

/// The candle generator, and how many ticks to hold the mid level after a dip.
pub struct CandleState {
    pub rng: Rng,
    pub settle: u32,
}

impl CandleState {
    pub fn new() -> (s: Self)
        ensures
            s.settle == 0,
    {
        CandleState { rng: Rng::new(), settle: 0 }
    }
}

/// One candle step from `(settle, generator state s)` over `[lo, hi]`: the
/// next settle count, the next generator state, and the level.
/// While settling, hold the midpoint. Otherwise draw below 100: 0..=5 dips to
/// the floor and settles for 1 to 3 ticks (a second draw below 3), 6..=14
/// flares to the ceiling, the rest hold the midpoint.
pub open spec fn candle_step(settle: u32, s: u64, lo: int, hi: int) -> (u32, u64, int) {
    if settle > 0 {
        ((settle - 1) as u32, s, mid_of(lo, hi))
    } else {
        let r = draw(s, 100);
        let s1 = xorshift(s);
        if r <= 5 {
            ((draw(s1, 3) + 1) as u32, xorshift(s1), lo)
        } else if r <= 14 {
            (0u32, s1, hi)
        } else {
            (0u32, s1, mid_of(lo, hi))
        }
    }
}

/// One candle step; the level goes through the auto-dim override.
pub fn run(state: &mut CandleState, params: &EffectParams) -> (t: Tick)
    ensures
        ({
            let (settle, s, level) = candle_step(
                old(state).settle,
                old(state).rng.state(),
                range_lo(*params),
                range_hi(*params),
            );
            &&& final(state).settle == settle
            &&& final(state).rng.state() == s
            &&& t == tick_of(Some(level as u8), true, speed_interval(params.speed as int))
        }),
        t.level matches Some(l) ==> range_lo(*params) <= l <= range_hi(*params),
        tick_safe(t),
{
    let (min, max) = level_range(params);
    let mid = mid_level(min, max);
    let level = if state.settle > 0 {
        state.settle = state.settle - 1;
        mid
    } else {
        let r = state.rng.below(100);
        if r <= 5 {
            let extra = state.rng.below(3);
            state.settle = extra as u32 + 1;
            min
        } else if r <= 14 {
            max
        } else {
            mid
        }
    };
    let interval = interval_from_speed(params.speed);
    single_tick(Some(level), true, interval)
}

} // verus!
