//! Disco/random bursts: weighted random jumps across the reachable levels.

use vstd::prelude::*;

use super::{
    draw, interval_from_speed, level_range, mid_level, mid_of, range_hi, range_lo,
    single_tick, speed_interval, tick_of, tick_safe, xorshift, EffectParams, Rng, Tick,
};

verus! {

/// The disco generator.
pub struct DiscoState {
    pub rng: Rng,
}

impl DiscoState {
    /// A generator seeded from the monotonic clock; the seed is odd.
    pub fn new() -> (s: Self)
        ensures
            s.rng.state() & 1 == 1,
    {
        DiscoState { rng: Rng::new() }
    }
}

/// The level a draw `r` in `[0, 100)` picks: 0..=45 the ceiling, 46..=70 the
/// floor, the rest the midpoint (a heavy bias toward the extremes).
pub open spec fn disco_level(r: int, lo: int, hi: int) -> int {
    if r <= 45 {
        hi
    } else if r <= 70 {
        lo
    } else {
        mid_of(lo, hi)
    }
}

/// One disco step: one draw below 100 picks the level.
pub fn run(state: &mut DiscoState, params: &EffectParams) -> (t: Tick)
    ensures
        final(state).rng.state() == xorshift(old(state).rng.state()),
        t == tick_of(
            Some(
                disco_level(
                    draw(old(state).rng.state(), 100),
                    range_lo(*params),
                    range_hi(*params),
                ) as u8,
            ),
            true,
            speed_interval(params.speed as int),
        ),
        t.level matches Some(l) ==> range_lo(*params) <= l <= range_hi(*params),
        tick_safe(t),
{
    let (min, max) = level_range(params);
    let mid = mid_level(min, max);
    let r = state.rng.below(100);
    let level = if r <= 45 {
        max
    } else if r <= 70 {
        min
    } else {
        mid
    };
    let interval = interval_from_speed(params.speed);
    single_tick(Some(level), true, interval)
}

} // verus!
