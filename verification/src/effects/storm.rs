//! Storm effect: long quiet stretches broken by sudden, clustered lightning
//! bursts — a couple of rapid max-level hops with occasional pre-strike
//! flickers. Distinct from candle flicker (no mid-level settle bias).

use vstd::prelude::*;

use super::{
    draw, interval_from_speed, level_range, range_hi, range_lo, single_tick, speed_interval,
    tick_of, tick_safe, xorshift, EffectParams, Rng, Tick,
};

verus! {

/// The storm generator and where the storm is in its cycle.
pub struct StormState {
    pub rng: Rng,
    pub quiet_left: u32,
    pub flashes_left: u32,
}

impl StormState {
    pub fn new() -> (s: Self)
        ensures
            s.quiet_left == 0,
            s.flashes_left == 0,
    {
        StormState { rng: Rng::new(), quiet_left: 0, flashes_left: 0 }
    }
}

/// One storm step from `(flashes_left, quiet_left, generator state s)` over
/// `[lo, hi]`: the next counts, the next generator state, and the level.
/// A pending flash is at the ceiling. In the lull, a draw below 100 under 6
/// is a pre-strike flicker at the ceiling, anything else the floor. When both
/// run out a strike arrives: the ceiling, then 1 to 3 more flashes (a draw
/// below 3) and a lull of 5 to 49 ticks (a draw below 45).
pub open spec fn storm_step(flashes: u32, quiet: u32, s: u64, lo: int, hi: int) -> (
    u32,
    u32,
    u64,
    int,
) {
    if flashes > 0 {
        ((flashes - 1) as u32, quiet, s, hi)
    } else if quiet > 0 {
        (0u32, (quiet - 1) as u32, xorshift(s), if draw(s, 100) < 6 {
            hi
        } else {
            lo
        })
    } else {
        let s1 = xorshift(s);
        ((draw(s, 3) + 1) as u32, (draw(s1, 45) + 5) as u32, xorshift(s1), hi)
    }
}

/// One storm step; the level goes through the auto-dim override.
pub fn run(state: &mut StormState, params: &EffectParams) -> (t: Tick)
    ensures
        ({
            let (flashes, quiet, s, level) = storm_step(
                old(state).flashes_left,
                old(state).quiet_left,
                old(state).rng.state(),
                range_lo(*params),
                range_hi(*params),
            );
            &&& final(state).flashes_left == flashes
            &&& final(state).quiet_left == quiet
            &&& final(state).rng.state() == s
            &&& t == tick_of(Some(level as u8), true, speed_interval(params.speed as int))
        }),
        t.level matches Some(l) ==> range_lo(*params) <= l <= range_hi(*params),
        tick_safe(t),
{
    let (min, max) = level_range(params);
    let level = if state.flashes_left > 0 {
        state.flashes_left = state.flashes_left - 1;
        max
    } else if state.quiet_left > 0 {
        state.quiet_left = state.quiet_left - 1;
        if state.rng.below(100) < 6 {
            max
        } else {
            min
        }
    } else {
        let f = state.rng.below(3);
        state.flashes_left = f as u32 + 1;
        let q = state.rng.below(45);
        state.quiet_left = q as u32 + 5;
        max
    };
    let interval = interval_from_speed(params.speed);
    single_tick(Some(level), true, interval)
}

} // verus!
