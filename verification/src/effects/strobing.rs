//! Strobing effect: high/low flash toggle, still bounded by the 10 Hz cap.

use vstd::prelude::*;

use super::{
    interval_from_speed, level_range, range_hi, single_tick, speed_interval, tick_of,
    tick_safe, EffectParams, Tick,
};

verus! {

/// Whether the next strobe flash is the bright half.
pub struct StrobeState {
    pub on: bool,
}

impl StrobeState {
    /// A strobe starts on the bright half.
    pub fn new() -> (s: Self)
        ensures
            s.on,
    {
        StrobeState { on: true }
    }
}

/// One strobe step: write the flash ceiling (the top of the level range) on
/// the bright half and off on the dark half, through the auto-dim override,
/// then flip halves.
pub fn run(state: &mut StrobeState, params: &EffectParams) -> (t: Tick)
    ensures
        final(state).on == !old(state).on,
        t == tick_of(
            Some(
                if old(state).on {
                    range_hi(*params)
                } else {
                    0
                } as u8,
            ),
            true,
            speed_interval(params.speed as int),
        ),
        tick_safe(t),
{
    let interval = interval_from_speed(params.speed);
    let (_min, max) = level_range(params);
    let level: u8 = if state.on {
        max
    } else {
        0
    };
    state.on = !state.on;
    single_tick(Some(level), true, interval)
}

} // verus!
