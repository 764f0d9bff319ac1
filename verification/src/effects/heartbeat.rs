//! Heartbeat effect: a "lub-dub" double thump over a fixed pattern frame.

use vstd::prelude::*;

use super::{
    interval_from_speed, level_range, mid_level, mid_of, range_hi, range_lo, single_tick,
    speed_interval, tick_of, tick_safe, EffectParams, Tick,
};

verus! {

/// Per-step level indices over one full frame (10 steps): 0 = rest (floor),
/// 3 = THUMP (ceiling), 2 = echo (midpoint).
/// Order: [rest, rest, rest, THUMP, echo, THUMP, echo, rest, rest, rest]
pub open spec fn frame() -> Seq<u8> {
    seq![0u8, 0, 0, 3, 2, 3, 2, 0, 0, 0]
}

/// The level a frame index selects: rest (0) is the floor, THUMP (3) the
/// ceiling, and the echo (any other index) the midpoint.
pub open spec fn frame_level(index: u8, lo: int, hi: int) -> int {
    if index == 0 {
        lo
    } else if index == 3 {
        hi
    } else {
        mid_of(lo, hi)
    }
}

/// Position in the 10-step frame.
pub struct HeartbeatState {
    pub step: u32,
}

impl HeartbeatState {
    pub fn new() -> (s: Self)
        ensures
            s.step == 0,
    {
        HeartbeatState { step: 0 }
    }
}

/// One heartbeat step: the frame entry at the current position picks the
/// level, then the position advances around the frame.
pub fn run(state: &mut HeartbeatState, params: &EffectParams) -> (t: Tick)
    requires
        old(state).step < 10,
    ensures
        final(state).step == (old(state).step + 1) % 10,
        t == tick_of(
            Some(
                frame_level(
                    frame()[old(state).step as int],
                    range_lo(*params),
                    range_hi(*params),
                ) as u8,
            ),
            true,
            speed_interval(params.speed as int),
        ),
        t.level matches Some(l) ==> range_lo(*params) <= l <= range_hi(*params),
        tick_safe(t),
{
    let (min, max) = level_range(params);
    let mid = mid_level(min, max);
    let pattern: [u8; 10] = [0, 0, 0, 3, 2, 3, 2, 0, 0, 0];
    assert(pattern@ =~= frame());
    let index = pattern[state.step as usize];
    let level = if index == 0 {
        min
    } else if index == 3 {
        max
    } else {
        mid
    };
    state.step = (state.step + 1) % 10;
    let interval = interval_from_speed(params.speed);
    single_tick(Some(level), true, interval)
}

} // verus!
