//! Radar effect: simulate a rotating radar sweep on a single-zone backlight.
//! A bright leading edge sweeps up, the level trails off as the arm rotates,
//! and a random mid-sweep "blip" marks a detected target. Continuous rotations
//! with no long dwell — distinct from Ripple's single ping + silence.

use vstd::prelude::*;

use super::{
    draw, interval_from_speed, level_range, range_hi, range_lo, single_tick, speed_interval,
    tick_of, tick_safe, xorshift, EffectParams, Rng, Tick,
};

verus! {

/// Ticks the bright leading edge holds.
pub const RISE_T: u32 = 2;
/// Ticks the trailing decay spans (slow fade of the sweep arm).
pub const FALL_T: u32 = 6;
/// Ticks the arm sits at the floor between rotations.
pub const GAP_T: u32 = 4;

/// The sweep generator, the position in the current rotation, and where the
/// rotation's blip lands on the trailing arm.
pub struct RadarState {
    pub rng: Rng,
    /// Position within the rotation: the tick count modulo the period.
    pub tick: u32,
    pub blip_at: u32,
}

impl RadarState {
    /// Rotation positions run below the period.
    pub open spec fn wf(self) -> bool {
        self.tick < RISE_T + FALL_T + GAP_T
    }

    pub fn new() -> (s: Self)
        ensures
            s.wf(),
            s.tick == 0,
            s.blip_at == 0,
    {
        RadarState { rng: Rng::new(), tick: 0, blip_at: 0 }
    }
}

/// The radar level at rotation position `t` with the blip at `blip_at`: the
/// ceiling on the leading edge, then a trail falling one level every two
/// ticks (never below the floor) with a flash at the ceiling on the blip,
/// then the floor. With no span, the ceiling throughout.
pub open spec fn radar_level(t: int, blip_at: int, lo: int, hi: int) -> int {
    if hi - lo == 0 {
        hi
    } else if t < RISE_T {
        hi
    } else if t < RISE_T + FALL_T {
        let down = t - RISE_T;
        let trail = if hi - down / 2 >= lo {
            hi - down / 2
        } else {
            lo
        };
        if t - RISE_T == blip_at {
            hi
        } else {
            trail
        }
    } else {
        lo
    }
}

/// One radar step. At the start of each rotation a draw below `FALL_T`
/// places the blip; the level goes through the auto-dim override.
pub fn run(state: &mut RadarState, params: &EffectParams) -> (t: Tick)
    requires
        old(state).wf(),
    ensures
        final(state).wf(),
        final(state).tick == (old(state).tick + 1) % (RISE_T + FALL_T + GAP_T) as int,
        old(state).tick == 0 ==> final(state).blip_at == draw(old(state).rng.state(), 6)
            && final(state).rng.state() == xorshift(old(state).rng.state()),
        old(state).tick != 0 ==> final(state).blip_at == old(state).blip_at
            && final(state).rng.state() == old(state).rng.state(),
        t == tick_of(
            Some(
                radar_level(
                    old(state).tick as int,
                    final(state).blip_at as int,
                    range_lo(*params),
                    range_hi(*params),
                ) as u8,
            ),
            true,
            speed_interval(params.speed as int),
        ),
        t.level matches Some(l) ==> range_lo(*params) <= l <= range_hi(*params),
        tick_safe(t),
{
    let (min, max) = level_range(params);
    let span: u8 = max - min;
    let t: u32 = state.tick;
    if t == 0 {
        let b = state.rng.below(FALL_T as u64);
        state.blip_at = b as u32;
    }
    let level: u8 = if span == 0 {
        max
    } else if t < RISE_T {
        max
    } else if t < RISE_T + FALL_T {
        let down: u32 = t - RISE_T;
        let trail: u8 = if max as u32 >= min as u32 + down / 2 {
            max - (down / 2) as u8
        } else {
            min
        };
        if t - RISE_T == state.blip_at {
            max
        } else {
            trail
        }
    } else {
        min
    };
    state.tick = (t + 1) % (RISE_T + FALL_T + GAP_T);
    let interval = interval_from_speed(params.speed);
    single_tick(Some(level), true, interval)
}

} // verus!
