//! Blink effect: rhythmic square toggle between the floor and the ceiling.
//! Waveform 0 = square on/off; waveform 1 = decaying staircase (max..min),
//! restarting at max after it reaches min.

use vstd::prelude::*;

use super::{
    interval_from_speed, level_range, range_hi, range_lo, single_tick, speed_interval, tick_of,
    tick_safe, EffectParams, Tick,
};

verus! {

/// Blink phase: whether the bright half is up, and the current decay step.
pub struct BlinkState {
    pub on: bool,
    pub decay: u8,
}

impl BlinkState {
    /// The decay step is always a register state.
    pub open spec fn wf(self) -> bool {
        self.decay <= 2
    }

    pub fn new() -> (s: Self)
        ensures
            s.wf(),
            s.on,
            s.decay == 0,
    {
        BlinkState { on: true, decay: 0 }
    }
}

/// The next step of a decaying staircase over `[lo, hi]`: the ceiling at the
/// start of a ramp (`on`), otherwise one level below the previous step (kept
/// inside the range).
pub open spec fn decay_next(on: bool, decay: u8, lo: int, hi: int) -> int {
    if on {
        hi
    } else {
        let down = if decay >= 1 {
            decay - 1
        } else {
            0
        };
        if down < lo {
            lo
        } else if down > hi {
            hi
        } else {
            down
        }
    }
}

/// One blink step from phase `(on, decay)` over the range `[lo, hi]` with
/// the given waveform: the next phase and the level written. The square wave
/// alternates ceiling and floor. The decay wave steps from the ceiling down
/// one level per tick to the floor, and starts a new ramp at the ceiling on
/// the tick after it reaches the floor.
pub open spec fn blink_step(on: bool, decay: u8, lo: int, hi: int, waveform: u8) -> (bool, u8, int) {
    if waveform == 1 {
        let d = decay_next(on, decay, lo, hi);
        (d <= lo, d as u8, d)
    } else {
        (!on, decay, if on {
            hi
        } else {
            lo
        })
    }
}

/// One blink step; the level goes through the auto-dim override.
pub fn run(state: &mut BlinkState, params: &EffectParams) -> (t: Tick)
    requires
        old(state).wf(),
    ensures
        final(state).wf(),
        ({
            let (on, decay, level) = blink_step(
                old(state).on,
                old(state).decay,
                range_lo(*params),
                range_hi(*params),
                params.waveform,
            );
            &&& final(state).on == on
            &&& final(state).decay == decay
            &&& t == tick_of(Some(level as u8), true, speed_interval(params.speed as int))
        }),
        t.level matches Some(l) && range_lo(*params) <= l <= range_hi(*params),
        tick_safe(t),
{
    let (min, max) = level_range(params);
    let waveform = params.waveform;
    let level: u8;
    if waveform == 1 {
        let d: u8 = if state.on {
            max
        } else {
            let down: u8 = if state.decay >= 1 {
                state.decay - 1
            } else {
                0
            };
            if down < min {
                min
            } else if down > max {
                max
            } else {
                down
            }
        };
        state.decay = d;
        state.on = d <= min;
        level = d;
    } else {
        level = if state.on {
            max
        } else {
            min
        };
        state.on = !state.on;
    }
    let interval = interval_from_speed(params.speed);
    single_tick(Some(level), true, interval)
}

} // verus!
