//! Idle effect: fades the backlight to its floor when the session has been
//! idle for `idle_grace_s` and wakes it back to the ceiling on activity.
//! When no idle time can be had the effect safely no-ops (stays as it is)
//! and reports that once.

use vstd::prelude::*;
use vstd::string::StringExecFns;

use super::{level_range, range_hi, range_lo, single_tick, tick_of, tick_safe, EffectParams, Tick};

verus! {

/// How often the session idle time is read.
pub const POLL_MS: u64 = 1_000;

/// Whether the missing idle source has been reported yet.
pub struct IdleState {
    pub reported: bool,
}

impl IdleState {
    pub fn new() -> (s: Self)
        ensures
            !s.reported,
    {
        IdleState { reported: false }
    }
}

/// The grace period in seconds: the setting, but never under 15 s.
pub open spec fn grace_secs(setting: u16) -> int {
    if setting < 15 {
        15
    } else {
        setting as int
    }
}

/// The report made when the idle time cannot be read.
pub open spec fn unavailable_notice() -> Seq<char> {
    "idle detection unavailable (no session DBus); staying on"@
}

/// One idle step with the session's idle time (`None` when unavailable).
/// With an idle time: the floor once it reaches the grace period, else the
/// ceiling, through auto-dim. Without one: no write, and a notice the first
/// time in a row. Then a 1 s wait.
pub fn run(state: &mut IdleState, params: &EffectParams, idle_secs: Option<u64>) -> (r: (Tick, Option<String>))
    ensures
        match idle_secs {
            Some(idle) => {
                &&& !final(state).reported
                &&& r.1 is None
                &&& r.0 == tick_of(
                    Some(
                        if idle >= grace_secs(params.idle_grace_s) {
                            range_lo(*params)
                        } else {
                            range_hi(*params)
                        } as u8,
                    ),
                    true,
                    POLL_MS as int,
                )
            },
            None => {
                &&& final(state).reported
                &&& r.0 == tick_of(None, true, POLL_MS as int)
                &&& (old(state).reported ==> r.1 is None)
                &&& (!old(state).reported ==> (r.1 matches Some(m) && m@ == unavailable_notice()))
            },
        },
        tick_safe(r.0),
{
    match idle_secs {
        Some(idle) => {
            state.reported = false;
            let grace: u64 = if params.idle_grace_s < 15 {
                15
            } else {
                params.idle_grace_s as u64
            };
            let (min, max) = level_range(params);
            let level = if idle >= grace {
                min
            } else {
                max
            };
            (single_tick(Some(level), true, POLL_MS), None)
        },
        None => {
            let notice = if !state.reported {
                state.reported = true;
                Some(String::from_str("idle detection unavailable (no session DBus); staying on"))
            } else {
                None
            };
            (single_tick(None, true, POLL_MS), notice)
        },
    }
}

} // verus!
