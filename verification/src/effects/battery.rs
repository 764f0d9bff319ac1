//! Battery Guard effect: polls the battery and (a) flashes SOS at or below the
//! critical threshold while discharging, (b) pulses on charging-complete, and
//! (c) otherwise holds a dim guide level (dimmed further by auto-dim).
//! Polling stays slow (every ~1.5 s) so it never contributes bus traffic.

use vstd::prelude::*;

use super::{capped, single_tick, tick_of, tick_safe, EffectParams, Tick};
use crate::text::{chars_of, parse_u32, parsed_u32, starts_with, str_is, trim_chars, trimmed};

verus! {

/// How often the battery is read.
pub const POLL_MS: u64 = 1500;
/// Length of one SOS pattern step.
pub const PATTERN_MS: u64 = 200;
/// Length of one charged-pattern step.
pub const CHARGED_MS: u64 = 250;

/// SOS: S S S O O O S S S then pause. S = 2 on + 2 off ticks, O = 3 on + 1 off.
pub open spec fn sos_levels() -> Seq<u8> {
    seq![
        2u8, 2, 0, 0, 2, 2, 0, 0, 2, 2, 0, 0,
        2, 2, 2, 0, 2, 2, 2, 0, 2, 2, 2, 0,
        2, 2, 0, 0, 2, 2, 0, 0, 2, 2, 0, 0,
        0, 0, 0, 0,
    ]
}

/// Charging-complete: three quick blinks, a settle, then hold steady.
pub open spec fn charged_levels() -> Seq<u8> {
    seq![2u8, 0, 2, 0, 2, 0, 2, 2, 2, 0, 0, 0, 0]
}

/// The SOS pattern, one level per 200 ms step.
pub fn sos_pattern() -> (v: Vec<u8>)
    ensures
        v@ == sos_levels(),
{
    let mut v: Vec<u8> = Vec::new();
    let mut k: usize = 0;
    while k < 3
        invariant
            k <= 3,
            v@.len() == 4 * k,
            forall|j: int| 0 <= j < v@.len() ==> #[trigger] v@[j] == sos_levels()[j],
        decreases 3 - k,
    {
        v.push(2);
        v.push(2);
        v.push(0);
        v.push(0);
        k = k + 1;
    }
    k = 0;
    while k < 3
        invariant
            k <= 3,
            v@.len() == 12 + 4 * k,
            forall|j: int| 0 <= j < v@.len() ==> #[trigger] v@[j] == sos_levels()[j],
        decreases 3 - k,
    {
        v.push(2);
        v.push(2);
        v.push(2);
        v.push(0);
        k = k + 1;
    }
    k = 0;
    while k < 3
        invariant
            k <= 3,
            v@.len() == 24 + 4 * k,
            forall|j: int| 0 <= j < v@.len() ==> #[trigger] v@[j] == sos_levels()[j],
        decreases 3 - k,
    {
        v.push(2);
        v.push(2);
        v.push(0);
        v.push(0);
        k = k + 1;
    }
    v.push(0);
    v.push(0);
    v.push(0);
    v.push(0);
    assert(v@ =~= sos_levels());
    v
}

/// The charging-complete pattern, one level per 250 ms step.
pub fn charged_pattern() -> (v: Vec<u8>)
    ensures
        v@ == charged_levels(),
{
    let v = vec![2, 0, 2, 0, 2, 0, 2, 2, 2, 0, 0, 0, 0];
    assert(v@ =~= charged_levels());
    v
}

/// A battery snapshot.
#[derive(Clone, Copy, Debug, PartialEq, Eq, Structural)]
pub struct BatteryState {
    pub percent: u32,
    pub discharging: bool,
    pub low: bool,
}

impl Default for BatteryState {
    fn default() -> (b: Self)
        ensures
            b.percent == 0,
            !b.discharging,
            !b.low,
    {
        BatteryState { percent: 0, discharging: false, low: false }
    }
}

/// What the guard shows.
#[derive(Clone, Copy, Debug, PartialEq, Eq, Structural)]
pub enum BatteryMode {
    /// Hold the dim guide level.
    Guard,
    /// Flash SOS: discharging at or below the critical level.
    Sos,
    /// Pulse: charging complete.
    Charged,
}

/// The mode a battery reading selects: SOS while discharging at or below the
/// critical threshold, the charged pulse when not discharging at 100 % or
/// more, the guard otherwise (and when nothing could be read). The guard
/// threshold only flags the battery as low in the status.
pub open spec fn mode_for(reading: Option<BatteryState>, threshold: u32, critical: u8) -> BatteryMode {
    match reading {
        Some(b) => if b.discharging && b.percent <= critical as u32 {
            BatteryMode::Sos
        } else if !b.discharging && b.percent >= 100 {
            BatteryMode::Charged
        } else {
            BatteryMode::Guard
        },
        None => BatteryMode::Guard,
    }
}

/// Pick the guard's mode from a reading and the two thresholds.
pub fn classify(reading: Option<BatteryState>, threshold: u32, critical: u8) -> (m: BatteryMode)
    ensures
        m == mode_for(reading, threshold, critical),
{
    let limit = critical as u32;
    match reading {
        Some(b) => {
            if b.discharging && b.percent <= limit {
                BatteryMode::Sos
            } else if !b.discharging && b.percent >= 100 {
                BatteryMode::Charged
            } else {
                BatteryMode::Guard
            }
        },
        None => BatteryMode::Guard,
    }
}

/// Milliseconds from `then` to `now` on a monotonic clock, 0 if `now` is
/// earlier.
pub open spec fn elapsed_ms(now: u64, then: u64) -> int {
    if now >= then {
        now - then
    } else {
        0
    }
}

/// The guard's state: its mode, the shared pattern counter, and when the
/// battery was last read and the pattern last stepped (monotonic ms).
pub struct BatteryEffect {
    pub sos: Vec<u8>,
    pub charged: Vec<u8>,
    pub mode: BatteryMode,
    pub pattern_step: usize,
    pub last_poll_ms: u64,
    pub pattern_tick_ms: u64,
}

impl BatteryEffect {
    /// The two patterns are the SOS and charged patterns.
    pub open spec fn wf(self) -> bool {
        &&& self.sos@ == sos_levels()
        &&& self.charged@ == charged_levels()
    }

    /// Start in the guard mode, with both clocks at `now_ms`.
    pub fn new(now_ms: u64) -> (s: Self)
        ensures
            s.wf(),
            s.mode == BatteryMode::Guard,
            s.pattern_step == 0,
            s.last_poll_ms == now_ms,
            s.pattern_tick_ms == now_ms,
    {
        BatteryEffect {
            sos: sos_pattern(),
            charged: charged_pattern(),
            mode: BatteryMode::Guard,
            pattern_step: 0,
            last_poll_ms: now_ms,
            pattern_tick_ms: now_ms,
        }
    }

    /// Whether the battery is due for another reading (1.5 s since the last).
    pub fn poll_due(&self, now_ms: u64) -> (r: bool)
        ensures
            r == (elapsed_ms(now_ms, self.last_poll_ms) >= POLL_MS),
    {
        now_ms >= self.last_poll_ms && now_ms - self.last_poll_ms >= POLL_MS
    }

    /// Take a battery reading made at `now_ms`: it picks the mode.
    pub fn observe(&mut self, reading: Option<BatteryState>, params: &EffectParams, now_ms: u64)
        ensures
            final(self).mode == mode_for(
                reading,
                params.battery_threshold,
                params.critical_threshold,
            ),
            final(self).last_poll_ms == now_ms,
            final(self).sos == old(self).sos,
            final(self).charged == old(self).charged,
            final(self).pattern_step == old(self).pattern_step,
            final(self).pattern_tick_ms == old(self).pattern_tick_ms,
    {
        self.mode = classify(reading, params.battery_threshold, params.critical_threshold);
        self.last_poll_ms = now_ms;
    }
}

/// One guard step at `now_ms`. In SOS (charged) mode, once 200 ms (250 ms)
/// have passed since the last pattern step, write the pattern's next level
/// and restart the step clock; then wait 100 ms. In guard mode, write the dim
/// guide level 1 and wait 1.5 s. Writes go through the auto-dim override.
pub fn run(state: &mut BatteryEffect, now_ms: u64) -> (t: Tick)
    requires
        old(state).wf(),
        old(state).pattern_step < usize::MAX,
    ensures
        final(state).wf(),
        final(state).mode == old(state).mode,
        final(state).last_poll_ms == old(state).last_poll_ms,
        ({
            let step = old(state).pattern_step;
            match old(state).mode {
                BatteryMode::Guard => {
                    &&& t == tick_of(Some(1u8), true, POLL_MS as int)
                    &&& final(state).pattern_step == step
                    &&& final(state).pattern_tick_ms == old(state).pattern_tick_ms
                },
                BatteryMode::Sos => if elapsed_ms(now_ms, old(state).pattern_tick_ms) >= PATTERN_MS {
                    &&& t == tick_of(Some(sos_levels()[(step % 40) as int]), true, 60)
                    &&& final(state).pattern_step == step + 1
                    &&& final(state).pattern_tick_ms == now_ms
                } else {
                    &&& t == tick_of(None, true, 60)
                    &&& final(state).pattern_step == step
                    &&& final(state).pattern_tick_ms == old(state).pattern_tick_ms
                },
                BatteryMode::Charged => if elapsed_ms(now_ms, old(state).pattern_tick_ms)
                    >= CHARGED_MS {
                    &&& t == tick_of(Some(charged_levels()[(step % 13) as int]), true, 60)
                    &&& final(state).pattern_step == step + 1
                    &&& final(state).pattern_tick_ms == now_ms
                } else {
                    &&& t == tick_of(None, true, 60)
                    &&& final(state).pattern_step == step
                    &&& final(state).pattern_tick_ms == old(state).pattern_tick_ms
                },
            }
        }),
        tick_safe(t),
{
    let elapsed: u64 = if now_ms >= state.pattern_tick_ms {
        now_ms - state.pattern_tick_ms
    } else {
        0
    };
    match state.mode {
        BatteryMode::Sos => {
            let mut level: Option<u8> = None;
            if elapsed >= PATTERN_MS {
                let l = state.sos[state.pattern_step % state.sos.len()];
                state.pattern_step = state.pattern_step + 1;
                state.pattern_tick_ms = now_ms;
                level = Some(l);
            }
            single_tick(level, true, 60)
        },
        BatteryMode::Charged => {
            let mut level: Option<u8> = None;
            if elapsed >= CHARGED_MS {
                let l = state.charged[state.pattern_step % state.charged.len()];
                state.pattern_step = state.pattern_step + 1;
                state.pattern_tick_ms = now_ms;
                level = Some(l);
            }
            single_tick(level, true, 60)
        },
        BatteryMode::Guard => single_tick(Some(1), true, POLL_MS),
    }
}

/// One entry of the power-supply class directory, as read: its name and the
/// contents of its `capacity` and `status` files (`None` when unreadable).
pub struct PowerSupply {
    pub name: String,
    pub capacity: Option<String>,
    pub status: Option<String>,
}

/// Whether a supply's name starts with "BAT".
pub open spec fn is_battery_name(name: Seq<char>) -> bool {
    name.len() >= 3 && name.subrange(0, 3) == "BAT"@
}

/// The battery state one battery entry yields: none when its capacity is
/// unreadable or not a number; otherwise the capacity (at most 100) and
/// whether its trimmed status reads "Discharging".
pub open spec fn battery_from(s: PowerSupply) -> Option<BatteryState> {
    match s.capacity {
        None => None,
        Some(cap) => match parsed_u32(trimmed(cap@)) {
            None => None,
            Some(v) => Some(
                BatteryState {
                    percent: if v < 100 {
                        v
                    } else {
                        100
                    },
                    discharging: match s.status {
                        Some(st) => trimmed(st@) == "Discharging"@,
                        None => false,
                    },
                    low: false,
                },
            ),
        },
    }
}

/// The battery state of a power-supply listing: taken from the first entry
/// whose name starts with "BAT"; none when there is no such entry.
pub open spec fn battery_of(supplies: Seq<PowerSupply>, from: int) -> Option<BatteryState>
    decreases supplies.len() - from,
{
    if from < 0 || from >= supplies.len() {
        None
    } else if is_battery_name(supplies[from].name@) {
        battery_from(supplies[from])
    } else {
        battery_of(supplies, from + 1)
    }
}

/// Read battery percentage + discharging state from a power-supply listing.
pub fn read_battery(supplies: &Vec<PowerSupply>) -> (r: Option<BatteryState>)
    ensures
        r == battery_of(supplies@, 0),
{
    let bat = chars_of("BAT");
    proof {
        reveal_strlit("BAT");
    }
    let mut i: usize = 0;
    while i < supplies.len()
        invariant
            i <= supplies@.len(),
            bat@ == "BAT"@,
            "BAT"@.len() == 3,
            battery_of(supplies@, 0) == battery_of(supplies@, i as int),
        decreases supplies@.len() - i,
    {
        let name = chars_of(supplies[i].name.as_str());
        if starts_with(&name, &bat) {
            let entry = &supplies[i];
            let cap = match &entry.capacity {
                Some(c) => c,
                None => {
                    return None;
                },
            };
            let cap_chars = trim_chars(&chars_of(cap.as_str()));
            let v = match parse_u32(&cap_chars) {
                Some(v) => v,
                None => {
                    return None;
                },
            };
            let discharging = match &entry.status {
                Some(st) => {
                    let t = trim_chars(&chars_of(st.as_str()));
                    let want = chars_of("Discharging");
                    crate::text::chars_eq(&t, &want)
                },
                None => false,
            };
            let percent = if v < 100 {
                v
            } else {
                100
            };
            return Some(BatteryState { percent, discharging, low: false });
        }
        i = i + 1;
    }
    None
}

/// The battery state a WMI `Win32_Battery` record gives: the estimated
/// charge (0 when absent) capped at 100, discharging when the status is 1.
pub fn battery_from_wmi(charge: Option<u32>, status: Option<i32>) -> (b: BatteryState)
    ensures
        b.percent == match charge {
            Some(c) => if c < 100 {
                c
            } else {
                100
            },
            None => 0,
        },
        b.discharging == (status == Some(1i32)),
        !b.low,
{
    let c = match charge {
        Some(c) => c,
        None => 0,
    };
    let percent = if c < 100 {
        c
    } else {
        100
    };
    let discharging = match status {
        Some(s) => s == 1,
        None => false,
    };
    BatteryState { percent, discharging, low: false }
}


/// A battery entry reads as discharging exactly when its status, trimmed,
/// is "Discharging" (so "Charging", "Full" or "Not charging" never do), and
/// a listing's reading comes from one of its "BAT" entries.
pub proof fn lemma_discharging_reads_the_status(supplies: Seq<PowerSupply>, from: int)
    ensures
        forall|i: int|
            0 <= i < supplies.len() ==> ((#[trigger] battery_from(supplies[i])) matches Some(b)
                ==> (b.discharging <==> (supplies[i].status matches Some(st) && trimmed(st@)
                == "Discharging"@))),
        battery_of(supplies, from) matches Some(b) ==> (exists|i: int|
            from <= i < supplies.len() && is_battery_name(supplies[i].name@) && #[trigger] battery_from(
                supplies[i],
            ) == Some(b)),
    decreases supplies.len() - from,
{
    if 0 <= from < supplies.len() && !is_battery_name(supplies[from].name@) {
        lemma_discharging_reads_the_status(supplies, from + 1);
    }
    if 0 <= from < supplies.len() && is_battery_name(supplies[from].name@) {
        assert(battery_of(supplies, from) == battery_from(supplies[from]));
    }
}

} // verus!
