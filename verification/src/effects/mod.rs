//! Effect engine: the effect modes, their tunables, and the shared pieces
//! every effect loop uses.

pub mod battery;
pub mod blink;
pub mod candle;
pub mod disco;
pub mod morse;
pub mod heartbeat;
pub mod idle;
pub mod radar;
pub mod ripple;
pub mod schedule;
pub mod storm;
pub mod strobing;

use vstd::prelude::*;

use vstd::string::StringExecFns;

use crate::clock::{duration_nanos, elapsed, instant_now};
use crate::driver::{quantize_level, quantized, register_log, BacklightDriver, MAX_INTERVAL_MS};
use crate::text::str_is;

use self::battery::BatteryEffect;
use self::disco::DiscoState;
use self::idle::IdleState;
use self::morse::MorseState;
use self::radar::RadarState;
use self::ripple::RippleState;
use self::schedule::ScheduleState;
use self::storm::StormState;
use self::strobing::StrobeState;

verus! {

/// The effect modes, each with a stable lower-case name.
#[derive(Clone, Copy, PartialEq, Eq, Debug, Structural)]
pub enum EffectMode {
    Static,
    Breathing,
    Strobing,
    Audio,
    Battery,
    Storm,
    Ripple,
    Radar,
    Morse,
    Disco,
    Schedule,
    Idle,
    Off,
}

/// The name of each mode.
pub open spec fn mode_name(m: EffectMode) -> Seq<char> {
    match m {
        EffectMode::Static => "static"@,
        EffectMode::Breathing => "breathing"@,
        EffectMode::Strobing => "strobing"@,
        EffectMode::Audio => "audio"@,
        EffectMode::Battery => "battery"@,
        EffectMode::Storm => "storm"@,
        EffectMode::Ripple => "ripple"@,
        EffectMode::Radar => "radar"@,
        EffectMode::Morse => "morse"@,
        EffectMode::Disco => "disco"@,
        EffectMode::Schedule => "schedule"@,
        EffectMode::Idle => "idle"@,
        EffectMode::Off => "off"@,
    }
}

/// The mode a name denotes, if any.
pub open spec fn mode_named(s: Seq<char>) -> Option<EffectMode> {
    if s == "static"@ {
        Some(EffectMode::Static)
    } else if s == "breathing"@ {
        Some(EffectMode::Breathing)
    } else if s == "strobing"@ {
        Some(EffectMode::Strobing)
    } else if s == "audio"@ {
        Some(EffectMode::Audio)
    } else if s == "battery"@ {
        Some(EffectMode::Battery)
    } else if s == "storm"@ {
        Some(EffectMode::Storm)
    } else if s == "ripple"@ {
        Some(EffectMode::Ripple)
    } else if s == "radar"@ {
        Some(EffectMode::Radar)
    } else if s == "morse"@ {
        Some(EffectMode::Morse)
    } else if s == "disco"@ {
        Some(EffectMode::Disco)
    } else if s == "schedule"@ {
        Some(EffectMode::Schedule)
    } else if s == "idle"@ {
        Some(EffectMode::Idle)
    } else if s == "off"@ {
        Some(EffectMode::Off)
    } else {
        None
    }
}

impl EffectMode {
    pub fn name(&self) -> (r: &'static str)
        ensures
            r@ == mode_name(*self),
    {
        match self {
            EffectMode::Static => "static",
            EffectMode::Breathing => "breathing",
            EffectMode::Strobing => "strobing",
            EffectMode::Audio => "audio",
            EffectMode::Battery => "battery",
            EffectMode::Storm => "storm",
            EffectMode::Ripple => "ripple",
            EffectMode::Radar => "radar",
            EffectMode::Morse => "morse",
            EffectMode::Disco => "disco",
            EffectMode::Schedule => "schedule",
            EffectMode::Idle => "idle",
            EffectMode::Off => "off",
        }
    }

    pub fn from_name(name: &str) -> (r: Option<EffectMode>)
        ensures
            r == mode_named(name@),
    {
        if str_is(name, "static") {
            Some(EffectMode::Static)
        } else if str_is(name, "breathing") {
            Some(EffectMode::Breathing)
        } else if str_is(name, "strobing") {
            Some(EffectMode::Strobing)
        } else if str_is(name, "audio") {
            Some(EffectMode::Audio)
        } else if str_is(name, "battery") {
            Some(EffectMode::Battery)
        } else if str_is(name, "storm") {
            Some(EffectMode::Storm)
        } else if str_is(name, "ripple") {
            Some(EffectMode::Ripple)
        } else if str_is(name, "radar") {
            Some(EffectMode::Radar)
        } else if str_is(name, "morse") {
            Some(EffectMode::Morse)
        } else if str_is(name, "disco") {
            Some(EffectMode::Disco)
        } else if str_is(name, "schedule") {
            Some(EffectMode::Schedule)
        } else if str_is(name, "idle") {
            Some(EffectMode::Idle)
        } else if str_is(name, "off") {
            Some(EffectMode::Off)
        } else {
            None
        }
    }
}

/// Every mode's name reads back as that mode, and a name that reads back as
/// a mode is that mode's name.
pub proof fn lemma_mode_names_round_trip(m: EffectMode, s: Seq<char>)
    ensures
        mode_named(mode_name(m)) == Some(m),
        mode_named(s) == Some(m) ==> s == mode_name(m),
{
    // Each name is told apart from the others by its length and its first
    // two characters.
    reveal_strlit("static");
    reveal_strlit("breathing");
    reveal_strlit("strobing");
    reveal_strlit("audio");
    reveal_strlit("battery");
    reveal_strlit("storm");
    reveal_strlit("ripple");
    reveal_strlit("radar");
    reveal_strlit("morse");
    reveal_strlit("disco");
    reveal_strlit("schedule");
    reveal_strlit("idle");
    reveal_strlit("off");
    assert("static"@.len() == 6 && "static"@[0] == 's' && "static"@[1] == 't');
    assert("breathing"@.len() == 9 && "breathing"@[0] == 'b' && "breathing"@[1] == 'r');
    assert("strobing"@.len() == 8 && "strobing"@[0] == 's' && "strobing"@[1] == 't');
    assert("audio"@.len() == 5 && "audio"@[0] == 'a' && "audio"@[1] == 'u');
    assert("battery"@.len() == 7 && "battery"@[0] == 'b' && "battery"@[1] == 'a');
    assert("storm"@.len() == 5 && "storm"@[0] == 's' && "storm"@[1] == 't');
    assert("ripple"@.len() == 6 && "ripple"@[0] == 'r' && "ripple"@[1] == 'i');
    assert("radar"@.len() == 5 && "radar"@[0] == 'r' && "radar"@[1] == 'a');
    assert("morse"@.len() == 5 && "morse"@[0] == 'm' && "morse"@[1] == 'o');
    assert("disco"@.len() == 5 && "disco"@[0] == 'd' && "disco"@[1] == 'i');
    assert("schedule"@.len() == 8 && "schedule"@[0] == 's' && "schedule"@[1] == 'c');
    assert("idle"@.len() == 4 && "idle"@[0] == 'i' && "idle"@[1] == 'd');
    assert("off"@.len() == 3 && "off"@[0] == 'o' && "off"@[1] == 'f');
}


/// The name table: each mode is called by the lower-case word for its effect,
/// and each such word selects that mode.
pub proof fn lemma_mode_name_table()
    ensures
        mode_name(EffectMode::Static) == "static"@,
        mode_named("static"@) == Some(EffectMode::Static),
        mode_name(EffectMode::Breathing) == "breathing"@,
        mode_named("breathing"@) == Some(EffectMode::Breathing),
        mode_name(EffectMode::Strobing) == "strobing"@,
        mode_named("strobing"@) == Some(EffectMode::Strobing),
        mode_name(EffectMode::Audio) == "audio"@,
        mode_named("audio"@) == Some(EffectMode::Audio),
        mode_name(EffectMode::Battery) == "battery"@,
        mode_named("battery"@) == Some(EffectMode::Battery),
        mode_name(EffectMode::Storm) == "storm"@,
        mode_named("storm"@) == Some(EffectMode::Storm),
        mode_name(EffectMode::Ripple) == "ripple"@,
        mode_named("ripple"@) == Some(EffectMode::Ripple),
        mode_name(EffectMode::Radar) == "radar"@,
        mode_named("radar"@) == Some(EffectMode::Radar),
        mode_name(EffectMode::Morse) == "morse"@,
        mode_named("morse"@) == Some(EffectMode::Morse),
        mode_name(EffectMode::Disco) == "disco"@,
        mode_named("disco"@) == Some(EffectMode::Disco),
        mode_name(EffectMode::Schedule) == "schedule"@,
        mode_named("schedule"@) == Some(EffectMode::Schedule),
        mode_name(EffectMode::Idle) == "idle"@,
        mode_named("idle"@) == Some(EffectMode::Idle),
        mode_name(EffectMode::Off) == "off"@,
        mode_named("off"@) == Some(EffectMode::Off),
{
    lemma_mode_names_round_trip(EffectMode::Static, "static"@);
    lemma_mode_names_round_trip(EffectMode::Breathing, "breathing"@);
    lemma_mode_names_round_trip(EffectMode::Strobing, "strobing"@);
    lemma_mode_names_round_trip(EffectMode::Audio, "audio"@);
    lemma_mode_names_round_trip(EffectMode::Battery, "battery"@);
    lemma_mode_names_round_trip(EffectMode::Storm, "storm"@);
    lemma_mode_names_round_trip(EffectMode::Ripple, "ripple"@);
    lemma_mode_names_round_trip(EffectMode::Radar, "radar"@);
    lemma_mode_names_round_trip(EffectMode::Morse, "morse"@);
    lemma_mode_names_round_trip(EffectMode::Disco, "disco"@);
    lemma_mode_names_round_trip(EffectMode::Schedule, "schedule"@);
    lemma_mode_names_round_trip(EffectMode::Idle, "idle"@);
    lemma_mode_names_round_trip(EffectMode::Off, "off"@);
}

/// Register state: backlight off.
pub const BACKLIGHT_OFF: u8 = 0;
/// Register state: low.
pub const BACKLIGHT_LOW: u8 = 1;
/// Register state: full.
pub const BACKLIGHT_HIGH: u8 = 2;

/// `v` clamped into `[lo, hi]` (for `lo <= hi`).
pub open spec fn clamp(v: int, lo: int, hi: int) -> int {
    if v < lo {
        lo
    } else if v > hi {
        hi
    } else {
        v
    }
}

/// The step interval for a UI speed: speed 1 is 500 ms, each step up takes
/// 44 ms off, and speeds outside 1..=10 count as the nearest end.
pub open spec fn speed_interval(speed: int) -> int {
    clamp(500 - (clamp(speed, 1, 10) - 1) * 44, 100, MAX_INTERVAL_MS as int)
}

/// Map the 1..=10 UI speed to a per-step interval, hard-floored at 100 ms.
pub fn interval_from_speed(speed: u8) -> (r: u64)
    ensures
        r == speed_interval(speed as int),
        100 <= r <= 500,
{
    let s: u64 = if speed < 1 {
        1
    } else if speed > 10 {
        10
    } else {
        speed as u64
    };
    let raw: u64 = 500 - (s - 1) * 44;
    if raw < 100 {
        100
    } else if raw > MAX_INTERVAL_MS {
        MAX_INTERVAL_MS
    } else {
        raw
    }
}

/// A faster speed never gives a longer interval.
pub proof fn lemma_interval_monotone(slow: int, fast: int)
    requires
        slow <= fast,
    ensures
        speed_interval(fast) <= speed_interval(slow),
{
}

/// How long a sleep of `interval_ms` really lasts: never under 100 ms.
pub open spec fn capped(interval_ms: int) -> int {
    if interval_ms < 100 {
        100
    } else {
        interval_ms
    }
}

/// The sleep length that keeps the controller's write budget: at least 100 ms.
pub fn capped_interval(interval_ms: u64) -> (r: u64)
    ensures
        r == capped(interval_ms as int),
        r >= 100,
{
    if interval_ms < 100 {
        100
    } else {
        interval_ms
    }
}

/// Live effect tunables, as a snapshot the effect steps read.
pub struct EffectParams {
    pub power: bool,
    pub mode: EffectMode,
    /// 1..=10
    pub speed: u8,
    /// 0..=100
    pub sensitivity: u32,
    /// 0..=2
    pub static_level: u8,
    /// percent 1..=100 (guard dim)
    pub battery_threshold: u32,
    /// percent 1..=50 (SOS blink)
    pub critical_threshold: u8,
    /// floor for fade modes
    pub min_level: u8,
    /// ceiling for flash modes
    pub max_level: u8,
    /// 0 = square, 1 = decay
    pub waveform: u8,
    /// beat-sync instead of level thresholds
    pub audio_beat: bool,
    /// 0 = disabled; dim to off after N minutes
    pub auto_dim_minutes: u16,
    /// schedule: bright window start (0..=23)
    pub day_start_hour: u8,
    /// schedule: dim floor start (0..=23)
    pub night_start_hour: u8,
    /// idle effect: seconds before fade (>= 15)
    pub idle_grace_s: u16,
    pub tray_close: bool,
    /// morse effect: message to transmit
    pub morse_text: String,
}

impl Default for EffectParams {
    fn default() -> (p: Self)
        ensures
            !p.power,
            p.mode == EffectMode::Breathing,
            p.speed == 4,
            p.sensitivity == 60,
            p.static_level == BACKLIGHT_HIGH,
            p.battery_threshold == 20,
            p.critical_threshold == 10,
            p.min_level == BACKLIGHT_OFF,
            p.max_level == BACKLIGHT_HIGH,
            p.waveform == 0,
            !p.audio_beat,
            p.auto_dim_minutes == 0,
            p.day_start_hour == 7,
            p.night_start_hour == 22,
            p.idle_grace_s == 60,
            p.tray_close,
            p.morse_text@ == "HI"@,
    {
        EffectParams {
            power: false,
            mode: EffectMode::Breathing,
            speed: 4,
            sensitivity: 60,
            static_level: BACKLIGHT_HIGH,
            battery_threshold: 20,
            critical_threshold: 10,
            min_level: BACKLIGHT_OFF,
            max_level: BACKLIGHT_HIGH,
            waveform: 0,
            audio_beat: false,
            auto_dim_minutes: 0,
            day_start_hour: 7,
            night_start_hour: 22,
            idle_grace_s: 60,
            tray_close: true,
            morse_text: String::from_str("HI"),
        }
    }
}

/// The floor of the level range: the smaller of the two clamped bounds.
pub open spec fn range_lo(p: EffectParams) -> int {
    let a = clamp(p.min_level as int, 0, 2);
    let b = clamp(p.max_level as int, 0, 2);
    if a <= b {
        a
    } else {
        b
    }
}

/// The ceiling of the level range: the larger of the two clamped bounds.
pub open spec fn range_hi(p: EffectParams) -> int {
    let a = clamp(p.min_level as int, 0, 2);
    let b = clamp(p.max_level as int, 0, 2);
    if a <= b {
        b
    } else {
        a
    }
}

/// Per-loop floor/ceiling, clamped and ordered so min <= max regardless of
/// what the user throws at the UI.
pub fn level_range(params: &EffectParams) -> (r: (u8, u8))
    ensures
        r.0 == range_lo(*params),
        r.1 == range_hi(*params),
        r.0 <= r.1 <= 2,
{
    let a = if params.min_level > 2 {
        2
    } else {
        params.min_level
    };
    let b = if params.max_level > 2 {
        2
    } else {
        params.max_level
    };
    if a <= b {
        (a, b)
    } else {
        (b, a)
    }
}

/// The level halfway up a range, rounding up: `lo + (hi - lo + 1) / 2`, with
/// the difference taken as 0 when `hi` is below `lo`.
pub open spec fn mid_of(lo: int, hi: int) -> int {
    lo + ((if hi >= lo {
        hi - lo
    } else {
        0
    }) + 1) / 2
}

/// The midpoint of `[lo, hi]`, rounding up.
pub fn mid_level(lo: u8, hi: u8) -> (r: u8)
    ensures
        r == mid_of(lo as int, hi as int),
        lo <= hi ==> lo <= r <= hi,
{
    let span: u8 = if hi >= lo {
        hi - lo
    } else {
        0
    };
    lo + ((span as u16 + 1) / 2) as u8
}

/// Starting value of the seed fold.
pub const SEED_BASIS: u64 = 0x9e37_79b9_7f4a_7c15u64;
/// Multiplier of the seed fold.
pub const SEED_PRIME: u64 = 1099511628211u64;

/// Byte `i` (little-endian) of `n`.
pub open spec fn le_byte(n: u128, i: u32) -> u64 {
    ((n >> (8 * i)) & 0xffu128) as u64
}

/// The seed fold over the first `k` little-endian bytes of `n`:
/// `acc = acc * SEED_PRIME + byte`, wrapping, starting from `SEED_BASIS`.
pub open spec fn seed_fold(n: u128, k: nat) -> u64
    decreases k,
{
    if k == 0 {
        SEED_BASIS
    } else {
        vstd::wrapping::u64_specs::wrapping_add(
            vstd::wrapping::u64_specs::wrapping_mul(seed_fold(n, (k - 1) as nat), SEED_PRIME),
            le_byte(n, (k - 1) as u32),
        )
    }
}

/// The generator state seeded from a clock reading of `nanos` nanoseconds.
pub open spec fn seed_of(nanos: u128) -> u64 {
    seed_fold(nanos, 16) | 1u64
}

/// One xorshift step (shifts 13, 7, 17).
pub open spec fn xorshift(x: u64) -> u64 {
    let a = x ^ (x << 13u64);
    let b = a ^ (a >> 7u64);
    b ^ (b << 17u64)
}

/// The bound a draw is reduced by: `max`, or 1 when `max` is 0.
pub open spec fn draw_modulus(max: u64) -> u64 {
    if max == 0 {
        1
    } else {
        max
    }
}

/// The value a draw below `max` gives from generator state `s`.
pub open spec fn draw(s: u64, max: u64) -> int {
    (xorshift(s) % draw_modulus(max)) as int
}

/// A setting of the low bit is never zero.
proof fn lemma_or_one_nonzero(x: u64)
    by (bit_vector)
    ensures
        (x | 1u64) != 0,
{
}

/// Xorshift maps a nonzero state to a nonzero state.
pub proof fn lemma_xorshift_nonzero(x: u64)
    by (bit_vector)
    requires
        x != 0,
    ensures
        xorshift(x) != 0,
{
}

/// Tiny deterministic PRNG for flicker/burst modes (xorshift64).
pub struct Rng {
    state: u64,
}

impl Rng {
    /// The generator's state is never zero, so it never gets stuck.
    #[verifier::type_invariant]
    spec fn nonzero(self) -> bool {
        self.state != 0
    }

    /// The current state.
    pub closed spec fn state(self) -> u64 {
        self.state
    }

    /// Seed from the monotonic clock.
    pub fn new() -> (r: Self)
        ensures
            r.state() & 1 == 1,
    {
        let start = instant_now();
        let nanos = duration_nanos(&elapsed(&start));
        Rng::from_nanos(nanos)
    }

    /// Seed from a clock reading: the little-endian bytes of `nanos` folded
    /// into `SEED_BASIS`, with the low bit set.
    pub fn from_nanos(nanos: u128) -> (r: Self)
        ensures
            r.state() == seed_of(nanos),
            r.state() & 1 == 1,
    {
        let mut acc: u64 = SEED_BASIS;
        let mut i: u32 = 0;
        while i < 16
            invariant
                i <= 16,
                acc == seed_fold(nanos, i as nat),
            decreases 16 - i,
        {
            let b: u64 = ((nanos >> (8 * i)) & 0xffu128) as u64;
            acc = acc.wrapping_mul(SEED_PRIME).wrapping_add(b);
            i = i + 1;
        }
        let seed = acc | 1u64;
        proof {
            lemma_or_one_nonzero(acc);
            assert((acc | 1u64) & 1u64 == 1u64) by (bit_vector);
        }
        Rng { state: seed }
    }

    /// Uniform-ish in `[0, max)`: advance the state one xorshift step, then
    /// reduce it by `max` (by 1 when `max` is 0).
    pub fn below(&mut self, max: u64) -> (r: u64)
        ensures
            final(self).state() == xorshift(old(self).state()),
            r == xorshift(old(self).state()) % draw_modulus(max),
            max > 0 ==> r < max,
            max == 0 ==> r == 0,
    {
        proof {
            use_type_invariant(&*self);
            lemma_xorshift_nonzero(self.state);
        }
        let mut x = self.state;
        x = x ^ (x << 13u64);
        x = x ^ (x >> 7u64);
        x = x ^ (x << 17u64);
        self.state = x;
        let m: u64 = if max == 0 {
            1
        } else {
            max
        };
        x % m
    }
}


/// One tick of an effect loop: what to write, then how long to wait.
pub struct Tick {
    /// The level to write this tick, if any.
    pub level: Option<u8>,
    /// Whether the write goes through the auto-dim override (`emit`) rather
    /// than straight to the register (`set_level`).
    pub dimmable: bool,
    /// The length of one wait, already floored at 100 ms.
    pub sleep_ms: u64,
    /// How many such waits follow; the loop checks for a stop after each.
    pub sleeps: usize,
}

/// What every tick keeps: a written level is a register state, and every
/// wait is at least 100 ms long.
pub open spec fn tick_safe(t: Tick) -> bool {
    &&& (t.level matches Some(l) ==> l <= 2)
    &&& t.sleep_ms >= 100
    &&& t.sleeps >= 1
}

/// A tick that writes `level` (through auto-dim when `dimmable`), then waits
/// once for `interval_ms` floored at 100 ms.
pub open spec fn tick_of(level: Option<u8>, dimmable: bool, interval_ms: int) -> Tick {
    Tick { level, dimmable, sleep_ms: capped(interval_ms) as u64, sleeps: 1 }
}

/// Build a tick that waits once.
pub fn single_tick(level: Option<u8>, dimmable: bool, interval_ms: u64) -> (t: Tick)
    ensures
        t == tick_of(level, dimmable, interval_ms as int),
{
    Tick { level, dimmable, sleep_ms: capped_interval(interval_ms), sleeps: 1 }
}

/// The level the auto-dim override lets through: once a mode has run longer
/// than `dim_minutes` (when that is nonzero), 0; else the quantized level.
pub open spec fn dimmed(level: int, dim_minutes: int, elapsed_secs: int) -> int {
    if dim_minutes > 0 && elapsed_secs > dim_minutes * 60 {
        0
    } else {
        quantized(level)
    }
}

/// Apply the auto-dim override to a requested level.
pub fn auto_dim_level(level: u8, dim_minutes: u16, elapsed_secs: u64) -> (r: u8)
    ensures
        r == dimmed(level as int, dim_minutes as int, elapsed_secs as int),
        r <= 2,
{
    let dim: u64 = dim_minutes as u64;
    if dim > 0 && elapsed_secs > dim * 60 {
        0
    } else {
        quantize_level(level)
    }
}

/// Whole seconds from `since_ms` to `now_ms` on a monotonic millisecond
/// clock, 0 if `now_ms` is earlier.
pub open spec fn elapsed_secs_between(since_ms: u64, now_ms: u64) -> int {
    if now_ms >= since_ms {
        (now_ms - since_ms) / 1000
    } else {
        0
    }
}

/// What a write that handed `w` to the driver leaves behind: exactly one
/// new entry in the driver's log, for `w`; the result passed back (the
/// level on success, the driver's message on failure); and the last error
/// (that message on failure, unchanged on success).
pub open spec fn write_recorded<D: BacklightDriver>(
    old_s: EffectShared<D>,
    new_s: EffectShared<D>,
    w: u8,
    r: Result<u8, String>,
) -> bool {
    let rec = new_s.driver.writes().last();
    &&& new_s.driver.writes() == old_s.driver.writes().push(rec)
    &&& rec.0 == w
    &&& match rec.1 {
        Ok(()) => r == Ok::<u8, String>(w) && new_s.error == old_s.error,
        Err(e) => r == Err::<u8, String>(e) && new_s.error == Some(e),
    }
    &&& new_s.params == old_s.params
    &&& new_s.started_ms == old_s.started_ms
}

/// Everything an effect loop needs: the driver, the tunables, the last
/// error the driver reported, and when the current mode started (monotonic
/// milliseconds).
pub struct EffectShared<D: BacklightDriver> {
    pub driver: D,
    pub params: EffectParams,
    pub error: Option<String>,
    pub started_ms: u64,
}

impl<D: BacklightDriver> EffectShared<D> {
    pub fn new(driver: D, params: EffectParams, now_ms: u64) -> (s: Self)
        ensures
            s.driver == driver,
            s.params == params,
            s.error is None,
            s.started_ms == now_ms,
    {
        EffectShared { driver, params, error: None, started_ms: now_ms }
    }

    /// Reset the auto-dim clock to `now_ms` (called each time a mode is
    /// (re)started).
    pub fn mark_start(&mut self, now_ms: u64)
        ensures
            final(self).started_ms == now_ms,
            final(self).driver == old(self).driver,
            final(self).params == old(self).params,
            final(self).error == old(self).error,
    {
        self.started_ms = now_ms;
    }

    /// Record a driver error as the last error.
    pub fn report_error(&mut self, msg: String)
        ensures
            final(self).error == Some(msg),
            final(self).driver == old(self).driver,
            final(self).params == old(self).params,
            final(self).started_ms == old(self).started_ms,
    {
        self.error = Some(msg);
    }

    /// Quantize then write. The driver gets the quantized level; a failed
    /// write becomes the last error and its message is passed back, a
    /// successful one leaves the last error as it was and passes back the
    /// level written.
    pub fn set_level(&mut self, level: u8) -> (r: Result<u8, String>)
        ensures
            write_recorded(*old(self), *final(self), quantized(level as int) as u8, r),
    {
        let w = quantize_level(level);
        match self.driver.set_brightness(w) {
            Ok(()) => Ok(w),
            Err(e) => {
                self.report_error(e.clone());
                Err(e)
            },
        }
    }

    /// Effect-level write at monotonic time `now_ms`, with the auto-dim
    /// override applied: once the mode has run longer than
    /// `auto_dim_minutes` (when that is nonzero), 0 is written instead.
    pub fn emit(&mut self, level: u8, now_ms: u64) -> (r: Result<u8, String>)
        ensures
            write_recorded(
                *old(self),
                *final(self),
                dimmed(
                    level as int,
                    old(self).params.auto_dim_minutes as int,
                    elapsed_secs_between(old(self).started_ms, now_ms),
                ) as u8,
                r,
            ),
    {
        let elapsed: u64 = if now_ms >= self.started_ms {
            (now_ms - self.started_ms) / 1000
        } else {
            0
        };
        let w = auto_dim_level(level, self.params.auto_dim_minutes, elapsed);
        self.set_level(w)
    }

    /// Carry out a tick's write at monotonic time `now_ms`, if it has one:
    /// through `emit` when the tick is dimmable, through `set_level`
    /// otherwise. A tick without a write leaves everything as it was.
    pub fn apply_tick(&mut self, tick: &Tick, now_ms: u64) -> (r: Option<Result<u8, String>>)
        ensures
            match tick.level {
                Some(l) => r matches Some(res) && write_recorded(
                    *old(self),
                    *final(self),
                    if tick.dimmable {
                        dimmed(
                            l as int,
                            old(self).params.auto_dim_minutes as int,
                            elapsed_secs_between(old(self).started_ms, now_ms),
                        ) as u8
                    } else {
                        quantized(l as int) as u8
                    },
                    res,
                ),
                None => r is None && *final(self) == *old(self),
            },
    {
        match tick.level {
            Some(l) => {
                if tick.dimmable {
                    Some(self.emit(l, now_ms))
                } else {
                    Some(self.set_level(l))
                }
            },
            None => None,
        }
    }
}

/// Every write an effect makes reaches the driver as a register state:
/// quantizing and the auto-dim override only give 0, 1 or 2, and a write
/// of such a level keeps a driver log of register states one.
pub proof fn lemma_writes_are_register_states<D: BacklightDriver>(
    old_s: EffectShared<D>,
    new_s: EffectShared<D>,
    level: int,
    dim_minutes: int,
    elapsed_secs: int,
    w: u8,
    r: Result<u8, String>,
)
    requires
        level >= 0,
        w == quantized(level) || w == dimmed(level, dim_minutes, elapsed_secs),
        write_recorded(old_s, new_s, w, r),
        register_log(old_s.driver.writes()),
    ensures
        0 <= quantized(level) <= 2,
        0 <= dimmed(level, dim_minutes, elapsed_secs) <= 2,
        register_log(new_s.driver.writes()),
{
    let log = new_s.driver.writes();
    assert forall|i: int| 0 <= i < log.len() implies (#[trigger] log[i]).0 <= 2 by {
        if i < old_s.driver.writes().len() {
            assert(log[i] == old_s.driver.writes()[i]);
        }
    }
}

/// Whether the power-off loop has written its single 0 yet.
pub struct OffState {
    pub written: bool,
}

impl OffState {
    pub fn new() -> (s: Self)
        ensures
            !s.written,
    {
        OffState { written: false }
    }
}

/// Power off: write 0 once, straight to the register, then idle in 250 ms
/// waits.
pub fn run_off(state: &mut OffState) -> (t: Tick)
    ensures
        final(state).written,
        t == tick_of(if old(state).written { None } else { Some(0u8) }, false, 250),
        tick_safe(t),
{
    let level = if state.written {
        None
    } else {
        Some(BACKLIGHT_OFF)
    };
    state.written = true;
    single_tick(level, false, 250)
}

/// Static: keep the chosen level armed (recovers from manual brightness
/// bumps), re-writing it through the auto-dim override every 300 ms.
pub fn run_static(params: &EffectParams) -> (t: Tick)
    ensures
        t == tick_of(Some(clamp(params.static_level as int, 0, 2) as u8), true, 300),
        tick_safe(t),
{
    let l = if params.static_level > BACKLIGHT_HIGH {
        BACKLIGHT_HIGH
    } else {
        params.static_level
    };
    single_tick(Some(l), true, 300)
}


/// The mode an apply starts: the chosen mode while powered, `Off` otherwise.
pub fn effective_mode(power: bool, mode: EffectMode) -> (m: EffectMode)
    ensures
        m == if power {
            mode
        } else {
            EffectMode::Off
        },
{
    if power {
        mode
    } else {
        EffectMode::Off
    }
}

/// The running effect and its loop state. Breathing and Audio keep their
/// state outside the library.
pub enum ActiveEffect {
    Off(OffState),
    Static,
    Breathing,
    Strobing(StrobeState),
    Audio,
    Battery(BatteryEffect),
    Storm(StormState),
    Ripple(RippleState),
    Radar(RadarState),
    Morse(MorseState),
    Disco(DiscoState),
    Schedule(ScheduleState),
    Idle(IdleState),
}

/// The mode an active effect runs.
pub open spec fn active_mode(e: ActiveEffect) -> EffectMode {
    match e {
        ActiveEffect::Off(_) => EffectMode::Off,
        ActiveEffect::Static => EffectMode::Static,
        ActiveEffect::Breathing => EffectMode::Breathing,
        ActiveEffect::Strobing(_) => EffectMode::Strobing,
        ActiveEffect::Audio => EffectMode::Audio,
        ActiveEffect::Battery(_) => EffectMode::Battery,
        ActiveEffect::Storm(_) => EffectMode::Storm,
        ActiveEffect::Ripple(_) => EffectMode::Ripple,
        ActiveEffect::Radar(_) => EffectMode::Radar,
        ActiveEffect::Morse(_) => EffectMode::Morse,
        ActiveEffect::Disco(_) => EffectMode::Disco,
        ActiveEffect::Schedule(_) => EffectMode::Schedule,
        ActiveEffect::Idle(_) => EffectMode::Idle,
    }
}

/// An active effect whose loop state is where its loop begins, started at
/// `now_ms` with the tunables `p`.
pub open spec fn active_fresh(e: ActiveEffect, p: EffectParams, now_ms: u64) -> bool {
    match e {
        ActiveEffect::Off(s) => !s.written,
        ActiveEffect::Strobing(s) => s.on,
        ActiveEffect::Battery(s) => {
            &&& s.wf()
            &&& s.mode == self::battery::BatteryMode::Guard
            &&& s.pattern_step == 0
            &&& s.last_poll_ms == now_ms
            &&& s.pattern_tick_ms == now_ms
        },
        ActiveEffect::Storm(s) => s.quiet_left == 0 && s.flashes_left == 0,
        ActiveEffect::Ripple(s) => s.tick == 0,
        ActiveEffect::Radar(s) => s.wf() && s.tick == 0 && s.blip_at == 0,
        ActiveEffect::Morse(s) => {
            let units = self::morse::message_units(p.morse_text@);
            &&& s.wf()
            &&& s.i == 0
            &&& (units.len() == 0 ==> s.pattern@ == self::morse::fallback_pattern())
            &&& (units.len() > 0 ==> self::morse::expand(s.pattern@) == units)
        },
        ActiveEffect::Schedule(s) => s.last is None,
        ActiveEffect::Idle(s) => !s.reported,
        _ => true,
    }
}

/// Set up the loop state for `mode`, started at monotonic time `now_ms`.
pub fn start_effect(mode: EffectMode, params: &EffectParams, now_ms: u64) -> (e: ActiveEffect)
    ensures
        active_mode(e) == mode,
        active_fresh(e, *params, now_ms),
{
    match mode {
        EffectMode::Off => ActiveEffect::Off(OffState::new()),
        EffectMode::Static => ActiveEffect::Static,
        EffectMode::Breathing => ActiveEffect::Breathing,
        EffectMode::Strobing => ActiveEffect::Strobing(StrobeState::new()),
        EffectMode::Audio => ActiveEffect::Audio,
        EffectMode::Battery => ActiveEffect::Battery(BatteryEffect::new(now_ms)),
        EffectMode::Storm => ActiveEffect::Storm(StormState::new()),
        EffectMode::Ripple => ActiveEffect::Ripple(RippleState::new()),
        EffectMode::Radar => ActiveEffect::Radar(RadarState::new()),
        EffectMode::Morse => ActiveEffect::Morse(MorseState::new(params.morse_text.as_str())),
        EffectMode::Disco => ActiveEffect::Disco(DiscoState::new()),
        EffectMode::Schedule => ActiveEffect::Schedule(ScheduleState::new()),
        EffectMode::Idle => ActiveEffect::Idle(IdleState::new()),
    }
}

/// Whether an effect loop has been told to stop. The flag is set by another
/// thread, so nothing is claimed about the value read.
pub fn is_stopped(stop: &std::sync::atomic::AtomicBool) -> bool {
    stop.load(std::sync::atomic::Ordering::Relaxed)
}

} // verus!
