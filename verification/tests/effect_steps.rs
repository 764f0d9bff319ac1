use glowfx::effects::blink::{self, BlinkState};
use glowfx::effects::candle::{self, CandleState};
use glowfx::effects::disco::{self, DiscoState};
use glowfx::effects::heartbeat::{self, HeartbeatState};
use glowfx::effects::idle::{self, IdleState};
use glowfx::effects::radar::{self, RadarState};
use glowfx::effects::ripple::{self, RippleState};
use glowfx::effects::schedule::{self, ScheduleState};
use glowfx::effects::storm::{self, StormState};
use glowfx::effects::strobing::{self, StrobeState};
use glowfx::driver::NullDriver;
use glowfx::effects::morse::{self, MorseState};
use glowfx::effects::{EffectParams, EffectShared, Rng, Tick};

fn xs(x: u64) -> u64 {
    let mut x = x;
    x ^= x << 13;
    x ^= x >> 7;
    x ^= x << 17;
    x
}

fn seed(n: u128) -> u64 {
    n.to_le_bytes()
        .iter()
        .fold(0x9e37_79b9_7f4a_7c15u64, |acc, &b| {
            acc.wrapping_mul(1099511628211).wrapping_add(b as u64)
        })
        | 1
}

fn params_speed(speed: u8) -> EffectParams {
    let mut p = EffectParams::default();
    p.speed = speed;
    p
}

#[test]
fn strobe_alternates_full_and_off() {
    let p = params_speed(10);
    let mut st = StrobeState::new();
    let a = strobing::run(&mut st, &p);
    let b = strobing::run(&mut st, &p);
    let c = strobing::run(&mut st, &p);
    assert_eq!((a.level, b.level, c.level), (Some(2), Some(0), Some(2)));
    assert!(a.dimmable);
    assert_eq!(a.sleep_ms, 104);
}

#[test]
fn strobe_flashes_to_the_ceiling_and_goes_dark() {
    let mut p = params_speed(10);
    p.min_level = 1;
    p.max_level = 1;
    let mut st = StrobeState::new();
    assert_eq!(strobing::run(&mut st, &p).level, Some(1));
    assert_eq!(strobing::run(&mut st, &p).level, Some(0));
    p.min_level = 2;
    p.max_level = 2;
    assert_eq!(strobing::run(&mut st, &p).level, Some(2));
    assert_eq!(strobing::run(&mut st, &p).level, Some(0));
}

#[test]
fn blink_square_toggles_between_bounds() {
    let mut p = params_speed(1);
    p.min_level = 1;
    p.max_level = 2;
    let mut st = BlinkState::new();
    let levels: Vec<u8> = (0..4).map(|_| blink::run(&mut st, &p).level.unwrap()).collect();
    assert_eq!(levels, vec![2, 1, 2, 1]);
}

#[test]
fn blink_decay_steps_down_then_restarts() {
    let mut p = params_speed(1);
    p.waveform = 1;
    let mut st = BlinkState::new();
    let levels: Vec<u8> = (0..7).map(|_| blink::run(&mut st, &p).level.unwrap()).collect();
    assert_eq!(levels, vec![2, 1, 0, 2, 1, 0, 2]);
    p.min_level = 1;
    let mut st = BlinkState::new();
    let levels: Vec<u8> = (0..4).map(|_| blink::run(&mut st, &p).level.unwrap()).collect();
    assert_eq!(levels, vec![2, 1, 2, 1]);
    let t = blink::run(&mut st, &p);
    assert_eq!(t.sleep_ms, 500);
}

#[test]
fn heartbeat_frame_thumps_to_the_ceiling() {
    let p = params_speed(4);
    let mut st = HeartbeatState::new();
    let levels: Vec<u8> = (0..12).map(|_| heartbeat::run(&mut st, &p).level.unwrap()).collect();
    assert_eq!(levels, vec![0, 0, 0, 2, 1, 2, 1, 0, 0, 0, 0, 0]);
    assert_eq!(st.step, 2);
}

#[test]
fn disco_picks_by_weighted_draw() {
    let p = EffectParams::default();
    for n in [3u128, 99, 123_456] {
        let s = seed(n);
        let mut st = DiscoState { rng: Rng::from_nanos(n) };
        let t = disco::run(&mut st, &p);
        let r = xs(s) % 100;
        let want = if r <= 45 { 2 } else if r <= 70 { 0 } else { 1 };
        assert_eq!(t.level, Some(want));
    }
}

#[test]
fn candle_dips_settle_on_the_mid_level() {
    let p = EffectParams::default();
    let mut st = CandleState { rng: Rng::from_nanos(0), settle: 2 };
    assert_eq!(candle::run(&mut st, &p).level, Some(1));
    assert_eq!(st.settle, 1);
    assert_eq!(candle::run(&mut st, &p).level, Some(1));
    assert_eq!(st.settle, 0);
    for n in 0u128..40 {
        let s = seed(n);
        let mut st = CandleState { rng: Rng::from_nanos(n), settle: 0 };
        let t = candle::run(&mut st, &p);
        let r = xs(s) % 100;
        if r <= 5 {
            assert_eq!(t.level, Some(0));
            assert_eq!(st.settle as u64, xs(xs(s)) % 3 + 1);
        } else if r <= 14 {
            assert_eq!(t.level, Some(2));
        } else {
            assert_eq!(t.level, Some(1));
        }
    }
}

#[test]
fn storm_strike_sets_flashes_and_lull() {
    let p = EffectParams::default();
    let s = seed(42);
    let mut st = StormState { rng: Rng::from_nanos(42), quiet_left: 0, flashes_left: 0 };
    let t = storm::run(&mut st, &p);
    assert_eq!(t.level, Some(2));
    assert_eq!(st.flashes_left as u64, xs(s) % 3 + 1);
    assert_eq!(st.quiet_left as u64, xs(xs(s)) % 45 + 5);
    let mut st = StormState { rng: Rng::from_nanos(42), quiet_left: 0, flashes_left: 2 };
    assert_eq!(storm::run(&mut st, &p).level, Some(2));
    assert_eq!(st.flashes_left, 1);
    let mut st = StormState { rng: Rng::from_nanos(42), quiet_left: 3, flashes_left: 0 };
    let t = storm::run(&mut st, &p);
    let want = if xs(s) % 100 < 6 { 2 } else { 0 };
    assert_eq!(t.level, Some(want));
    assert_eq!(st.quiet_left, 2);
}

#[test]
fn ripple_pings_then_dwells() {
    let p = EffectParams::default();
    let mut st = RippleState::new();
    let levels: Vec<u8> = (0..17).map(|_| ripple::run(&mut st, &p).level.unwrap()).collect();
    assert_eq!(levels, vec![2, 2, 1, 1, 0, 0, 0, 0, 0, 0, 0, 0, 0, 0, 0, 0, 2]);
    let mut flat = EffectParams::default();
    flat.min_level = 1;
    flat.max_level = 1;
    assert_eq!(ripple::run(&mut RippleState::new(), &flat).level, Some(1));
}

#[test]
fn radar_sweeps_with_a_blip() {
    let p = EffectParams::default();
    let s = seed(7);
    let mut st = RadarState { rng: Rng::from_nanos(7), tick: 0, blip_at: 0 };
    let levels: Vec<u8> = (0..12).map(|_| radar::run(&mut st, &p).level.unwrap()).collect();
    let blip = (xs(s) % 6) as usize;
    assert_eq!(st.blip_at as usize, blip);
    let mut want = vec![2, 2, 2, 2, 1, 1, 0, 0, 0, 0, 0, 0];
    want[2 + blip] = 2;
    assert_eq!(levels, want);
    assert_eq!(st.tick, 0);
}

#[test]
fn schedule_brightens_the_day_window() {
    let p = EffectParams::default();
    let mut st = ScheduleState::new();
    assert_eq!(schedule::run(&mut st, &p, 12).level, Some(2));
    assert_eq!(schedule::run(&mut st, &p, 12).level, None);
    assert_eq!(schedule::run(&mut st, &p, 7).level, Some(1));
    assert_eq!(schedule::run(&mut st, &p, 22).level, Some(1));
    assert_eq!(schedule::run(&mut st, &p, 23).level, Some(0));
    assert_eq!(schedule::run(&mut st, &p, 3).level, Some(0));
    let t = schedule::run(&mut st, &p, 21);
    assert_eq!(t.level, Some(2));
    assert_eq!(t.sleep_ms, 15_000);
    let mut wrap = EffectParams::default();
    wrap.day_start_hour = 20;
    wrap.night_start_hour = 6;
    let mut st = ScheduleState::new();
    assert_eq!(schedule::run(&mut st, &wrap, 23).level, Some(2));
    assert_eq!(schedule::run(&mut st, &wrap, 6).level, Some(1));
    assert_eq!(schedule::run(&mut st, &wrap, 7).level, Some(0));
    assert_eq!(schedule::run(&mut st, &wrap, 12).level, Some(0));
    let mut same = EffectParams::default();
    same.day_start_hour = 5;
    same.night_start_hour = 29;
    assert_eq!(schedule::run(&mut ScheduleState::new(), &same, 13).level, Some(2));
}

#[test]
fn idle_fades_after_the_grace_period() {
    let p = EffectParams::default();
    let mut st = IdleState::new();
    let (t, note) = idle::run(&mut st, &p, Some(59));
    assert_eq!((t.level, note), (Some(2), None));
    let (t, _) = idle::run(&mut st, &p, Some(60));
    assert_eq!(t.level, Some(0));
    let mut short = EffectParams::default();
    short.idle_grace_s = 3;
    assert_eq!(idle::run(&mut st, &short, Some(14)).0.level, Some(2));
    assert_eq!(idle::run(&mut st, &short, Some(15)).0.level, Some(0));
}

#[test]
fn idle_reports_a_missing_source_once() {
    let p = EffectParams::default();
    let mut st = IdleState::new();
    let (t, note) = idle::run(&mut st, &p, None);
    assert_eq!(t.level, None);
    assert_eq!(t.sleep_ms, 1000);
    assert_eq!(
        note.as_deref(),
        Some("idle detection unavailable (no session DBus); staying on")
    );
    assert_eq!(idle::run(&mut st, &p, None).1, None);
    idle::run(&mut st, &p, Some(0));
    assert!(idle::run(&mut st, &p, None).1.is_some());
}

#[test]
fn new_effect_loops_stay_bounded() {
    let mut shared =
        EffectShared::new(NullDriver::new("no node".to_string()), EffectParams::default(), 0);
    let p = EffectParams::default();
    let mut storm_st = StormState::new();
    let mut ripple_st = RippleState::new();
    let mut radar_st = RadarState::new();
    let mut morse_st = MorseState::new("SOS 73");
    let mut disco_st = DiscoState::new();
    for _ in 0..40 {
        let ticks: [Tick; 5] = [
            storm::run(&mut storm_st, &p),
            ripple::run(&mut ripple_st, &p),
            radar::run(&mut radar_st, &p),
            morse::run(&mut morse_st, &p),
            disco::run(&mut disco_st, &p),
        ];
        for t in ticks.iter() {
            assert!(t.sleep_ms >= 100);
            let written = shared.apply_tick(t, 0);
            assert!(written.is_some(), "every step writes");
            assert_eq!(written.unwrap(), Err("no node".to_string()));
        }
    }
    assert_eq!(shared.set_level(2), Err("no node".to_string()));
}
