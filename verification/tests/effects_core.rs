use glowfx::effects::{interval_from_speed, level_range, EffectMode, EffectParams};

#[test]
fn interval_is_hard_capped_at_100ms() {
    assert!(interval_from_speed(10) >= 100);
    assert!(interval_from_speed(1) <= 500);
    for s in 1..=10 {
        assert!(interval_from_speed(s) >= 100, "speed {s} must be ≥100ms");
    }
}

#[test]
fn mode_names_round_trip() {
    for m in [
        EffectMode::Static,
        EffectMode::Breathing,
        EffectMode::Strobing,
        EffectMode::Audio,
        EffectMode::Battery,
        EffectMode::Storm,
        EffectMode::Ripple,
        EffectMode::Radar,
        EffectMode::Morse,
        EffectMode::Disco,
        EffectMode::Schedule,
        EffectMode::Idle,
        EffectMode::Off,
    ] {
        assert_eq!(EffectMode::from_name(m.name()), Some(m));
    }
    assert_eq!(EffectMode::from_name("nope"), None);
}

#[test]
fn level_range_orders_min_max() {
    let mut p = EffectParams::default();
    p.max_level = 0;
    p.min_level = 2;
    assert_eq!(level_range(&p), (0, 2));
    p.min_level = 7;
    assert_eq!(level_range(&p), (0, 2));
}

use glowfx::driver::{BacklightDriver, NullDriver, WriteLog};
use glowfx::effects::{
    auto_dim_level, capped_interval, effective_mode, mid_level, run_off, run_static,
    single_tick, start_effect, ActiveEffect, EffectShared, OffState, Rng, Tick,
};

fn xs(x: u64) -> u64 {
    let mut x = x;
    x ^= x << 13;
    x ^= x >> 7;
    x ^= x << 17;
    x
}

fn seed(n: u128) -> u64 {
    n.to_le_bytes()
        .iter()
        .fold(0x9e37_79b9_7f4a_7c15u64, |acc, &b| {
            acc.wrapping_mul(1099511628211).wrapping_add(b as u64)
        })
        | 1
}

#[test]
fn interval_formula_exact_values() {
    assert_eq!(interval_from_speed(1), 500);
    assert_eq!(interval_from_speed(4), 368);
    assert_eq!(interval_from_speed(10), 104);
    assert_eq!(interval_from_speed(0), 500);
    assert_eq!(interval_from_speed(200), 104);
}

#[test]
fn interval_never_grows_with_speed() {
    for s in 0..=254u8 {
        assert!(interval_from_speed(s + 1) <= interval_from_speed(s));
    }
}

#[test]
fn capped_interval_floors_at_100() {
    assert_eq!(capped_interval(60), 100);
    assert_eq!(capped_interval(100), 100);
    assert_eq!(capped_interval(1500), 1500);
    assert_eq!(capped_interval(0), 100);
}

#[test]
fn mode_names_are_lower_case_words() {
    assert_eq!(EffectMode::Static.name(), "static");
    assert_eq!(EffectMode::Off.name(), "off");
    assert_eq!(EffectMode::from_name("Static"), None);
    assert_eq!(EffectMode::from_name(""), None);
    assert_eq!(EffectMode::from_name("schedule"), Some(EffectMode::Schedule));
}

#[test]
fn default_params_match_the_ui_defaults() {
    let p = EffectParams::default();
    assert!(!p.power);
    assert_eq!(p.mode, EffectMode::Breathing);
    assert_eq!(p.speed, 4);
    assert_eq!(p.sensitivity, 60);
    assert_eq!(p.static_level, 2);
    assert_eq!(p.battery_threshold, 20);
    assert_eq!(p.critical_threshold, 10);
    assert_eq!((p.min_level, p.max_level), (0, 2));
    assert_eq!(p.waveform, 0);
    assert!(!p.audio_beat);
    assert_eq!(p.auto_dim_minutes, 0);
    assert_eq!((p.day_start_hour, p.night_start_hour), (7, 22));
    assert_eq!(p.idle_grace_s, 60);
    assert!(p.tray_close);
    assert_eq!(p.morse_text, "HI");
}

#[test]
fn level_range_keeps_ordered_bounds() {
    let mut p = EffectParams::default();
    p.min_level = 1;
    p.max_level = 1;
    assert_eq!(level_range(&p), (1, 1));
    p.min_level = 0;
    p.max_level = 9;
    assert_eq!(level_range(&p), (0, 2));
}

#[test]
fn mid_level_rounds_up() {
    assert_eq!(mid_level(0, 2), 1);
    assert_eq!(mid_level(0, 1), 1);
    assert_eq!(mid_level(1, 2), 2);
    assert_eq!(mid_level(2, 2), 2);
    assert_eq!(mid_level(0, 0), 0);
    assert_eq!(mid_level(2, 0), 2);
    assert_eq!(mid_level(128, 255), 192);
    assert_eq!(mid_level(255, 255), 255);
}

#[test]
fn rng_seed_folds_the_clock_reading() {
    for n in [0u128, 1, 123_456_789, u128::MAX] {
        let mut r = Rng::from_nanos(n);
        let s = seed(n);
        assert_eq!(s & 1, 1);
        assert_eq!(r.below(u64::MAX), xs(s) % u64::MAX);
        assert_eq!(r.below(1000), xs(xs(s)) % 1000);
    }
}

#[test]
fn rng_draws_stay_below_the_bound() {
    let mut r = Rng::new();
    for _ in 0..1000 {
        assert!(r.below(7) < 7);
    }
    assert_eq!(r.below(0), 0);
    assert_eq!(r.below(1), 0);
}

#[test]
fn auto_dim_forces_off_after_the_limit() {
    assert_eq!(auto_dim_level(2, 0, 1_000_000), 2);
    assert_eq!(auto_dim_level(2, 1, 60), 2);
    assert_eq!(auto_dim_level(2, 1, 61), 0);
    assert_eq!(auto_dim_level(9, 1, 10), 2);
    assert_eq!(auto_dim_level(1, 5, 301), 0);
}

#[test]
fn null_driver_writes_fail_and_are_recorded() {
    let mut shared =
        EffectShared::new(NullDriver::new("gone".to_string()), EffectParams::default(), 1000);
    assert_eq!(shared.error, None);
    assert_eq!(shared.started_ms, 1000);
    assert_eq!(shared.set_level(7), Err("gone".to_string()));
    assert_eq!(shared.error.as_deref(), Some("gone"));
    shared.report_error("other".to_string());
    assert_eq!(shared.error.as_deref(), Some("other"));
    assert_eq!(shared.emit(1, 5000), Err("gone".to_string()));
    assert_eq!(shared.error.as_deref(), Some("gone"));
    shared.mark_start(9000);
    assert_eq!(shared.started_ms, 9000);
    let tick = single_tick(Some(5), false, 10);
    assert_eq!(shared.apply_tick(&tick, 9000), Some(Err("gone".to_string())));
    let quiet = single_tick(None, true, 10);
    assert_eq!(shared.apply_tick(&quiet, 9000), None);
}

#[test]
fn power_off_selects_the_off_mode() {
    assert_eq!(effective_mode(false, EffectMode::Storm), EffectMode::Off);
    assert_eq!(effective_mode(true, EffectMode::Storm), EffectMode::Storm);
}

#[test]
fn off_writes_zero_once() {
    let mut st = OffState::new();
    let t = run_off(&mut st);
    assert_eq!(t.level, Some(0));
    assert!(!t.dimmable);
    assert_eq!(t.sleep_ms, 250);
    let t = run_off(&mut st);
    assert_eq!(t.level, None);
}

#[test]
fn static_rewrites_the_clamped_level() {
    let mut p = EffectParams::default();
    p.static_level = 9;
    let t = run_static(&p);
    assert_eq!(t.level, Some(2));
    assert!(t.dimmable);
    assert_eq!(t.sleep_ms, 300);
    assert_eq!(t.sleeps, 1);
    p.static_level = 1;
    assert_eq!(run_static(&p).level, Some(1));
}

#[test]
fn start_effect_picks_the_mode_state() {
    let p = EffectParams::default();
    assert!(matches!(start_effect(EffectMode::Off, &p, 0), ActiveEffect::Off(_)));
    assert!(matches!(start_effect(EffectMode::Breathing, &p, 0), ActiveEffect::Breathing));
    assert!(matches!(start_effect(EffectMode::Audio, &p, 0), ActiveEffect::Audio));
    match start_effect(EffectMode::Morse, &p, 0) {
        ActiveEffect::Morse(m) => {
            assert_eq!(m.i, 0);
            assert_eq!(m.pattern[0], (true, 1));
        }
        _ => panic!("morse expected"),
    }
    match start_effect(EffectMode::Battery, &p, 77) {
        ActiveEffect::Battery(b) => assert_eq!(b.last_poll_ms, 77),
        _ => panic!("battery expected"),
    }
}

/// A driver that remembers the levels it was handed.
struct Recorder {
    levels: Vec<u8>,
    fail: bool,
    results: Vec<Result<(), String>>,
}

fn recorder(fail: bool) -> Recorder {
    Recorder { levels: vec![], fail, results: vec![] }
}

impl BacklightDriver for Recorder {
    fn writes(&self) -> WriteLog {
        panic!("the write log is a proof-only model")
    }

    fn set_brightness(&mut self, level: u8) -> Result<(), String> {
        self.levels.push(level);
        let r = if self.fail { Err(format!("refused {level}")) } else { Ok(()) };
        self.results.push(r.clone());
        r
    }
    fn get_brightness(&self) -> Result<u8, String> {
        Ok(*self.levels.last().unwrap_or(&0))
    }
    fn is_supported(&self) -> bool {
        true
    }
    fn describe(&self) -> String {
        "recorder".to_string()
    }
}

#[test]
fn writes_reach_the_driver_quantized() {
    let mut shared = EffectShared::new(recorder(false), EffectParams::default(), 0);
    assert_eq!(shared.set_level(9), Ok(2));
    assert_eq!(shared.set_level(1), Ok(1));
    assert_eq!(shared.driver.levels, vec![2, 1]);
    assert_eq!(shared.driver.results, vec![Ok(()), Ok(())]);
    assert_eq!(shared.error, None);
}

#[test]
fn auto_dim_turns_the_backlight_off_after_the_limit() {
    let mut p = EffectParams::default();
    p.auto_dim_minutes = 1;
    let mut shared = EffectShared::new(recorder(false), p, 10_000);
    assert_eq!(shared.emit(2, 70_000), Ok(2));
    assert_eq!(shared.emit(2, 70_999), Ok(2));
    assert_eq!(shared.emit(2, 71_000), Ok(0));
    shared.mark_start(71_000);
    assert_eq!(shared.emit(2, 72_000), Ok(2));
    assert_eq!(shared.driver.levels, vec![2, 2, 0, 2]);
}

#[test]
fn failed_writes_keep_their_message_and_successes_keep_the_error() {
    let mut shared = EffectShared::new(recorder(true), EffectParams::default(), 0);
    assert_eq!(shared.set_level(1), Err("refused 1".to_string()));
    assert_eq!(shared.error.as_deref(), Some("refused 1"));
    shared.driver.fail = false;
    assert_eq!(shared.set_level(2), Ok(2));
    assert_eq!(shared.error.as_deref(), Some("refused 1"));
}

#[test]
fn each_tick_makes_at_most_one_write() {
    let mut p = EffectParams::default();
    p.auto_dim_minutes = 1;
    let mut shared = EffectShared::new(recorder(false), p, 0);
    let write = Tick { level: Some(7), dimmable: false, sleep_ms: 100, sleeps: 1 };
    let quiet = Tick { level: None, dimmable: true, sleep_ms: 100, sleeps: 1 };
    let dimmed = Tick { level: Some(2), dimmable: true, sleep_ms: 100, sleeps: 1 };
    assert_eq!(shared.apply_tick(&write, 0), Some(Ok(2)));
    assert_eq!(shared.apply_tick(&quiet, 0), None);
    assert_eq!(shared.apply_tick(&dimmed, 61_000), Some(Ok(0)));
    assert_eq!(shared.apply_tick(&write, 61_000), Some(Ok(2)));
    assert_eq!(shared.driver.levels, vec![2, 0, 2]);
}
