use glowfx::effects::battery::{
    self, battery_from_wmi, charged_pattern, classify, read_battery, sos_pattern, BatteryEffect,
    BatteryMode, BatteryState, PowerSupply,
};
use glowfx::effects::EffectParams;

fn supply(name: &str, capacity: Option<&str>, status: Option<&str>) -> PowerSupply {
    PowerSupply {
        name: name.to_string(),
        capacity: capacity.map(|s| s.to_string()),
        status: status.map(|s| s.to_string()),
    }
}

fn reading(percent: u32, discharging: bool) -> Option<BatteryState> {
    Some(BatteryState { percent, discharging, low: false })
}

#[test]
fn sos_pattern_spells_sos() {
    assert_eq!(
        sos_pattern(),
        vec![
            2, 2, 0, 0, 2, 2, 0, 0, 2, 2, 0, 0, 2, 2, 2, 0, 2, 2, 2, 0, 2, 2, 2, 0, 2, 2, 0, 0,
            2, 2, 0, 0, 2, 2, 0, 0, 0, 0, 0, 0
        ]
    );
    assert_eq!(charged_pattern(), vec![2, 0, 2, 0, 2, 0, 2, 2, 2, 0, 0, 0, 0]);
}

#[test]
fn classify_uses_the_critical_threshold() {
    assert_eq!(classify(reading(10, true), 20, 10), BatteryMode::Sos);
    assert_eq!(classify(reading(11, true), 20, 10), BatteryMode::Guard);
    assert_eq!(classify(reading(5, true), 5, 10), BatteryMode::Sos);
    assert_eq!(classify(reading(8, true), 5, 10), BatteryMode::Sos);
    assert_eq!(classify(reading(11, true), 5, 10), BatteryMode::Guard);
    assert_eq!(classify(reading(100, false), 20, 10), BatteryMode::Charged);
    assert_eq!(classify(reading(99, false), 20, 10), BatteryMode::Guard);
    assert_eq!(classify(reading(5, false), 20, 10), BatteryMode::Guard);
    assert_eq!(classify(None, 20, 10), BatteryMode::Guard);
}

#[test]
fn guard_holds_the_dim_level() {
    let mut g = BatteryEffect::new(1000);
    assert!(!g.poll_due(2499));
    assert!(g.poll_due(2500));
    assert!(!g.poll_due(10));
    let t = battery::run(&mut g, 2000);
    assert_eq!((t.level, t.sleep_ms, t.dimmable), (Some(1), 1500, true));
}

#[test]
fn sos_steps_every_200ms() {
    let p = EffectParams::default();
    let mut g = BatteryEffect::new(0);
    g.observe(reading(3, true), &p, 1500);
    assert_eq!(g.mode, BatteryMode::Sos);
    assert_eq!(g.last_poll_ms, 1500);
    let t = battery::run(&mut g, 100);
    assert_eq!((t.level, t.sleep_ms), (None, 100));
    let t = battery::run(&mut g, 200);
    assert_eq!(t.level, Some(2));
    assert_eq!(battery::run(&mut g, 300).level, None);
    assert_eq!(battery::run(&mut g, 400).level, Some(2));
    assert_eq!(battery::run(&mut g, 600).level, Some(0));
    assert_eq!(g.pattern_step, 3);
}

#[test]
fn charged_steps_every_250ms() {
    let p = EffectParams::default();
    let mut g = BatteryEffect::new(0);
    g.observe(reading(100, false), &p, 0);
    assert_eq!(battery::run(&mut g, 249).level, None);
    assert_eq!(battery::run(&mut g, 250).level, Some(2));
    assert_eq!(battery::run(&mut g, 500).level, Some(0));
}

#[test]
fn reads_the_first_battery_entry() {
    let v = vec![
        supply("AC", Some("0"), Some("Online")),
        supply("BAT0", Some(" 87\n"), Some("Discharging\n")),
        supply("BAT1", Some("10"), Some("Discharging")),
    ];
    assert_eq!(read_battery(&v), reading(87, true));
    let v = vec![supply("BAT0", Some("140"), Some("Charging"))];
    assert_eq!(read_battery(&v), reading(100, false));
    let v = vec![supply("BAT0", Some("+5"), None)];
    assert_eq!(read_battery(&v), reading(5, false));
}

#[test]
fn unreadable_first_battery_gives_nothing() {
    let v = vec![supply("BAT0", None, Some("Discharging")), supply("BAT1", Some("50"), None)];
    assert_eq!(read_battery(&v), None);
    let v = vec![supply("BAT0", Some("n/a"), None), supply("BAT1", Some("50"), None)];
    assert_eq!(read_battery(&v), None);
    let v = vec![supply("BAT0", Some("99999999999"), None)];
    assert_eq!(read_battery(&v), None);
    assert_eq!(read_battery(&vec![supply("AC", Some("1"), None)]), None);
    assert_eq!(read_battery(&vec![]), None);
}

#[test]
fn wmi_record_maps_to_state() {
    assert_eq!(battery_from_wmi(Some(55), Some(1)), BatteryState { percent: 55, discharging: true, low: false });
    assert_eq!(battery_from_wmi(Some(150), Some(2)), BatteryState { percent: 100, discharging: false, low: false });
    assert_eq!(battery_from_wmi(None, None), BatteryState { percent: 0, discharging: false, low: false });
}
