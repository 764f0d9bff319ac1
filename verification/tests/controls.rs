use glowfx::autostart::{autostart_file, desktop_entry};
use glowfx::commands::{
    get_status, set_battery_threshold, set_mode, set_power, set_sensitivity, set_speed,
    set_static_level, set_tray_close, toggle_power,
};
use glowfx::effects::battery::BatteryState;
use glowfx::effects::{EffectMode, EffectParams};
use glowfx::tray::{menu_action, TrayAction};

#[test]
fn setters_clamp_their_inputs() {
    let mut p = EffectParams::default();
    set_speed(&mut p, 0);
    assert_eq!(p.speed, 1);
    set_speed(&mut p, 11);
    assert_eq!(p.speed, 10);
    set_speed(&mut p, 5);
    assert_eq!(p.speed, 5);
    set_sensitivity(&mut p, 250);
    assert_eq!(p.sensitivity, 100);
    set_battery_threshold(&mut p, 0);
    assert_eq!(p.battery_threshold, 1);
    set_battery_threshold(&mut p, 101);
    assert_eq!(p.battery_threshold, 100);
    set_static_level(&mut p, 3);
    assert_eq!(p.static_level, 2);
    set_static_level(&mut p, 1);
    assert_eq!(p.static_level, 1);
    set_tray_close(&mut p, false);
    assert!(!p.tray_close);
}

#[test]
fn power_toggles() {
    let mut p = EffectParams::default();
    set_power(&mut p, true);
    assert!(p.power);
    toggle_power(&mut p);
    assert!(!p.power);
    toggle_power(&mut p);
    assert!(p.power);
}

#[test]
fn set_mode_refuses_unknown_names() {
    let mut p = EffectParams::default();
    assert_eq!(set_mode(&mut p, "storm"), Ok(()));
    assert_eq!(p.mode, EffectMode::Storm);
    assert_eq!(set_mode(&mut p, "lava"), Err("unknown mode: lava".to_string()));
    assert_eq!(p.mode, EffectMode::Storm);
}

#[test]
fn status_flags_a_low_battery() {
    let mut p = EffectParams::default();
    p.mode = EffectMode::Audio;
    let s = get_status(
        &p,
        true,
        "/sys/x".to_string(),
        Some("boom".to_string()),
        Some(BatteryState { percent: 15, discharging: true, low: false }),
        false,
        "linux".to_string(),
    );
    assert_eq!(s.mode, "audio");
    assert_eq!(s.interval_ms, 368);
    assert_eq!(s.audio_error.as_deref(), Some("boom"));
    assert_eq!(s.driver_error.as_deref(), Some("boom"));
    assert!(s.battery.unwrap().low);
    assert_eq!(s.os, "linux");
    p.mode = EffectMode::Static;
    let s = get_status(
        &p,
        false,
        "none".to_string(),
        Some("boom".to_string()),
        Some(BatteryState { percent: 21, discharging: true, low: false }),
        true,
        "linux".to_string(),
    );
    assert_eq!(s.audio_error, None);
    assert!(!s.battery.unwrap().low);
    assert!(s.autostart);
}

#[test]
fn tray_entries_map_to_actions() {
    assert_eq!(menu_action("power"), Some(TrayAction::TogglePower));
    assert_eq!(menu_action("mode_morse"), Some(TrayAction::SetMode(EffectMode::Morse)));
    assert_eq!(menu_action("mode_static"), Some(TrayAction::SetMode(EffectMode::Static)));
    assert_eq!(menu_action("mode_disco"), None);
    assert_eq!(menu_action("show"), Some(TrayAction::Show));
    assert_eq!(menu_action("quit"), Some(TrayAction::Quit));
    assert_eq!(menu_action("other"), None);
}

#[test]
fn autostart_entry_location() {
    assert_eq!(autostart_file(Some("/cfg"), Some("/home/u")), "/cfg/autostart/glowfx.desktop");
    assert_eq!(autostart_file(Some("/cfg/"), None), "/cfg/autostart/glowfx.desktop");
    assert_eq!(autostart_file(None, Some("/home/u")), "/home/u/.config/autostart/glowfx.desktop");
    assert_eq!(autostart_file(None, None), "./.config/autostart/glowfx.desktop");
}

#[test]
fn autostart_entry_text() {
    assert_eq!(
        desktop_entry("/opt/glowfx"),
        "[Desktop Entry]\nType=Application\nName=GlowFX\nComment=Lenovo keyboard backlight control\nExec=\"/opt/glowfx\"\nIcon=glowfx\nTerminal=false\nX-GNOME-Autostart-enabled=true\n"
    );
}
