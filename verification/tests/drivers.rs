use glowfx::text::i32_text;
use glowfx::driver::linux::{self, detected_path, find_backlight, udev_state, LedEntry, LinuxDriver};
use glowfx::driver::windows::{self, endpoint_path, validate_endpoint, wmi_level, WindowsDriver};
use glowfx::driver::{macos, quantize_level, BacklightDriver, NullDriver};

fn led(name: &str, file: bool) -> LedEntry {
    LedEntry { name: name.to_string(), brightness_is_file: file }
}

#[test]
fn quantize_keeps_three_states() {
    assert_eq!(quantize_level(0), 0);
    assert_eq!(quantize_level(1), 1);
    assert_eq!(quantize_level(2), 2);
    assert_eq!(quantize_level(3), 2);
    assert_eq!(quantize_level(255), 2);
}

#[test]
fn finds_a_backlight_node_on_real_hardware() {
    let listing = Some(vec![
        led("input3::capslock", true),
        led("platform::kbd_backlight", true),
        led("other::kbd_backlight", true),
    ]);
    assert_eq!(
        find_backlight(&listing).as_deref(),
        Some("/sys/class/leds/platform::kbd_backlight/brightness")
    );
    assert_eq!(find_backlight(&None), None);
}

#[test]
fn node_needs_a_brightness_file() {
    let listing = Some(vec![led("a::kbd_backlight", false), led("b::kbd_backlight", true)]);
    assert_eq!(
        detected_path(&listing).as_deref(),
        Some("/sys/class/leds/b::kbd_backlight/brightness")
    );
    assert_eq!(detected_path(&Some(vec![led("kbd", true)])), None);
}

#[test]
fn set_brightness_quantizes_to_three_states() {
    assert_eq!(LinuxDriver::register_text(2), "2");
    assert_eq!(LinuxDriver::register_text(0), "0");
    assert_eq!(LinuxDriver::register_text(9), "2");
    let mut driver = LinuxDriver::new("/sys/node".to_string());
    let mut written: Vec<String> = Vec::new();
    assert_eq!(driver.set_brightness_with(7, |t| {
        written.push(t);
        Ok(())
    }), Ok(()));
    assert_eq!(driver.cache, 2);
    assert_eq!(
        driver.set_brightness_with(1, |t| {
            written.push(t);
            Err("Permission denied (os error 13)".to_string())
        }),
        Err("kbd backlight write failed: Permission denied (os error 13)".to_string())
    );
    assert_eq!(driver.cache, 2);
    assert_eq!(driver.set_brightness_with(0, |t| {
        written.push(t);
        Ok(())
    }), Ok(()));
    assert_eq!(driver.cache, 0);
    assert_eq!(written, vec!["2".to_string(), "1".to_string(), "0".to_string()]);
    assert!(driver.is_supported());
    assert_eq!(driver.describe(), "/sys/node");
}

#[test]
fn linux_brightness_reads_the_node() {
    let mut driver = LinuxDriver::new("/n".to_string());
    assert_eq!(driver.get_brightness(Some("2\n".to_string())), Ok(2));
    assert_eq!(driver.get_brightness(None), Ok(0));
    assert_eq!(driver.set_brightness_with(1, |_| Ok(())), Ok(()));
    assert_eq!(driver.get_brightness(None), Ok(1));
    assert_eq!(driver.get_brightness(Some(" +1 ".to_string())), Ok(1));
    assert_eq!(
        driver.get_brightness(Some("x".to_string())),
        Err("invalid digit found in string".to_string())
    );
    assert_eq!(
        driver.get_brightness(Some("300".to_string())),
        Err("number too large to fit in target type".to_string())
    );
    assert_eq!(
        driver.get_brightness(Some(" \n".to_string())),
        Err("cannot parse integer from empty string".to_string())
    );
}

#[test]
fn linux_detection() {
    match linux::detect(Some("/p".to_string())) {
        Ok(d) => assert_eq!(d.path, "/p"),
        Err(_) => panic!("driver expected"),
    }
    match linux::detect(None) {
        Err(n) => assert_eq!(n.reason.as_deref(), Some("No *kbd_backlight LED found in /sys/class/leds")),
        Ok(_) => panic!("null driver expected"),
    }
    assert_eq!(udev_state(true, None, true), (true, false, "—".to_string()));
    assert_eq!(udev_state(false, Some("/p".to_string()), true), (false, true, "/p".to_string()));
    assert_eq!(udev_state(false, Some("/p".to_string()), false), (false, false, "/p".to_string()));
}

#[test]
fn null_driver_reports_its_reason() {
    let mut d = NullDriver::new("no node".to_string());
    assert_eq!(d.set_brightness(1), Err("no node".to_string()));
    assert_eq!(d.set_brightness(200), Err("no node".to_string()));
    assert_eq!(d.get_brightness(), Err("Driver unavailable".to_string()));
    assert!(!d.is_supported());
    assert_eq!(d.describe(), "none");
    let mut d = NullDriver::default();
    assert_eq!(d.set_brightness(0), Err("Driver unavailable".to_string()));
    assert_eq!(d.set_brightness(9), Err("Driver unavailable".to_string()));
}

#[test]
fn windows_driver_model() {
    let mut d = WindowsDriver::new();
    assert_eq!(d.get_brightness(), Ok(2));
    let mut sent: Vec<u8> = Vec::new();
    assert_eq!(d.set_brightness_with(0, |l| {
        sent.push(l);
        Ok(())
    }), Ok(()));
    assert_eq!(d.get_brightness(), Ok(0));
    assert_eq!(
        d.set_brightness_with(9, |l| {
            sent.push(l);
            Err("SetBacklight(2) failed".to_string())
        }),
        Err("SetBacklight(2) failed".to_string())
    );
    assert_eq!(d.get_brightness(), Ok(0));
    assert_eq!(d.set_brightness_with(9, |l| {
        sent.push(l);
        Ok(())
    }), Ok(()));
    assert_eq!(d.get_brightness(), Ok(2));
    assert_eq!(sent, vec![0, 2, 2]);
    assert!(d.is_supported());
    assert_eq!(d.describe(), "root\\WMI:Lenovo_SetBacklight");
    assert_eq!(wmi_level(5), 2);
    assert_eq!(validate_endpoint(Ok(1)), Ok(()));
    assert_eq!(
        validate_endpoint(Ok(0)),
        Err("No Lenovo_SetBacklight instance found; unsupported or driver absent.".to_string())
    );
    assert_eq!(validate_endpoint(Err("e".to_string())), Err("e".to_string()));
    assert_eq!(endpoint_path(&vec!["p1".to_string(), "p2".to_string()]), Ok("p1".to_string()));
    assert!(endpoint_path(&vec![]).is_err());
    assert!(windows::detect(Ok(())).is_ok());
    match windows::detect(Err("x".to_string())) {
        Err(n) => assert_eq!(n.reason.as_deref(), Some("x")),
        Ok(_) => panic!("null driver expected"),
    }
}

#[test]
fn macos_is_unsupported() {
    let d = macos::detect();
    assert_eq!(
        d.reason.as_deref(),
        Some("macOS is not supported by GlowFX (no public Lenovo backlight ACPI interface)")
    );
}

#[test]
fn udev_install_outcomes() {
    assert_eq!(
        linux::install_outcome(false, Some(126), false),
        Err("Permission dialog declined or failed (exit 126). Rule was not applied.".to_string())
    );
    assert_eq!(
        linux::install_outcome(false, None, false),
        Err("Permission dialog declined or failed (exit -1). Rule was not applied.".to_string())
    );
    assert_eq!(
        linux::install_outcome(true, Some(0), true),
        Ok("udev rule installed and brightness is now user-writable.".to_string())
    );
    assert_eq!(
        linux::install_outcome(true, Some(0), false),
        Ok("udev rule written; logs or a reboot may be required for the mode to apply.".to_string())
    );
}

#[test]
fn integers_render_in_decimal() {
    assert_eq!(i32_text(0), "0");
    assert_eq!(i32_text(7), "7");
    assert_eq!(i32_text(10), "10");
    assert_eq!(i32_text(-1), "-1");
    assert_eq!(i32_text(2147483647), "2147483647");
    assert_eq!(i32_text(-2147483648), "-2147483648");
}

#[test]
fn udev_install_script_for_the_node() {
    assert_eq!(
        linux::install_script(None),
        Err("No keyboard backlight found under /sys/class/leds".to_string())
    );
    let path = "/sys/class/leds/platform::kbd_backlight/brightness";
    let rule_path = "/etc/udev/rules.d/99-lenovo-glowfx.rules";
    let rule = "# GlowFX: grant user access to Lenovo keyboard backlight\n# Targets the volatile sysfs brightness attribute only (MODE=0666).\nSUBSYSTEM==\"leds\", KERNEL==\"*kbd_backlight\", MODE=\"0666\"\n";
    assert_eq!(linux::udev_rule_path(), rule_path);
    assert_eq!(linux::udev_rule(), rule);
    let expected = format!(
        "set -eu\ninstall -m 0644 /dev/stdin \"{rule_path}\" <<'EOF'\n{rule}\nEOF\nudevadm control --reload-rules 2>/dev/null || true\nudevadm trigger --subsystem-match=leds 2>/dev/null || true\nchmod 0666 \"{path}\" 2>/dev/null || true\nfor f in /sys/class/leds/*kbd_backlight/brightness; do [ -e \"$f\" ] && chmod 0666 \"$f\" || true; done\necho done\n"
    );
    assert_eq!(linux::install_script(Some(path.to_string())), Ok(expected));
}
