//! Linux driver: writes `0|1|2` into `/sys/class/leds/*kbd_backlight/brightness`.
//!
//! The sysfs LED node is a volatile register view of the Embedded Controller;
//! no NVRAM/EEPROM flash updates are ever issued. This module decides which
//! node to use and what to write to and make of it; the file access itself
//! belongs to the platform layer.

use vstd::prelude::*;
use vstd::string::StringExecFns;

use super::{quantize_level, quantized, NullDriver};
use crate::text::{
    chars_of, i32_text, parse_u8, parse_u8_error, parsed_u8, signed_text, trim_bounds, trimmed,
};

verus! {

/// One entry of `/sys/class/leds`: its name, and whether it has a
/// `brightness` file.
pub struct LedEntry {
    pub name: String,
    pub brightness_is_file: bool,
}

/// Whether `sub` occurs in `s`.
pub open spec fn has_infix(s: Seq<char>, sub: Seq<char>) -> bool {
    exists|i: int| 0 <= i && i + sub.len() <= s.len() && #[trigger] s.subrange(i, i + sub.len()) == sub
}

/// Whether `sub` occurs in `s`.
pub fn contains(s: &Vec<char>, sub: &Vec<char>) -> (r: bool)
    ensures
        r == has_infix(s@, sub@),
{
    let n = s.len();
    let m = sub.len();
    if m > n {
        return false;
    }
    let mut i: usize = 0;
    while i <= n - m
        invariant
            m <= n,
            n == s@.len(),
            m == sub@.len(),
            forall|k: int| 0 <= k < i ==> #[trigger] s@.subrange(k, k + m) != sub@,
        decreases n - m + 1 - i,
    {
        let mut j: usize = 0;
        let mut same = true;
        while j < m
            invariant
                m <= n,
                n == s@.len(),
                m == sub@.len(),
                i + m <= n,
                j <= m,
                same == (forall|q: int| 0 <= q < j ==> s@[i + q] == sub@[q]),
            decreases m - j,
        {
            if s[i + j] != sub[j] {
                same = false;
            }
            j = j + 1;
        }
        if same {
            assert(s@.subrange(i as int, i + m) =~= sub@);
            return true;
        }
        proof {
            if s@.subrange(i as int, i + m) == sub@ {
                assert forall|q: int| 0 <= q < m implies s@[i + q] == sub@[q] by {
                    assert(s@.subrange(i as int, i + m)[q] == s@[i + q]);
                }
            }
        }
        i = i + 1;
    }
    proof {
        assert forall|k: int| 0 <= k && k + m <= n implies #[trigger] s@.subrange(k, k + m) != sub@ by {
            assert(k < i);
        }
    }
    false
}

/// The sysfs class directory of the LEDs.
pub open spec fn leds_dir() -> Seq<char> {
    "/sys/class/leds/"@
}

/// The brightness node of the LED named `name`.
pub open spec fn node_path(name: Seq<char>) -> Seq<char> {
    leds_dir() + name + "/brightness"@
}

/// The node of the first entry from position `from` on whose name contains
/// "kbd_backlight" and that has a `brightness` file.
pub open spec fn first_backlight(entries: Seq<LedEntry>, from: int) -> Option<Seq<char>>
    decreases entries.len() - from,
{
    if from < 0 || from >= entries.len() {
        None
    } else if has_infix(entries[from].name@, "kbd_backlight"@)
        && entries[from].brightness_is_file {
        Some(node_path(entries[from].name@))
    } else {
        first_backlight(entries, from + 1)
    }
}

/// The backlight node a listing of `/sys/class/leds` offers (`None` for the
/// listing when the directory is missing or unreadable).
pub open spec fn backlight_in(listing: Option<Seq<LedEntry>>) -> Option<Seq<char>> {
    match listing {
        Some(entries) => first_backlight(entries, 0),
        None => None,
    }
}

/// The view of an optional string.
pub open spec fn opt_str(s: Option<String>) -> Option<Seq<char>> {
    match s {
        Some(t) => Some(t@),
        None => None,
    }
}

/// Find a Lenovo-compatible `*kbd_backlight` LED node in a listing of
/// `/sys/class/leds`.
pub fn find_backlight(listing: &Option<Vec<LedEntry>>) -> (r: Option<String>)
    ensures
        opt_str(r) == backlight_in(
            match listing {
                Some(v) => Some(v@),
                None => None,
            },
        ),
{
    let entries = match listing {
        Some(v) => v,
        None => {
            return None;
        },
    };
    let key = chars_of("kbd_backlight");
    let mut i: usize = 0;
    while i < entries.len()
        invariant
            i <= entries@.len(),
            key@ == "kbd_backlight"@,
            listing matches Some(v) && v@ == entries@,
            first_backlight(entries@, 0) == first_backlight(entries@, i as int),
        decreases entries@.len() - i,
    {
        let name = chars_of(entries[i].name.as_str());
        if contains(&name, &key) && entries[i].brightness_is_file {
            let path = String::from_str("/sys/class/leds/").concat(entries[i].name.as_str()).concat(
                "/brightness",
            );
            return Some(path);
        }
        i = i + 1;
    }
    None
}

/// The path of the detected backlight node, if any.
pub fn detected_path(listing: &Option<Vec<LedEntry>>) -> (r: Option<String>)
    ensures
        opt_str(r) == backlight_in(
            match listing {
                Some(v) => Some(v@),
                None => None,
            },
        ),
{
    find_backlight(listing)
}

/// The reason given when no node is found.
pub open spec fn no_node_text() -> Seq<char> {
    "No *kbd_backlight LED found in /sys/class/leds"@
}

/// The message of a failed write whose I/O error reads `e`.
pub open spec fn write_failed_text(e: Seq<char>) -> Seq<char> {
    "kbd backlight write failed: "@ + e
}

/// The decimal text of a register state.
pub open spec fn digit_text(q: int) -> Seq<char> {
    if q == 0 {
        "0"@
    } else if q == 1 {
        "1"@
    } else {
        "2"@
    }
}

/// The sysfs driver's state: the node it writes, and the last level written.
pub struct LinuxDriver {
    pub path: String,
    pub cache: u8,
}

impl LinuxDriver {
    pub fn new(path: String) -> (d: Self)
        ensures
            d.path == path,
            d.cache == 0,
    {
        LinuxDriver { path, cache: 0 }
    }

    /// The text written to the node for a level: its register state in
    /// decimal.
    pub fn register_text(level: u8) -> (r: String)
        ensures
            r@ == digit_text(quantized(level as int)),
    {
        let q = quantize_level(level);
        if q == 0 {
            String::from_str("0")
        } else if q == 1 {
            String::from_str("1")
        } else {
            String::from_str("2")
        }
    }

    /// The sysfs backend's `set_brightness`. Write `level` to the node
    /// through `write`, which puts the given text
    /// into the node and reports an I/O failure by its message. The level is
    /// quantized and handed over once, in decimal. A success becomes the
    /// cached level; a failure is reported as "kbd backlight write failed: "
    /// followed by the message, and leaves the cache as it was.
    pub fn set_brightness_with<F: FnOnce(String) -> Result<(), String>>(
        &mut self,
        level: u8,
        write: F,
    ) -> (r: Result<(), String>)
        requires
            forall|t: String| call_requires(write, (t,)),
        ensures
            exists|t: String, o: Result<(), String>|
                #![trigger call_ensures(write, (t,), o)]
                t@ == digit_text(quantized(level as int)) && call_ensures(write, (t,), o) && match o {
                    Ok(()) => r is Ok && final(self).cache == quantized(level as int),
                    Err(e) => (r matches Err(m) && m@ == write_failed_text(e@))
                        && final(self).cache == old(self).cache,
                },
            final(self).path == old(self).path,
    {
        let q = quantize_level(level);
        let text = LinuxDriver::register_text(level);
        let ghost sent = text;
        let o = write(text);
        let ghost outcome = o;
        let r = match o {
            Ok(()) => {
                self.cache = q;
                Ok(())
            },
            Err(e) => {
                let mut m = String::from_str("kbd backlight write failed: ");
                m.append(e.as_str());
                Err(m)
            },
        };
        assert(call_ensures(write, (sent,), outcome));
        r
    }

    /// The brightness, from the node's contents (`None` when it could not be
    /// read): the trimmed contents as a number, or the last level written
    /// when the node is unreadable. Contents that are no `u8` give the
    /// standard library's parse error message.
    pub fn get_brightness(&self, contents: Option<String>) -> (r: Result<u8, String>)
        ensures
            match contents {
                None => r == Ok::<u8, String>(self.cache),
                Some(s) => (r is Ok <==> parsed_u8(trimmed(s@)) is Some) && (r matches Ok(v)
                    ==> parsed_u8(trimmed(s@)) == Some(v)),
            },
    {
        match contents {
            None => Ok(self.cache),
            Some(s) => {
                let cs = chars_of(s.as_str());
                let (a, b) = trim_bounds(&cs);
                let t = s.as_str().substring_char(a, b);
                match parse_u8(&chars_of(t)) {
                    Some(v) => Ok(v),
                    None => Err(parse_u8_error(t)),
                }
            },
        }
    }

    pub fn is_supported(&self) -> (r: bool)
        ensures
            r,
    {
        true
    }

    /// The node's path.
    pub fn describe(&self) -> (r: String)
        ensures
            r@ == self.path@,
    {
        self.path.clone()
    }
}

/// What detection found: the sysfs driver on the node, or a null driver that
/// says no node exists.
pub fn detect(found: Option<String>) -> (r: Result<LinuxDriver, NullDriver>)
    ensures
        match found {
            Some(p) => r matches Ok(d) && d.path == p && d.cache == 0,
            None => r matches Err(n) && n.reason matches Some(why) && why@ == no_node_text(),
        },
{
    match found {
        Some(path) => Ok(LinuxDriver::new(path)),
        None => Err(NullDriver::new(String::from_str("No *kbd_backlight LED found in /sys/class/leds"))),
    }
}

/// Read-only probe used by the settings panel: whether the rule is
/// installed, whether the node is writable (a node was found and opened for
/// writing), and the node's path ("—" when there is none).
pub fn udev_state(configured: bool, found: Option<String>, node_opens: bool) -> (r: (bool, bool, String))
    ensures
        r.0 == configured,
        r.1 == (found is Some && node_opens),
        r.2@ == match found {
            Some(p) => p@,
            None => "—"@,
        },
        r.1 ==> r.2@ == found->Some_0@,
{
    let writable = found.is_some() && node_opens;
    let path = match found {
        Some(p) => p,
        None => String::from_str("—"),
    };
    (configured, writable, path)
}


/// The report when the elevated install did not succeed; `code` is the exit
/// code, -1 when the process gave none (it was killed by a signal).
pub open spec fn declined_text(code: int) -> Seq<char> {
    "Permission dialog declined or failed (exit "@ + signed_text(code) + "). Rule was not applied."@
}

/// The report when the rule was installed and the node is now writable.
pub open spec fn installed_text() -> Seq<char> {
    "udev rule installed and brightness is now user-writable."@
}

/// The report when the rule was written but the node is not writable yet.
pub open spec fn written_text() -> Seq<char> {
    "udev rule written; logs or a reboot may be required for the mode to apply."@
}

/// How a udev rule install ended, from how the elevated helper exited
/// (`succeeded`, and its exit code if it had one) and whether the node can
/// be opened for writing afterwards.
pub fn install_outcome(succeeded: bool, exit_code: Option<i32>, writable: bool) -> (r: Result<String, String>)
    ensures
        !succeeded ==> (r matches Err(e) && e@ == declined_text(
            match exit_code {
                Some(c) => c as int,
                None => -1,
            },
        )),
        succeeded ==> (r matches Ok(m) && m@ == if writable {
            installed_text()
        } else {
            written_text()
        }),
{
    if !succeeded {
        let code: i32 = match exit_code {
            Some(c) => c,
            None => -1,
        };
        let mut msg = String::from_str("Permission dialog declined or failed (exit ");
        let num = i32_text(code);
        msg.append(num.as_str());
        msg.append("). Rule was not applied.");
        return Err(msg);
    }
    if writable {
        Ok(String::from_str("udev rule installed and brightness is now user-writable."))
    } else {
        Ok(String::from_str("udev rule written; logs or a reboot may be required for the mode to apply."))
    }
}


/// Where the udev rule is installed.
pub open spec fn rule_path_text() -> Seq<char> {
    "/etc/udev/rules.d/99-lenovo-glowfx.rules"@
}

/// The udev rule: user access to the volatile brightness attribute only.
pub open spec fn rule_text() -> Seq<char> {
    "# GlowFX: grant user access to Lenovo keyboard backlight\n# Targets the volatile sysfs brightness attribute only (MODE=0666).\nSUBSYSTEM==\"leds\", KERNEL==\"*kbd_backlight\", MODE=\"0666\"\n"@
}

/// The refusal when no node exists to grant access to.
pub open spec fn no_backlight_text() -> Seq<char> {
    "No keyboard backlight found under /sys/class/leds"@
}

/// The script the elevated helper runs for the node at `node`: write the
/// rule, reload udev and retrigger the LED subsystem, and open the live
/// nodes to the user.
pub open spec fn install_script_text(node: Seq<char>) -> Seq<char> {
    "set -eu\ninstall -m 0644 /dev/stdin \""@ + rule_path_text() + "\" <<'EOF'\n"@ + rule_text()
        + "\nEOF\nudevadm control --reload-rules 2>/dev/null || true\nudevadm trigger --subsystem-match=leds 2>/dev/null || true\nchmod 0666 \""@
        + node
        + "\" 2>/dev/null || true\nfor f in /sys/class/leds/*kbd_backlight/brightness; do [ -e \"$f\" ] && chmod 0666 \"$f\" || true; done\necho done\n"@
}

/// Where the udev rule is installed.
pub fn udev_rule_path() -> (r: &'static str)
    ensures
        r@ == rule_path_text(),
{
    "/etc/udev/rules.d/99-lenovo-glowfx.rules"
}

/// The udev rule's text.
pub fn udev_rule() -> (r: &'static str)
    ensures
        r@ == rule_text(),
{
    "# GlowFX: grant user access to Lenovo keyboard backlight\n# Targets the volatile sysfs brightness attribute only (MODE=0666).\nSUBSYSTEM==\"leds\", KERNEL==\"*kbd_backlight\", MODE=\"0666\"\n"
}

/// What installing the rule starts from: the script for the node found, or
/// the refusal when there is none, in which case nothing is to be run.
pub fn install_script(found: Option<String>) -> (r: Result<String, String>)
    ensures
        match found {
            Some(p) => r matches Ok(script) && script@ == install_script_text(p@),
            None => r matches Err(e) && e@ == no_backlight_text(),
        },
{
    match found {
        None => Err(String::from_str("No keyboard backlight found under /sys/class/leds")),
        Some(node) => {
            let mut script = String::from_str("set -eu\ninstall -m 0644 /dev/stdin \"");
            script.append(udev_rule_path());
            script.append("\" <<'EOF'\n");
            script.append(udev_rule());
            script.append(
                "\nEOF\nudevadm control --reload-rules 2>/dev/null || true\nudevadm trigger --subsystem-match=leds 2>/dev/null || true\nchmod 0666 \"",
            );
            script.append(node.as_str());
            script.append(
                "\" 2>/dev/null || true\nfor f in /sys/class/leds/*kbd_backlight/brightness; do [ -e \"$f\" ] && chmod 0666 \"$f\" || true; done\necho done\n",
            );
            Ok(script)
        },
    }
}

} // verus!
