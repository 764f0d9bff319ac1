# glowfx

A verified effect engine for single-zone keyboard backlights whose controller
accepts only the brightness states 0, 1 and 2.

- `src/` is the library, checked by Verus:
  - `driver/` — the three register states, the `BacklightDriver` interface
    (whose `set_brightness` only ever receives 0, 1 or 2), the null driver, and
    the decisions of the sysfs (Linux) and WMI (Windows) backends.
  - `effects/` — the effect modes and their names, the tunables, the
    speed-to-interval map, the level range, the xorshift generator, the
    auto-dim override, and one step machine per effect (strobe, blink, candle,
    disco, heartbeat, storm, ripple, radar, Morse, battery guard, schedule,
    idle, off, static). Every step yields a register state and a wait of at
    least 100 ms.
  - `commands.rs`, `tray.rs`, `autostart.rs` — what the UI commands and tray
    entries do, the status snapshot, and the autostart entry.
  - `text.rs` — character-level helpers (trimming, word splitting, case
    mapping, decimal parsing and printing) used by the above.
- `app/` is the desktop program around it: file and WMI access, the effect
  threads and their sleeps, the two floating-point effects (breathing and
  audio), the Tauri commands and the tray.
- `tests/` exercises the library on concrete values.
