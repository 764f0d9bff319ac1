//! The per-user autostart entry: where it lives and what it says.

use vstd::prelude::*;
use vstd::string::StringExecFns;

verus! {

/// `base` joined with the relative path `rel` the way `Path::join` does: the
/// relative part alone after an empty base, no extra separator after a base
/// ending in '/', one '/' between them otherwise.
pub open spec fn joined(base: Seq<char>, rel: Seq<char>) -> Seq<char> {
    if base.len() == 0 {
        rel
    } else if base.last() == '/' {
        base + rel
    } else {
        base + "/"@ + rel
    }
}

/// Join a relative path onto a base path.
fn join_path(base: &str, rel: &str) -> (r: String)
    ensures
        r@ == joined(base@, rel@),
{
    let n = base.unicode_len();
    if n == 0 {
        String::from_str(rel)
    } else if base.get_char(n - 1) == '/' {
        String::from_str(base).concat(rel)
    } else {
        String::from_str(base).concat("/").concat(rel)
    }
}

/// The directory the autostart entry goes under: `XDG_CONFIG_HOME` when set,
/// else `.config` under `HOME` (under "." when `HOME` is unset too).
pub open spec fn config_base(xdg_config_home: Option<Seq<char>>, home: Option<Seq<char>>) -> Seq<char> {
    match xdg_config_home {
        Some(x) => x,
        None => joined(
            match home {
                Some(h) => h,
                None => "."@,
            },
            ".config"@,
        ),
    }
}

/// The path of the autostart desktop entry, from the values of
/// `XDG_CONFIG_HOME` and `HOME` (`None` when unset).
pub fn autostart_file(xdg_config_home: Option<&str>, home: Option<&str>) -> (r: String)
    ensures
        r@ == joined(
            joined(
                config_base(
                    match xdg_config_home {
                        Some(x) => Some(x@),
                        None => None,
                    },
                    match home {
                        Some(h) => Some(h@),
                        None => None,
                    },
                ),
                "autostart"@,
            ),
            "glowfx.desktop"@,
        ),
{
    let base = match xdg_config_home {
        Some(x) => String::from_str(x),
        None => {
            let h = match home {
                Some(h) => h,
                None => ".",
            };
            join_path(h, ".config")
        },
    };
    let dir = join_path(base.as_str(), "autostart");
    join_path(dir.as_str(), "glowfx.desktop")
}

/// The text of the autostart desktop entry that launches `exe`.
pub open spec fn desktop_entry_text(exe: Seq<char>) -> Seq<char> {
    "[Desktop Entry]\nType=Application\nName=GlowFX\nComment=Lenovo keyboard backlight control\nExec=\""@
        + exe + "\"\nIcon=glowfx\nTerminal=false\nX-GNOME-Autostart-enabled=true\n"@
}

/// The desktop entry that starts the program at `exe` on login.
pub fn desktop_entry(exe: &str) -> (r: String)
    ensures
        r@ == desktop_entry_text(exe@),
{
    String::from_str(
        "[Desktop Entry]\nType=Application\nName=GlowFX\nComment=Lenovo keyboard backlight control\nExec=\"",
    ).concat(exe).concat("\"\nIcon=glowfx\nTerminal=false\nX-GNOME-Autostart-enabled=true\n")
}

} // verus!
