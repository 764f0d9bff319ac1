//! macOS: no supported raw backlight interface for Lenovo keyboard zones.
//! Safe fallback — the driver degrades gracefully and reports `not supported`
//! instead of attempting to poke IOKit / SMC registers it does not own.

use vstd::prelude::*;
use vstd::string::StringExecFns;

use super::NullDriver;

verus! {

/// The reason given on macOS.
pub open spec fn unsupported_text() -> Seq<char> {
    "macOS is not supported by GlowFX (no public Lenovo backlight ACPI interface)"@
}

pub fn detect() -> (d: NullDriver)
    ensures
        d.reason matches Some(why) && why@ == unsupported_text(),
{
    NullDriver::new(
        String::from_str(
            "macOS is not supported by GlowFX (no public Lenovo backlight ACPI interface)",
        ),
    )
}

} // verus!
