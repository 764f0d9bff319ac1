//! Windows driver: `root\WMI` -> `Lenovo_SetBacklight.SetBacklight(Level)`.
//!
//! This module holds the driver's state and its decisions; the WMI session
//! and method calls belong to the platform layer.

use vstd::prelude::*;
use vstd::string::StringExecFns;

use super::{quantize_level, NullDriver};

verus! {

/// The WMI driver's state: the last level written.
pub struct WindowsDriver {
    pub cache: u8,
}

impl WindowsDriver {
    /// The controller is taken to be at full brightness until written.
    pub fn new() -> (d: Self)
        ensures
            d.cache == 2,
    {
        WindowsDriver { cache: 2 }
    }

    /// The WMI backend's `set_brightness`. Write `level` through `exec_set`,
    /// the `SetBacklight` call: the level
    /// is quantized and handed over once, and the call's outcome is passed
    /// back. A success becomes the cached level; a failure leaves the cache
    /// as it was.
    pub fn set_brightness_with<F: FnOnce(u8) -> Result<(), String>>(
        &mut self,
        level: u8,
        exec_set: F,
    ) -> (r: Result<(), String>)
        requires
            forall|l: u8| call_requires(exec_set, (l,)),
        ensures
            call_ensures(exec_set, (super::quantized(level as int) as u8,), r),
            final(self).cache == if r is Ok {
                super::quantized(level as int) as u8
            } else {
                old(self).cache
            },
    {
        let q = quantize_level(level);
        let r = exec_set(q);
        if r.is_ok() {
            self.cache = q;
        }
        r
    }

    /// The brightness: the last level written.
    pub fn get_brightness(&self) -> (r: Result<u8, String>)
        ensures
            r == Ok::<u8, String>(self.cache),
    {
        Ok(self.cache)
    }

    pub fn is_supported(&self) -> (r: bool)
        ensures
            r,
    {
        true
    }

    pub fn describe(&self) -> (r: String)
        ensures
            r@ == "root\\WMI:Lenovo_SetBacklight"@,
    {
        String::from_str("root\\WMI:Lenovo_SetBacklight")
    }
}

/// The level handed to `SetBacklight` for a requested level.
pub fn wmi_level(level: u8) -> (r: u8)
    ensures
        r == super::quantized(level as int),
{
    quantize_level(level)
}

/// The reason given when the query finds no instance.
pub open spec fn no_instance_text() -> Seq<char> {
    "No Lenovo_SetBacklight instance found; unsupported or driver absent."@
}

/// Judge the probe query for `Lenovo_SetBacklight` instances: a failed query
/// passes its message on, no instance is unsupported, any instance is fine.
pub fn validate_endpoint(instances: Result<usize, String>) -> (r: Result<(), String>)
    ensures
        match instances {
            Err(e) => r == Err::<(), String>(e),
            Ok(n) => if n == 0 {
                r matches Err(e) && e@ == no_instance_text()
            } else {
                r is Ok
            },
        },
{
    match instances {
        Err(e) => Err(e),
        Ok(n) => {
            if n == 0 {
                Err(
                    String::from_str(
                        "No Lenovo_SetBacklight instance found; unsupported or driver absent.",
                    ),
                )
            } else {
                Ok(())
            }
        },
    }
}

/// The reason given when a write finds no instance.
pub open spec fn no_endpoint_text() -> Seq<char> {
    "Lenovo backlight WMI endpoint not present (no Lenovo_SetBacklight instance)"@
}

/// The instance path a write goes to: the first one the query returned.
pub fn endpoint_path(paths: &Vec<String>) -> (r: Result<String, String>)
    ensures
        paths@.len() > 0 ==> (r matches Ok(p) && p@ == paths@[0]@),
        paths@.len() == 0 ==> (r matches Err(e) && e@ == no_endpoint_text()),
{
    if paths.len() > 0 {
        Ok(paths[0].clone())
    } else {
        Err(
            String::from_str(
                "Lenovo backlight WMI endpoint not present (no Lenovo_SetBacklight instance)",
            ),
        )
    }
}

/// What detection found, from the probe's outcome: the WMI driver, or a null
/// driver that carries the probe's error.
pub fn detect(probe: Result<(), String>) -> (r: Result<WindowsDriver, NullDriver>)
    ensures
        match probe {
            Ok(()) => r matches Ok(d) && d.cache == 2,
            Err(e) => r matches Err(n) && n.reason == Some(e),
        },
{
    match probe {
        Ok(()) => Ok(WindowsDriver::new()),
        Err(e) => Err(NullDriver::new(e)),
    }
}

} // verus!
