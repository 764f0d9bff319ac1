//! Backlight hardware abstraction: the three register states and the
//! driver interface every platform backend implements.

pub mod linux;
pub mod macos;
pub mod windows;

use vstd::prelude::*;
use vstd::string::StringExecFns;

verus! {

/// Shortest time between two writes to the controller (at most 10 Hz).
pub const MIN_INTERVAL_MS: u64 = 100;

/// Soft upper bound for an effect's step interval.
pub const MAX_INTERVAL_MS: u64 = 2000;

/// The register state a requested level maps to: levels above 2 become 2.
pub open spec fn quantized(level: int) -> int {
    if level > 2 {
        2
    } else {
        level
    }
}

/// Clamp a raw level into the only states the controller understands: 0/1/2.
pub fn quantize_level(level: u8) -> (r: u8)
    ensures
        r == quantized(level as int),
        r <= 2,
{
    if level > 2 {
        2
    } else {
        level
    }
}


/// The outcome of one write request: the level handed to the driver and how
/// the write ended.
pub type WriteRecord = (u8, Result<(), String>);

/// A driver's write log: every write it was asked for, in order.
pub type WriteLog = Seq<WriteRecord>;

/// Whether every write in `log` asked for one of the three register states.
pub open spec fn register_log(log: Seq<WriteRecord>) -> bool {
    forall|i: int| 0 <= i < log.len() ==> (#[trigger] log[i]).0 <= 2
}

/// Unified, cross-platform backlight driver.
///
/// Every implementation keeps, as its model, the log of the writes it was
/// asked for and how each ended (`writes`); a write adds exactly one entry
/// and the other methods add none. Implementations inside this library are
/// checked against that; the platform backends outside it are trusted to
/// honour it, which they do by construction since each entry is just one
/// call's own argument and result. The log is a proof-only model: it is
/// never evaluated at run time.
pub trait BacklightDriver: Send + Sync {
    /// Every write this driver was asked for, oldest first.
    spec fn writes(&self) -> Seq<WriteRecord>;

    /// Write a level into the volatile brightness register (levels above 2
    /// are read as 2 by every backend).
    fn set_brightness(&mut self, level: u8) -> (r: Result<(), String>)
        ensures
            final(self).writes() == old(self).writes().push((level, r)),
    ;

    fn get_brightness(&self) -> Result<u8, String>;

    fn is_supported(&self) -> bool;

    fn describe(&self) -> String;
}

/// The message a driver without a usable interface reports.
pub open spec fn unavailable_text() -> Seq<char> {
    "Driver unavailable"@
}

/// The error a null driver gives for a write: its reason, or
/// "Driver unavailable" when it was made without one.
pub open spec fn null_write_error(reason: Option<String>) -> Seq<char> {
    match reason {
        Some(why) => why@,
        None => unavailable_text(),
    }
}

/// Returned when no usable backlight interface could be found.
pub struct NullDriver {
    pub reason: Option<String>,
    /// The writes requested so far.
    pub log: Ghost<Seq<WriteRecord>>,
}

impl Default for NullDriver {
    fn default() -> (d: Self)
        ensures
            d.reason is None,
            d.log@ == Seq::<WriteRecord>::empty(),
    {
        NullDriver { reason: None, log: Ghost(Seq::empty()) }
    }
}

impl NullDriver {
    pub fn new(reason: String) -> (d: Self)
        ensures
            d.reason == Some(reason),
            d.log@ == Seq::<WriteRecord>::empty(),
    {
        NullDriver { reason: Some(reason), log: Ghost(Seq::empty()) }
    }
}

impl BacklightDriver for NullDriver {
    open spec fn writes(&self) -> Seq<WriteRecord> {
        self.log@
    }

    /// Every write fails, at any level, with the reason the driver was made
    /// with; nothing else changes.
    fn set_brightness(&mut self, level: u8) -> (r: Result<(), String>)
        ensures
            r is Err,
            r->Err_0@ == null_write_error(old(self).reason),
            final(self).reason == old(self).reason,
    {
        let r = match &self.reason {
            Some(why) => Err(why.clone()),
            None => Err(String::from_str("Driver unavailable")),
        };
        self.log = Ghost(self.log@.push((level, r)));
        r
    }

    fn get_brightness(&self) -> (r: Result<u8, String>)
        ensures
            r is Err,
            r->Err_0@ == unavailable_text(),
    {
        Err(String::from_str("Driver unavailable"))
    }

    fn is_supported(&self) -> (r: bool)
        ensures
            !r,
    {
        false
    }

    fn describe(&self) -> (r: String)
        ensures
            r@ == "none"@,
    {
        String::from_str("none")
    }
}

} // verus!
