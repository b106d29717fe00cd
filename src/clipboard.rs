//! The change count of the system pasteboard as reported to the front-end.
//!
//! Reading the pasteboard is done by the host; this module decides what the
//! front-end is told about each reading.

use vstd::prelude::*;

verus! {

/// Reported in place of a change count when the pasteboard cannot be reached.
pub const LOOKUP_FAILED: i64 = -1;

/// What the host found when it asked the system for the pasteboard.
#[derive(Clone, Copy, Debug, PartialEq, Eq, Structural)]
pub enum PasteboardReading {
    /// The pasteboard class is not registered with the runtime.
    ClassMissing,
    /// The class is there but handed back no general pasteboard.
    NoPasteboard,
    /// The general pasteboard's change counter.
    ChangeCount(i64),
}

/// The value reported for `reading`.
pub open spec fn reported_change_count(reading: PasteboardReading) -> i64 {
    match reading {
        PasteboardReading::ChangeCount(count) => count,
        _ => LOOKUP_FAILED,
    }
}

/// The change count to report for `reading`: the pasteboard's counter when it
/// was read, and `LOOKUP_FAILED` for every kind of lookup failure.
pub fn clipboard_change_count(reading: PasteboardReading) -> (r: i64)
    ensures
        r == reported_change_count(reading),
        reading is ClassMissing ==> r == -1,
        reading is NoPasteboard ==> r == -1,
{
    match reading {
        PasteboardReading::ChangeCount(count) => count,
        PasteboardReading::ClassMissing => LOOKUP_FAILED,
        PasteboardReading::NoPasteboard => LOOKUP_FAILED,
    }
}

} // verus!
