use vstd::prelude::*;

verus! {

/// The failures the core can report.
///
/// - `Format`: an input string does not match the accepted `DATE-TIME` grammar
///   (missing `Z`, missing `TZID=` prefix, a non-numeric field).
/// - `InvalidValue`: numeric fields parse but do not form a valid date or time
///   (month 13, day 32, hour 25, or an nth-weekday request that exceeds the
///   month's occurrence count).
/// - `OffsetOutOfRange`: applying an offset would push a date outside the
///   supported calendar range; a defensive check that cannot fire for
///   in-range modern dates.
#[derive(Clone, Copy, Debug, PartialEq, Eq, Structural)]
pub enum TzError {
    Format,
    InvalidValue,
    OffsetOutOfRange,
}

} // verus!
