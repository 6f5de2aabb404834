use vstd::prelude::*;

use crate::calendar::{Month, UtcOffset, Weekday};

verus! {

/// One annual recurrence: "the `by_day_n`-th `by_day_weekday` of `by_month`,
/// every year". `freq`, `until` and `count` carry the rule's textual frequency
/// and its optional bounds; they are informational and not read by the
/// resolver, which evaluates the rule in the year of the instant it is
/// handed.
pub struct RRule {
    pub freq: String,
    pub until: String,
    pub count: u16,
    pub by_month: Month,
    pub by_day_n: u8,
    pub by_day_weekday: Weekday,
}

/// A named zone that observes an annually recurring daylight-saving period:
/// `std_offset` applies outside the period, `dst_offset` inside it, and the
/// two rules give the transition days, the switch falling at 02:00 on each.
pub struct TimeZone {
    pub id: String,
    pub std_offset: UtcOffset,
    pub dst_offset: UtcOffset,
    pub dst_start: RRule,
    pub dst_end: RRule,
}

impl TimeZone {
    /// Whether the zone's two offsets are well formed.
    pub open spec fn wf(self) -> bool {
        self.std_offset.valid() && self.dst_offset.valid()
    }
}

} // verus!
