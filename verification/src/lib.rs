//! Resolution of UTC offsets for calendar timestamps in a timezone with an
//! annually recurring daylight-saving rule.
//!
//! The crate has four parts, leaves first:
//! - [`calendar`]: a proleptic Gregorian calendar model (dates, times of day,
//!   UTC offsets) with a day-ordinal spec that the other parts' contracts are
//!   stated over;
//! - [`nth_weekday`]: the recurring-rule evaluator, which turns "the n-th
//!   weekday of a month" into a concrete date;
//! - [`ical`]: the iCalendar `DATE-TIME` tokenizer;
//! - [`resolve`]: the offset resolver, which classifies an instant against a
//!   zone's two transition rules and combines a parsed timestamp with the
//!   resulting offset.

pub mod calendar;
pub mod error;
pub mod ical;
pub mod nth_weekday;
pub mod resolve;
pub mod rrule;
