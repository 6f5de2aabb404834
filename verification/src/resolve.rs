use vstd::prelude::*;

use crate::calendar::{
    datetime_sec, datetime_seconds, day_ordinal, days_before_year, lemma_ordinal_bound, next_date,
    prev_date, Date, Time, UtcOffset,
};
use crate::error::TzError;
use crate::ical::{has_tzid_prefix, in_range, parse, parsed_date, parsed_time, wellformed};
use crate::nth_weekday::{get_nth_weekday, nth_weekday_day, nth_weekday_exists};
use crate::rrule::{RRule, TimeZone};

verus! {

/// Whether a rule names an occurrence that exists in year `y`.
pub open spec fn rule_applies(rule: RRule, y: int) -> bool {
    nth_weekday_exists(rule.by_day_n as int, y, rule.by_month, rule.by_day_weekday)
}

/// The wall-clock second ordinal of the rule's transition moment in year
/// `y`: 02:00 on the rule's computed day.
pub open spec fn transition_wall_sec(rule: RRule, y: int) -> int {
    day_ordinal(
        y,
        rule.by_month.as_int(),
        nth_weekday_day(rule.by_day_n as int, y, rule.by_month.as_int(), rule.by_day_weekday.index()),
    ) * 86400 + 7200
}

/// The anchor offset the comparison instants are built with: a zone-local
/// wall-clock reading is compared against the transitions as plain
/// wall-clock values, a UTC reading against the transitions placed at the
/// zone's standard offset — the boundary is a civil rule, stated in
/// standard time.
pub open spec fn anchor_seconds(local: bool, tz: TimeZone) -> int {
    if local {
        0
    } else {
        tz.std_offset.seconds as int
    }
}

/// What the resolver returns. Both transition days are constructed first,
/// and a rule that names an occurrence its month does not hold fails the
/// whole resolution, whatever the reading. Then the reading (taken at
/// offset zero) is compared, in chronological order of the year, against
/// the two transition instants built in the year of the input: standard
/// time applies before the start transition and from the end transition
/// on, daylight-saving time between them. An instant exactly at a
/// transition belongs to the regime the transition introduces.
pub open spec fn spec_resolve(date: Date, time: Time, local: bool, tz: TimeZone) -> Result<
    UtcOffset,
    TzError,
> {
    let c = datetime_sec(date, time);
    let y = date.year as int;
    let anchor = anchor_seconds(local, tz);
    if !rule_applies(tz.dst_start, y) || !rule_applies(tz.dst_end, y) {
        Err(TzError::InvalidValue)
    } else if c < transition_wall_sec(tz.dst_start, y) - anchor {
        Ok(tz.std_offset)
    } else if c < transition_wall_sec(tz.dst_end, y) - anchor {
        Ok(tz.dst_offset)
    } else {
        Ok(tz.std_offset)
    }
}

impl TimeZone {
    /// The UTC offset the zone applies to the given reading. `local` says
    /// which clock the reading is on: the zone's own wall clock, or UTC.
    /// Fails when a transition rule names an occurrence its month does not
    /// hold in the reading's year.
    pub fn get_tz_offset(date: Date, time: Time, local: bool, tz: &TimeZone) -> (r: Result<
        UtcOffset,
        TzError,
    >)
        requires
            date.valid(),
            time.valid(),
            tz.wf(),
        ensures
            r == spec_resolve(date, time, local, *tz),
    {
        let checking = datetime_seconds(date, time);
        let anchor: i64 = if local {
            0
        } else {
            tz.std_offset.seconds as i64
        };
        let two = Time { hour: 2, minute: 0, second: 0 };

        let start_date = match get_nth_weekday(
            tz.dst_start.by_day_n,
            date.year,
            tz.dst_start.by_month,
            tz.dst_start.by_day_weekday,
        ) {
            Ok(d) => d,
            Err(_) => {
                return Err(TzError::InvalidValue);
            },
        };
        let end_date = match get_nth_weekday(
            tz.dst_end.by_day_n,
            date.year,
            tz.dst_end.by_month,
            tz.dst_end.by_day_weekday,
        ) {
            Ok(d) => d,
            Err(_) => {
                return Err(TzError::InvalidValue);
            },
        };
        let start_instant = datetime_seconds(start_date, two) - anchor;
        if checking < start_instant {
            return Ok(tz.std_offset);
        }
        let end_instant = datetime_seconds(end_date, two) - anchor;
        if checking < end_instant {
            return Ok(tz.dst_offset);
        }
        Ok(tz.std_offset)
    }
}

/// Purity of resolution: the resolver's contract pins its result to
/// `spec_resolve`, a function of the inputs alone, so two resolutions of
/// one `(date, time, local, tz)` tuple return the same result.
pub proof fn lemma_resolve_deterministic(
    date: Date,
    time: Time,
    local: bool,
    tz: TimeZone,
    r1: Result<UtcOffset, TzError>,
    r2: Result<UtcOffset, TzError>,
)
    requires
        r1 == spec_resolve(date, time, local, tz),
        r2 == spec_resolve(date, time, local, tz),
    ensures
        r1 == r2,
{
}

/// The tie-break at the start boundary: a reading exactly at the start
/// transition's comparison moment already belongs to the daylight-saving
/// period — the comparisons are strict, so the moment a transition names
/// gets the regime that the transition introduces.
pub proof fn lemma_transition_boundary_start(date: Date, time: Time, local: bool, tz: TimeZone)
    requires
        rule_applies(tz.dst_start, date.year as int),
        rule_applies(tz.dst_end, date.year as int),
        datetime_sec(date, time) == transition_wall_sec(tz.dst_start, date.year as int)
            - anchor_seconds(local, tz),
        datetime_sec(date, time) < transition_wall_sec(tz.dst_end, date.year as int)
            - anchor_seconds(local, tz),
    ensures
        spec_resolve(date, time, local, tz) == Ok::<UtcOffset, TzError>(tz.dst_offset),
{
}

/// The tie-break at the end boundary: a reading exactly at the end
/// transition's comparison moment is already on standard time, by the same
/// strict comparisons.
pub proof fn lemma_transition_boundary_end(date: Date, time: Time, local: bool, tz: TimeZone)
    requires
        rule_applies(tz.dst_start, date.year as int),
        rule_applies(tz.dst_end, date.year as int),
        datetime_sec(date, time) == transition_wall_sec(tz.dst_end, date.year as int)
            - anchor_seconds(local, tz),
        datetime_sec(date, time) >= transition_wall_sec(tz.dst_start, date.year as int)
            - anchor_seconds(local, tz),
    ensures
        spec_resolve(date, time, local, tz) == Ok::<UtcOffset, TzError>(tz.std_offset),
{
}

/// Agreement of the two readings of one instant: a UTC reading and the
/// zone-local wall-clock reading of the same instant — the local reading is
/// the UTC one moved by the offset the zone applies to it — resolve to the
/// same offset whenever the instant straddles no transition. In a zone
/// whose daylight-saving offset is ahead of its standard offset, the only
/// instants that straddle one are those of the repeated hour: the
/// stretch of the standard/DST delta just before the end transition, where
/// the local rendering already reads past 02:00 while the instant, held
/// against standard time, has not reached it. The skipped hour at the
/// start transition excludes no instant: no consistently rendered instant
/// lands in it, so the start side needs no proviso.
pub proof fn lemma_same_instant_same_offset(
    utc_date: Date,
    utc_time: Time,
    local_date: Date,
    local_time: Time,
    tz: TimeZone,
    off: UtcOffset,
)
    requires
        tz.std_offset.seconds <= tz.dst_offset.seconds,
        spec_resolve(utc_date, utc_time, false, tz) == Ok::<UtcOffset, TzError>(off),
        datetime_sec(local_date, local_time) == datetime_sec(utc_date, utc_time) + off.seconds,
        local_date.year == utc_date.year,
        datetime_sec(local_date, local_time) < transition_wall_sec(tz.dst_end, utc_date.year as int)
            || datetime_sec(utc_date, utc_time) >= transition_wall_sec(
            tz.dst_end,
            utc_date.year as int,
        ) - tz.std_offset.seconds,
    ensures
        spec_resolve(local_date, local_time, true, tz) == Ok::<UtcOffset, TzError>(off),
{
}

/// A wall-clock reading moved by a whole-second offset: the result is the
/// reading `offset.seconds` later (earlier when the offset is negative) on
/// the same continuous clock. Fails only when the moved reading leaves the
/// supported calendar range.
pub fn apply_offset(date: Date, time: Time, offset: UtcOffset) -> (r: Result<
    (Date, Time),
    TzError,
>)
    requires
        date.valid(),
        time.valid(),
        offset.valid(),
    ensures
        r is Ok <==> 0 <= datetime_sec(date, time) + offset.seconds < days_before_year(10000)
            * 86400,
        r matches Ok((d, t)) ==> d.valid() && t.valid() && datetime_sec(d, t) == datetime_sec(
            date,
            time,
        ) + offset.seconds,
        r is Err ==> r == Err::<(Date, Time), TzError>(TzError::OffsetOutOfRange),
{
    proof {
        lemma_ordinal_bound(date);
    }
    let sod: i32 = time.hour as i32 * 3600 + time.minute as i32 * 60 + time.second as i32;
    let tot: i32 = sod + offset.seconds;
    let moved: (Date, i32) = if tot < 0 {
        match prev_date(date) {
            Ok(d) => (d, tot + 86400),
            Err(e) => {
                return Err(e);
            },
        }
    } else if tot >= 86400 {
        match next_date(date) {
            Ok(d) => (d, tot - 86400),
            Err(e) => {
                return Err(e);
            },
        }
    } else {
        (date, tot)
    };
    let (d2, new_sod) = moved;
    proof {
        lemma_ordinal_bound(d2);
    }
    let ns: u32 = new_sod as u32;
    let rem: u32 = ns % 3600;
    let t2 = Time { hour: (ns / 3600) as u8, minute: (rem / 60) as u8, second: (rem % 60) as u8 };
    Ok((d2, t2))
}

/// A fully determined absolute instant: a calendar reading together with
/// the UTC offset under which it is to be read.
#[derive(Clone, Copy, Debug, PartialEq, Eq, Structural)]
pub struct ResolvedInstant {
    pub date: Date,
    pub time: Time,
    pub offset: UtcOffset,
}

/// Parses an iCalendar `DATE-TIME` string and resolves it against the given
/// zone. A zone-local reading keeps its wall-clock fields and gains the
/// offset the zone applies to them; a UTC reading is moved onto the zone's
/// wall clock, so its fields shift by the resolved offset. The zone record
/// is handed in by the caller, who looks the zone name up in whatever
/// database stands behind it.
pub fn offset_date_time_from_ical(ical_str: &str, tz: &TimeZone) -> (r: Result<
    ResolvedInstant,
    TzError,
>)
    requires
        tz.wf(),
    ensures
        ({
            let s = ical_str@;
            &&& (r == Err::<ResolvedInstant, TzError>(TzError::Format) <==> !wellformed(s))
            &&& (wellformed(s) && !in_range(s) ==> r == Err::<ResolvedInstant, TzError>(
                TzError::InvalidValue,
            ))
            &&& (wellformed(s) && in_range(s) ==> {
                let d = parsed_date(s);
                let t = parsed_time(s);
                let local = has_tzid_prefix(s);
                match spec_resolve(d, t, local, *tz) {
                    Err(e) => r == Err::<ResolvedInstant, TzError>(e),
                    Ok(off) => if local {
                        r == Ok::<ResolvedInstant, TzError>(
                            ResolvedInstant { date: d, time: t, offset: off },
                        )
                    } else if 0 <= datetime_sec(d, t) + off.seconds < days_before_year(10000)
                        * 86400 {
                        r matches Ok(ri) && ri.offset == off && ri.date.valid() && ri.time.valid()
                            && datetime_sec(ri.date, ri.time) == datetime_sec(d, t) + off.seconds
                    } else {
                        r == Err::<ResolvedInstant, TzError>(TzError::OffsetOutOfRange)
                    },
                }
            })
        }),
{
    let pt = match parse(ical_str) {
        Ok(pt) => pt,
        Err(e) => {
            return Err(e);
        },
    };
    let local = pt.is_local();
    let off = match TimeZone::get_tz_offset(pt.date, pt.time, local, tz) {
        Ok(o) => o,
        Err(e) => {
            return Err(e);
        },
    };
    if local {
        Ok(ResolvedInstant { date: pt.date, time: pt.time, offset: off })
    } else {
        match apply_offset(pt.date, pt.time, off) {
            Ok((d2, t2)) => Ok(ResolvedInstant { date: d2, time: t2, offset: off }),
            Err(e) => Err(e),
        }
    }
}

} // verus!
