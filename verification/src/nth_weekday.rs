use vstd::prelude::*;

use crate::calendar::{
    days_before_month, days_before_year, days_in_month, days_in_month_of,
    lemma_days_before_year_bound, weekday_index_of, Date, Month, Weekday,
};
use crate::error::TzError;

verus! {

/// The day of month (1 to 7) of the first day of month `m` of year `y`
/// whose weekday index is `w`.
pub open spec fn first_weekday_day(y: int, m: int, w: int) -> int {
    let r = (days_before_year(y) + days_before_month(y, m)) % 7;
    1 + ((w - r + 7) % 7)
}

/// The day of month of the `n`-th day of month `m` of year `y` whose
/// weekday index is `w`. It may exceed the month's length, in which case
/// that occurrence does not exist.
pub open spec fn nth_weekday_day(n: int, y: int, m: int, w: int) -> int {
    first_weekday_day(y, m, w) + 7 * (n - 1)
}

/// Whether month `month` of year `y` holds an `n`-th occurrence of `wkday`.
pub open spec fn nth_weekday_exists(n: int, y: int, month: Month, wkday: Weekday) -> bool {
    &&& 1 <= y <= 9999
    &&& n >= 1
    &&& nth_weekday_day(n, y, month.as_int(), wkday.index()) <= days_in_month(y, month.as_int())
}

/// The concrete date of the `n`-th occurrence of `wkday` in `month` of
/// `year`: the first day of the month with that weekday, moved forward
/// `n - 1` weeks. Fails when the year is outside the supported range, when
/// `n` is 0, or when the month holds fewer than `n` such days.
pub fn get_nth_weekday(n: u8, year: i32, month: Month, wkday: Weekday) -> (r: Result<
    Date,
    TzError,
>)
    ensures
        r is Ok <==> nth_weekday_exists(n as int, year as int, month, wkday),
        r matches Ok(d) ==> {
            &&& d.valid()
            &&& d.year == year
            &&& d.month == month
            &&& d.day == nth_weekday_day(n as int, year as int, month.as_int(), wkday.index())
            &&& d.weekday_index() == wkday.index()
        },
        r is Err ==> r == Err::<Date, TzError>(TzError::InvalidValue),
{
    if year < 1 || year > 9999 || n < 1 {
        return Err(TzError::InvalidValue);
    }
    let first = Date { year, month, day: 1 };
    let fw = first.weekday().number_days_from_monday();
    let w = wkday.number_days_from_monday();
    let off: u8 = (w + 7 - fw) % 7;
    let day: u32 = 1 + off as u32 + 7 * (n as u32 - 1);
    let dim = days_in_month_of(year, month);
    if day > dim as u32 {
        return Err(TzError::InvalidValue);
    }
    let d = Date { year, month, day: day as u8 };
    proof {
        lemma_nth_day_weekday(n as int, year as int, month.as_int(), wkday.index());
    }
    Ok(d)
}

/// The day `nth_weekday_day` names carries the weekday it was asked for.
proof fn lemma_nth_day_weekday(n: int, y: int, m: int, w: int)
    requires
        1 <= y <= 9999,
        0 <= w < 7,
        n >= 1,
    ensures
        weekday_index_of(y, m, nth_weekday_day(n, y, m, w)) == w,
{
    lemma_days_before_year_bound(y);
    let base = days_before_year(y) + days_before_month(y, m);
    let r = base % 7;
    let off = (w - r + 7) % 7;
    assert(base == 7 * (base / 7) + r);
    assert(0 <= r < 7);
    if w >= r {
        assert(off == w - r);
        assert(base + off + 7 * (n - 1) == 7 * (base / 7 + n - 1) + w);
        lemma_mod_multiple_plus_small(base / 7 + n - 1, w);
    } else {
        assert(off == w - r + 7);
        assert(base + off + 7 * (n - 1) == 7 * (base / 7 + n) + w);
        lemma_mod_multiple_plus_small(base / 7 + n, w);
    }
}

/// A multiple of seven plus a weekday index keeps that index modulo seven.
proof fn lemma_mod_multiple_plus_small(k: int, w: int)
    requires
        0 <= w < 7,
    ensures
        (7 * k + w) % 7 == w,
{
    vstd::arithmetic::div_mod::lemma_mod_multiples_vanish(k, w, 7);
}

/// The law of the rule evaluator: the day returned for occurrence `n` lies
/// in the `n`-th seven-day window of the month, its weekday matches, and a
/// day of the month carries that weekday exactly when it differs from the
/// returned day by a whole number of weeks — the returned day is the `n`-th
/// day of its weekday in the month.
pub proof fn lemma_nth_weekday_is_nth(n: int, y: int, month: Month, wkday: Weekday)
    requires
        nth_weekday_exists(n, y, month, wkday),
    ensures
        ({
            let m = month.as_int();
            let w = wkday.index();
            let nd = nth_weekday_day(n, y, m, w);
            &&& 7 * (n - 1) < nd <= 7 * n
            &&& weekday_index_of(y, m, nd) == w
            &&& forall|d: int|
                1 <= d <= days_in_month(y, m) ==> (weekday_index_of(y, m, d) == w <==> (d - nd) % 7
                    == 0)
        }),
{
    let m = month.as_int();
    let w = wkday.index();
    let nd = nth_weekday_day(n, y, m, w);
    lemma_nth_day_weekday(n, y, m, w);
    let base = days_before_year(y) + days_before_month(y, m);
    assert forall|d: int| 1 <= d <= days_in_month(y, m) implies (weekday_index_of(y, m, d) == w
        <==> (d - nd) % 7 == 0) by {
        let ord_nd = base + nd - 1;
        let ord_d = base + d - 1;
        assert(ord_d == ord_nd + (d - nd));
        vstd::arithmetic::div_mod::lemma_add_mod_noop(ord_nd, d - nd, 7);
        assert(ord_nd % 7 == w);
        assert(0 <= (d - nd) % 7 < 7);
        assert((w + (d - nd) % 7) % 7 == ord_d % 7);
    }
}

} // verus!
