use vstd::prelude::*;
use vstd::string::StrSliceExecFns;

use crate::calendar::{days_in_month, Date, Month, Time};
use crate::error::TzError;

verus! {

/// Whether `c` is a decimal digit.
pub open spec fn is_digit(c: char) -> bool {
    48 <= c as int <= 57
}

/// The value of a decimal digit.
pub open spec fn digit_val(c: char) -> int {
    c as int - 48
}

/// Whether the `k` characters of `s` from `i` on are all decimal digits.
pub open spec fn digits_at(s: Seq<char>, i: int, k: int) -> bool {
    forall|j: int| i <= j < i + k ==> is_digit(#[trigger] s[j])
}

/// The value of the two-digit field of `s` at `i`.
pub open spec fn two_digit_val(s: Seq<char>, i: int) -> int {
    10 * digit_val(s[i]) + digit_val(s[i + 1])
}

/// The value of the four-digit field of `s` at `i`.
pub open spec fn four_digit_val(s: Seq<char>, i: int) -> int {
    1000 * digit_val(s[i]) + 100 * digit_val(s[i + 1]) + 10 * digit_val(s[i + 2]) + digit_val(
        s[i + 3],
    )
}

/// The position of the first colon of `s` at or after `i`, or -1 if there
/// is none.
pub open spec fn find_colon(s: Seq<char>, i: int) -> int
    decreases s.len() - i,
{
    if i < 0 || i >= s.len() {
        -1
    } else if s[i] == ':' {
        i
    } else {
        find_colon(s, i + 1)
    }
}

/// Whether `s` opens with the literal `TZID=` of the zone-local form.
pub open spec fn has_tzid_prefix(s: Seq<char>) -> bool {
    s.len() >= 5 && s[0] == 'T' && s[1] == 'Z' && s[2] == 'I' && s[3] == 'D' && s[4] == '='
}

/// Where the fixed-width date-time body begins: after the colon that closes
/// a `TZID=` prefix, else at the front.
pub open spec fn body_start(s: Seq<char>) -> int {
    if has_tzid_prefix(s) {
        find_colon(s, 5) + 1
    } else {
        0
    }
}

/// Whether `s` holds a fixed-width `YYYYMMDDTHHMMSS` body at `st`.
pub open spec fn body_wellformed(s: Seq<char>, st: int) -> bool {
    &&& st + 15 <= s.len()
    &&& digits_at(s, st, 8)
    &&& s[st + 8] == 'T'
    &&& digits_at(s, st + 9, 6)
}

/// The accepted grammar: either `TZID=<zone-name>:YYYYMMDDTHHMMSS`, or
/// `YYYYMMDDTHHMMSSZ` with the `Z` mandatory at the sixteenth place.
pub open spec fn wellformed(s: Seq<char>) -> bool {
    if has_tzid_prefix(s) {
        find_colon(s, 5) >= 0 && body_wellformed(s, find_colon(s, 5) + 1)
    } else {
        s.len() >= 16 && s[15] == 'Z' && body_wellformed(s, 0)
    }
}

/// The year field of a well-formed string.
pub open spec fn parsed_year(s: Seq<char>) -> int {
    four_digit_val(s, body_start(s))
}

/// The month field of a well-formed string.
pub open spec fn parsed_month(s: Seq<char>) -> int {
    two_digit_val(s, body_start(s) + 4)
}

/// The day field of a well-formed string.
pub open spec fn parsed_day(s: Seq<char>) -> int {
    two_digit_val(s, body_start(s) + 6)
}

/// The hour field of a well-formed string.
pub open spec fn parsed_hour(s: Seq<char>) -> int {
    two_digit_val(s, body_start(s) + 9)
}

/// The minute field of a well-formed string.
pub open spec fn parsed_minute(s: Seq<char>) -> int {
    two_digit_val(s, body_start(s) + 11)
}

/// The second field of a well-formed string.
pub open spec fn parsed_second(s: Seq<char>) -> int {
    two_digit_val(s, body_start(s) + 13)
}

/// Whether the numeric fields of a well-formed string form a real calendar
/// day and time of day.
pub open spec fn in_range(s: Seq<char>) -> bool {
    &&& 1 <= parsed_year(s)
    &&& 1 <= parsed_month(s) <= 12
    &&& 1 <= parsed_day(s) <= days_in_month(parsed_year(s), parsed_month(s))
    &&& parsed_hour(s) < 24
    &&& parsed_minute(s) < 60
    &&& parsed_second(s) < 60
}

/// The date a well-formed, in-range string names.
pub open spec fn parsed_date(s: Seq<char>) -> Date {
    Date {
        year: parsed_year(s) as i32,
        month: Month::from_int(parsed_month(s)),
        day: parsed_day(s) as u8,
    }
}

/// The time of day a well-formed, in-range string names.
pub open spec fn parsed_time(s: Seq<char>) -> Time {
    Time {
        hour: parsed_hour(s) as u8,
        minute: parsed_minute(s) as u8,
        second: parsed_second(s) as u8,
    }
}

/// A tokenized `DATE-TIME`: a calendar date, a time of day, and either the
/// name of the zone whose wall clock the reading is on, or nothing for an
/// absolute UTC reading.
#[derive(Debug, PartialEq, Eq)]
pub struct ParsedTimestamp {
    pub date: Date,
    pub time: Time,
    pub zone: Option<String>,
}

impl ParsedTimestamp {
    /// Whether the reading is zone-local wall-clock time.
    pub open spec fn is_local_spec(self) -> bool {
        self.zone is Some
    }

    /// Whether the reading is zone-local wall-clock time.
    pub fn is_local(&self) -> (b: bool)
        ensures
            b == self.is_local_spec(),
    {
        self.zone.is_some()
    }
}

/// Reads the two-digit field of `s` at `i`; nothing unless both characters
/// are digits.
fn read_two(s: &str, i: usize) -> (r: Option<u8>)
    requires
        i + 2 <= s@.len() <= usize::MAX,
    ensures
        r is Some <==> digits_at(s@, i as int, 2),
        r matches Some(v) ==> v == two_digit_val(s@, i as int),
{
    let u0 = s.get_char(i) as u32;
    let u1 = s.get_char(i + 1) as u32;
    if 48 <= u0 && u0 <= 57 && 48 <= u1 && u1 <= 57 {
        assert(digits_at(s@, i as int, 2)) by {
            assert forall|j: int| i <= j < i + 2 implies is_digit(#[trigger] s@[j]) by {
                assert(j == i || j == i + 1);
            }
        }
        Some(((u0 - 48) * 10 + (u1 - 48)) as u8)
    } else {
        assert(!digits_at(s@, i as int, 2)) by {
            assert(!is_digit(s@[i as int]) || !is_digit(s@[i as int + 1]));
        }
        None
    }
}

/// Reads the four-digit field of `s` at `i`; nothing unless all four
/// characters are digits.
fn read_four(s: &str, i: usize) -> (r: Option<u16>)
    requires
        i + 4 <= s@.len() <= usize::MAX,
    ensures
        r is Some <==> digits_at(s@, i as int, 4),
        r matches Some(v) ==> v == four_digit_val(s@, i as int) && v <= 9999,
{
    let u0 = s.get_char(i) as u32;
    let u1 = s.get_char(i + 1) as u32;
    let u2 = s.get_char(i + 2) as u32;
    let u3 = s.get_char(i + 3) as u32;
    if 48 <= u0 && u0 <= 57 && 48 <= u1 && u1 <= 57 && 48 <= u2 && u2 <= 57 && 48 <= u3 && u3
        <= 57 {
        assert(digits_at(s@, i as int, 4)) by {
            assert forall|j: int| i <= j < i + 4 implies is_digit(#[trigger] s@[j]) by {
                assert(j == i || j == i + 1 || j == i + 2 || j == i + 3);
            }
        }
        Some(((u0 - 48) * 1000 + (u1 - 48) * 100 + (u2 - 48) * 10 + (u3 - 48)) as u16)
    } else {
        assert(!digits_at(s@, i as int, 4)) by {
            assert(!is_digit(s@[i as int]) || !is_digit(s@[i as int + 1]) || !is_digit(
                s@[i as int + 2],
            ) || !is_digit(s@[i as int + 3]));
        }
        None
    }
}

/// Tokenizes an iCalendar `DATE-TIME` string. The two accepted forms are
/// `TZID=<zone-name>:YYYYMMDDTHHMMSS`, a zone-local wall-clock reading
/// whose zone name is recorded as a lookup key, and `YYYYMMDDTHHMMSSZ`, an
/// absolute UTC reading. A string outside the grammar is a format error; a
/// numeric field outside calendar range is an invalid-value error.
pub fn parse(s: &str) -> (r: Result<ParsedTimestamp, TzError>)
    ensures
        r is Ok <==> wellformed(s@) && in_range(s@),
        r matches Ok(pt) ==> {
            &&& pt.date == parsed_date(s@)
            &&& pt.time == parsed_time(s@)
            &&& pt.date.valid()
            &&& pt.time.valid()
            &&& pt.is_local_spec() == has_tzid_prefix(s@)
            &&& (pt.zone matches Some(z) ==> z@ == s@.subrange(5, find_colon(s@, 5)))
        },
        r == Err::<ParsedTimestamp, TzError>(TzError::Format) <==> !wellformed(s@),
        r == Err::<ParsedTimestamp, TzError>(TzError::InvalidValue) <==> wellformed(s@)
            && !in_range(s@),
{
    let n = s.unicode_len();
    let is_tzid = n >= 5 && s.get_char(0) == 'T' && s.get_char(1) == 'Z' && s.get_char(2) == 'I'
        && s.get_char(3) == 'D' && s.get_char(4) == '=';
    let mut start: usize = 0;
    let mut zone: Option<String> = None;
    if is_tzid {
        let mut i: usize = 5;
        let mut colon: usize = 0;
        let mut found = false;
        while i < n && !found
            invariant
                5 <= i <= n,
                n == s@.len(),
                !found ==> find_colon(s@, 5) == find_colon(s@, i as int),
                found ==> 5 <= colon < n && find_colon(s@, 5) == colon && s@[colon as int] == ':',
            decreases n - i + (if found { 0int } else { 1 }),
        {
            if s.get_char(i) == ':' {
                found = true;
                colon = i;
            } else {
                i = i + 1;
            }
        }
        if !found {
            return Err(TzError::Format);
        }
        zone = Some(s.substring_char(5, colon).to_owned());
        start = colon + 1;
    } else {
        if n < 16 {
            return Err(TzError::Format);
        }
        if s.get_char(15) != 'Z' {
            return Err(TzError::Format);
        }
    }
    if n - start < 15 {
        return Err(TzError::Format);
    }
    if s.get_char(start + 8) != 'T' {
        return Err(TzError::Format);
    }
    let year = match read_four(s, start) {
        Some(v) => v,
        None => {
            return Err(TzError::Format);
        },
    };
    let month_num = match read_two(s, start + 4) {
        Some(v) => v,
        None => {
            return Err(TzError::Format);
        },
    };
    let day = match read_two(s, start + 6) {
        Some(v) => v,
        None => {
            return Err(TzError::Format);
        },
    };
    let hour = match read_two(s, start + 9) {
        Some(v) => v,
        None => {
            return Err(TzError::Format);
        },
    };
    let minute = match read_two(s, start + 11) {
        Some(v) => v,
        None => {
            return Err(TzError::Format);
        },
    };
    let second = match read_two(s, start + 13) {
        Some(v) => v,
        None => {
            return Err(TzError::Format);
        },
    };
    assert(wellformed(s@)) by {
        assert(digits_at(s@, start as int, 8)) by {
            assert forall|j: int| start <= j < start + 8 implies is_digit(#[trigger] s@[j]) by {
                if j < start + 4 {
                    assert(digits_at(s@, start as int, 4));
                } else if j < start + 6 {
                    assert(digits_at(s@, start as int + 4, 2));
                } else {
                    assert(digits_at(s@, start as int + 6, 2));
                }
            }
        }
        assert(digits_at(s@, start as int + 9, 6)) by {
            assert forall|j: int| start + 9 <= j < start + 15 implies is_digit(
                #[trigger] s@[j],
            ) by {
                if j < start + 11 {
                    assert(digits_at(s@, start as int + 9, 2));
                } else if j < start + 13 {
                    assert(digits_at(s@, start as int + 11, 2));
                } else {
                    assert(digits_at(s@, start as int + 13, 2));
                }
            }
        }
    };
    let month = match Month::from_number(month_num) {
        Some(m) => m,
        None => {
            return Err(TzError::InvalidValue);
        },
    };
    let date = match Date::from_calendar_date(year as i32, month, day) {
        Ok(d) => d,
        Err(e) => {
            return Err(e);
        },
    };
    let time = match Time::from_hms(hour, minute, second) {
        Ok(t) => t,
        Err(e) => {
            return Err(e);
        },
    };
    Ok(ParsedTimestamp { date, time, zone })
}

} // verus!
