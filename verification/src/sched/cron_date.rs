//! A mutable wall-clock date with clamped field setters and unit-aligned
//! advancement, together with its mathematical model.

use vstd::prelude::*;

verus! {

/// The mathematical model of a wall-clock date: one integer per field.
pub ghost struct DateSpec {
    pub year: int,
    pub month: int,
    pub day: int,
    pub hour: int,
    pub minute: int,
    pub second: int,
    pub nanos: int,
}

/// Units a date can be advanced by or aligned to.
pub enum TimeUnit {
    Year,
    Month,
    Day,
    Hour,
    Minute,
    Second,
}

/// Day of the week.
#[derive(Clone, Copy, Debug, PartialEq, Eq, Structural)]
pub enum Weekday {
    Mon,
    Tue,
    Wed,
    Thu,
    Fri,
    Sat,
    Sun,
}

pub open spec fn is_leap_year_of(y: int) -> bool {
    (y % 4 == 0 && y % 100 != 0) || y % 400 == 0
}

/// Number of days of month `m` of year `y`, for `m` in `1..=12`.
pub open spec fn days_in_month_of(y: int, m: int) -> int {
    if m == 2 {
        if is_leap_year_of(y) {
            29
        } else {
            28
        }
    } else if m == 4 || m == 6 || m == 9 || m == 11 {
        30
    } else {
        31
    }
}

/// A well-formed wall-clock date. Nanoseconds run to two billion to leave
/// room for a leap second, as the setters allow.
pub open spec fn date_valid(d: DateSpec) -> bool {
    &&& i32::MIN <= d.year <= i32::MAX
    &&& 1 <= d.month <= 12
    &&& 1 <= d.day <= days_in_month_of(d.year, d.month)
    &&& 0 <= d.hour <= 23
    &&& 0 <= d.minute <= 59
    &&& 0 <= d.second <= 59
    &&& 0 <= d.nanos < 2_000_000_000
}

/// Strict lexicographic order on dates, coarsest field first.
pub open spec fn date_lt(a: DateSpec, b: DateSpec) -> bool {
    if a.year != b.year {
        a.year < b.year
    } else if a.month != b.month {
        a.month < b.month
    } else if a.day != b.day {
        a.day < b.day
    } else if a.hour != b.hour {
        a.hour < b.hour
    } else if a.minute != b.minute {
        a.minute < b.minute
    } else if a.second != b.second {
        a.second < b.second
    } else {
        a.nanos < b.nanos
    }
}

/// The instant one day later, aligned to the start of that day.
pub open spec fn date_add_day_spec(d: DateSpec) -> DateSpec {
    if d.day < days_in_month_of(d.year, d.month) {
        DateSpec { day: d.day + 1, hour: 0, minute: 0, second: 0, nanos: 0, ..d }
    } else if d.month < 12 {
        DateSpec { month: d.month + 1, day: 1, hour: 0, minute: 0, second: 0, nanos: 0, ..d }
    } else {
        DateSpec {
            year: d.year + 1,
            month: 1,
            day: 1,
            hour: 0,
            minute: 0,
            second: 0,
            nanos: 0,
            ..d
        }
    }
}

/// The instant one hour later, aligned to the start of that hour.
pub open spec fn date_add_hour_spec(d: DateSpec) -> DateSpec {
    if d.hour < 23 {
        DateSpec { hour: d.hour + 1, minute: 0, second: 0, nanos: 0, ..d }
    } else {
        date_add_day_spec(d)
    }
}

/// The instant one minute later, aligned to the start of that minute.
pub open spec fn date_add_minute_spec(d: DateSpec) -> DateSpec {
    if d.minute < 59 {
        DateSpec { minute: d.minute + 1, second: 0, nanos: 0, ..d }
    } else {
        date_add_hour_spec(d)
    }
}

/// The instant one second later, aligned to that second.
pub open spec fn date_add_second_spec(d: DateSpec) -> DateSpec {
    if d.second < 59 {
        DateSpec { second: d.second + 1, nanos: 0, ..d }
    } else {
        date_add_minute_spec(d)
    }
}

/// The start of the next month.
pub open spec fn date_add_month_spec(d: DateSpec) -> DateSpec {
    if d.month < 12 {
        DateSpec { month: d.month + 1, day: 1, hour: 0, minute: 0, second: 0, nanos: 0, ..d }
    } else {
        DateSpec {
            year: d.year + 1,
            month: 1,
            day: 1,
            hour: 0,
            minute: 0,
            second: 0,
            nanos: 0,
            ..d
        }
    }
}

/// The start of the next year.
pub open spec fn date_add_year_spec(d: DateSpec) -> DateSpec {
    DateSpec { year: d.year + 1, month: 1, day: 1, hour: 0, minute: 0, second: 0, nanos: 0, ..d }
}

/// Days in years `1..y` (negative for years before 1), proleptic Gregorian.
pub open spec fn days_before_year(y: int) -> int {
    365 * (y - 1) + (y - 1) / 4 - (y - 1) / 100 + (y - 1) / 400
}

/// Days in months `1..m` of year `y`.
pub open spec fn days_before_month(y: int, m: int) -> int {
    let plain: int = if m == 1 {
        0
    } else if m == 2 {
        31
    } else if m == 3 {
        59
    } else if m == 4 {
        90
    } else if m == 5 {
        120
    } else if m == 6 {
        151
    } else if m == 7 {
        181
    } else if m == 8 {
        212
    } else if m == 9 {
        243
    } else if m == 10 {
        273
    } else if m == 11 {
        304
    } else {
        334
    };
    if m > 2 && is_leap_year_of(y) {
        plain + 1
    } else {
        plain
    }
}

/// Days between 0001-01-01 and the given date (0 for 0001-01-01 itself).
pub open spec fn day_index(d: DateSpec) -> int {
    days_before_year(d.year) + days_before_month(d.year, d.month) + d.day - 1
}

/// Day of the week counted from Sunday: `0 = Sunday`, ..., `6 = Saturday`.
/// 0001-01-01 of the proleptic Gregorian calendar is a Monday.
pub open spec fn dow_of(d: DateSpec) -> int {
    (day_index(d) + 1) % 7
}

/// A wall-clock date in local time, held field by field.
#[derive(Clone, Copy, Debug, PartialEq, Eq, Structural)]
pub struct LoolDate {
    year: i32,
    month: u32,
    day: u32,
    hour: u32,
    minute: u32,
    second: u32,
    nanos: u32,
}

impl View for LoolDate {
    type V = DateSpec;

    closed spec fn view(&self) -> DateSpec {
        DateSpec {
            year: self.year as int,
            month: self.month as int,
            day: self.day as int,
            hour: self.hour as int,
            minute: self.minute as int,
            second: self.second as int,
            nanos: self.nanos as int,
        }
    }
}

/// Number of days of month `month` of year `year`, honouring leap years.
pub fn get_days_from_month(year: i32, month: u32) -> (r: u32)
    requires
        1 <= month <= 12,
    ensures
        r as int == days_in_month_of(year as int, month as int),
        28 <= r <= 31,
{
    if month == 2 {
        let leap = (year % 4 == 0 && year % 100 != 0) || year % 400 == 0;
        proof {
            vstd::arithmetic::div_mod::lemma_mod_bound(year as int, 4);
            vstd::arithmetic::div_mod::lemma_mod_bound(year as int, 100);
            vstd::arithmetic::div_mod::lemma_mod_bound(year as int, 400);
        }
        if leap {
            29
        } else {
            28
        }
    } else if month == 4 || month == 6 || month == 9 || month == 11 {
        30
    } else {
        31
    }
}

impl LoolDate {
    /// Creates a date from its fields.
    pub fn new(year: i32, month: u32, day: u32, hour: u32, minute: u32, second: u32) -> (r:
        LoolDate)
        requires
            date_valid(
                DateSpec {
                    year: year as int,
                    month: month as int,
                    day: day as int,
                    hour: hour as int,
                    minute: minute as int,
                    second: second as int,
                    nanos: 0,
                },
            ),
        ensures
            r@ == (DateSpec {
                year: year as int,
                month: month as int,
                day: day as int,
                hour: hour as int,
                minute: minute as int,
                second: second as int,
                nanos: 0,
            }),
            date_valid(r@),
    {
        LoolDate { year, month, day, hour, minute, second, nanos: 0 }
    }

    /// Returns the year number in the calendar date.
    pub fn year(&self) -> (r: i32)
        ensures
            r as int == self@.year,
    {
        self.year
    }

    /// Returns the month starting from 1.
    pub fn month(&self) -> (r: u32)
        ensures
            r as int == self@.month,
    {
        self.month
    }

    /// Returns the day of the month starting from 1.
    pub fn day(&self) -> (r: u32)
        ensures
            r as int == self@.day,
    {
        self.day
    }

    /// Returns the hour (`0..=23`).
    pub fn hour(&self) -> (r: u32)
        ensures
            r as int == self@.hour,
    {
        self.hour
    }

    /// Returns the minute (`0..=59`).
    pub fn minute(&self) -> (r: u32)
        ensures
            r as int == self@.minute,
    {
        self.minute
    }

    /// Returns the second number (`0..=59`).
    pub fn second(&self) -> (r: u32)
        ensures
            r as int == self@.second,
    {
        self.second
    }

    /// Returns the number of milliseconds since the last second boundary.
    pub fn millis(&self) -> (r: u64)
        ensures
            r as int == self@.nanos / 1_000_000,
    {
        (self.nanos / 1_000_000) as u64
    }

    /// Returns the number of microseconds since the last second boundary.
    pub fn micros(&self) -> (r: u32)
        ensures
            r as int == self@.nanos / 1_000,
    {
        self.nanos / 1_000
    }

    /// Returns the number of nanoseconds since the last second boundary.
    pub fn nanos(&self) -> (r: u32)
        ensures
            r as int == self@.nanos,
    {
        self.nanos
    }

    /// Sets the nanoseconds since the last second change; values of two
    /// billion or more are clamped just below it.
    pub fn set_nanos(&mut self, nanos: u32)
        ensures
            final(self)@ == (DateSpec {
                nanos: if nanos > 2_000_000_000 {
                    1_999_999_999
                } else if nanos == 2_000_000_000 {
                    2_000_000_000 - 1
                } else {
                    nanos as int
                },
                ..old(self)@
            }),
    {
        let nanos = if nanos >= 2_000_000_000 {
            1_999_999_999
        } else {
            nanos
        };
        self.nanos = nanos;
    }

    /// Sets the microseconds since the last second change; values of two
    /// million or more are clamped just below it.
    pub fn set_micros(&mut self, micros: u32)
        ensures
            final(self)@ == (DateSpec {
                nanos: if micros >= 2_000_000 {
                    1_999_999_000int
                } else {
                    micros as int * 1000
                },
                ..old(self)@
            }),
    {
        let micros = if micros >= 2_000_000 {
            1_999_999
        } else {
            micros
        };
        self.nanos = micros * 1_000;
    }

    /// Sets the milliseconds since the last second change; values of two
    /// thousand or more are clamped just below it.
    pub fn set_millis(&mut self, millis: u64)
        ensures
            final(self)@ == (DateSpec {
                nanos: if millis >= 2_000 {
                    1_999_000_000int
                } else {
                    millis as int * 1_000_000
                },
                ..old(self)@
            }),
    {
        let millis = if millis >= 2_000 {
            1_999
        } else {
            millis
        };
        self.nanos = (millis as u32) * 1_000_000;
    }

    /// Sets the second number; values of 60 or more are clamped to 0.
    pub fn set_second(&mut self, second: u32)
        ensures
            final(self)@ == (DateSpec {
                second: if second >= 60 {
                    0
                } else {
                    second as int
                },
                ..old(self)@
            }),
    {
        let second = if second >= 60 {
            0
        } else {
            second
        };
        self.second = second;
    }

    /// Sets the minute number; values of 60 or more are clamped to 0.
    pub fn set_minute(&mut self, minute: u32)
        ensures
            final(self)@ == (DateSpec {
                minute: if minute >= 60 {
                    0
                } else {
                    minute as int
                },
                ..old(self)@
            }),
    {
        let minute = if minute >= 60 {
            0
        } else {
            minute
        };
        self.minute = minute;
    }

    /// Sets the hour number; values of 24 or more are clamped to 0.
    pub fn set_hour(&mut self, hour: u32)
        ensures
            final(self)@ == (DateSpec {
                hour: if hour >= 24 {
                    0
                } else {
                    hour as int
                },
                ..old(self)@
            }),
    {
        let hour = if hour >= 24 {
            0
        } else {
            hour
        };
        self.hour = hour;
    }

    /// Sets the hour, minute and second of the date at once, each clamped as
    /// by its own setter.
    pub fn set_hms(&mut self, hour: u32, minute: u32, second: u32)
        ensures
            final(self)@ == (DateSpec {
                hour: if hour >= 24 {
                    0
                } else {
                    hour as int
                },
                minute: if minute >= 60 {
                    0
                } else {
                    minute as int
                },
                second: if second >= 60 {
                    0
                } else {
                    second as int
                },
                ..old(self)@
            }),
    {
        self.set_hour(hour);
        self.set_minute(minute);
        self.set_second(second);
    }

    /// Sets the day of the month. Zero is clamped to 1; values past the last
    /// day of the current month clamp to that last day, honouring leap years.
    pub fn set_day(&mut self, day: u32)
        requires
            date_valid(old(self)@),
        ensures
            final(self)@ == (DateSpec {
                day: clamp_day_spec(old(self)@.year, old(self)@.month, day as int),
                ..old(self)@
            }),
            date_valid(final(self)@),
    {
        let day = if day == 0 {
            1
        } else {
            day
        };
        let days_in_month = get_days_from_month(self.year, self.month);
        if day > days_in_month {
            self.day = days_in_month;
        } else {
            self.day = day;
        }
    }

    /// Sets the month of the year, clamped into `1..=12`. If the current day
    /// does not exist in the new month it is first clamped to that month's
    /// last day, so the date stays well formed.
    pub fn set_month(&mut self, month: u32)
        requires
            date_valid(old(self)@),
        ensures
            final(self)@ == set_month_spec(old(self)@, month as int),
            date_valid(final(self)@),
    {
        let month = if month > 12 {
            12
        } else if month == 0 {
            1
        } else {
            month
        };
        let day = self.day;
        let days_in_month = get_days_from_month(self.year, month);
        if day > days_in_month {
            self.day = days_in_month;
            self.month = month;
        } else {
            self.month = month;
        }
    }

    /// Sets the month and day of the date at once, with the clamping of
    /// `set_month` and `set_day`.
    pub fn set_md(&mut self, month: u32, day: u32)
        requires
            date_valid(old(self)@),
        ensures
            final(self)@ == (DateSpec {
                day: clamp_day_spec(
                    old(self)@.year,
                    set_month_spec(old(self)@, month as int).month,
                    day as int,
                ),
                ..set_month_spec(old(self)@, month as int)
            }),
            date_valid(final(self)@),
    {
        self.set_month(month);
        self.set_day(day);
    }

    /// Sets the year. If the current date does not exist in the new year
    /// (February 29th of a non-leap year) the day is first clamped.
    pub fn set_year(&mut self, year: i32)
        requires
            date_valid(old(self)@),
        ensures
            final(self)@ == set_year_spec(old(self)@, year as int),
            date_valid(final(self)@),
    {
        let month = self.month;
        let day = self.day;
        let days_in_month = get_days_from_month(year, month);
        if day > days_in_month {
            self.day = days_in_month;
            self.year = year;
        } else {
            self.year = year;
        }
    }

    /// Sets the year, month and day of the date at once, with the clamping of
    /// `set_year`, `set_month` and `set_day`.
    pub fn set_ymd(&mut self, year: i32, month: u32, day: u32)
        requires
            date_valid(old(self)@),
        ensures
            date_valid(final(self)@),
            final(self)@.year == year as int,
            final(self)@.month == clamp_month_spec(month as int),
            final(self)@.day == clamp_day_spec(
                year as int,
                clamp_month_spec(month as int),
                day as int,
            ),
            final(self)@.hour == old(self)@.hour,
            final(self)@.minute == old(self)@.minute,
            final(self)@.second == old(self)@.second,
            final(self)@.nanos == old(self)@.nanos,
    {
        self.set_year(year);
        self.set_month(month);
        self.set_day(day);
    }

    /// True when the current date is the last day of its month.
    pub fn is_last_day_of_month(&self) -> (r: bool)
        requires
            date_valid(self@),
        ensures
            r == (self@.day == days_in_month_of(self@.year, self@.month)),
    {
        self.day == get_days_from_month(self.year, self.month)
    }

    /// True when the current weekday occurs for the last time this month:
    /// the same weekday one week on falls in the next month.
    pub fn is_last_weekday_of_month(&self) -> (r: bool)
        requires
            date_valid(self@),
        ensures
            r == (self@.day + 7 > days_in_month_of(self@.year, self@.month)),
    {
        self.day + 7 > get_days_from_month(self.year, self.month)
    }
}

/// The clamp `set_day` applies: 0 becomes 1, and days past the end of the
/// month become its last day.
pub open spec fn clamp_day_spec(year: int, month: int, day: int) -> int {
    let day = if day == 0 {
        1
    } else {
        day
    };
    if day > days_in_month_of(year, month) {
        days_in_month_of(year, month)
    } else {
        day
    }
}

/// The clamp `set_month` applies to its argument.
pub open spec fn clamp_month_spec(month: int) -> int {
    if month > 12 {
        12
    } else if month == 0 {
        1
    } else {
        month
    }
}

/// The result of `set_month`: the month is clamped into range and the day is
/// clamped to fit the new month.
pub open spec fn set_month_spec(d: DateSpec, month: int) -> DateSpec {
    let m = clamp_month_spec(month);
    let day = if d.day > days_in_month_of(d.year, m) {
        days_in_month_of(d.year, m)
    } else {
        d.day
    };
    DateSpec { month: m, day: day, ..d }
}

/// The result of `set_year`: the day is clamped to fit the month in the new
/// year.
pub open spec fn set_year_spec(d: DateSpec, year: int) -> DateSpec {
    let day = if d.day > days_in_month_of(year, d.month) {
        days_in_month_of(year, d.month)
    } else {
        d.day
    };
    DateSpec { year: year, day: day, ..d }
}

} // verus!

verus! {

/// The result of aligning a date to the start of the given unit.
pub open spec fn start_of_spec(d: DateSpec, unit: TimeUnit) -> DateSpec {
    match unit {
        TimeUnit::Year => DateSpec {
            month: 1,
            day: 1,
            hour: 0,
            minute: 0,
            second: 0,
            nanos: 0,
            ..d
        },
        TimeUnit::Month => DateSpec { day: 1, hour: 0, minute: 0, second: 0, nanos: 0, ..d },
        TimeUnit::Day => DateSpec { hour: 0, minute: 0, second: 0, nanos: 0, ..d },
        TimeUnit::Hour => DateSpec { minute: 0, second: 0, nanos: 0, ..d },
        TimeUnit::Minute => DateSpec { second: 0, nanos: 0, ..d },
        TimeUnit::Second => DateSpec { nanos: 0, ..d },
    }
}

/// One day earlier, keeping the time of day.
pub open spec fn date_sub_day_spec(d: DateSpec) -> DateSpec {
    if d.day > 1 {
        DateSpec { day: d.day - 1, ..d }
    } else if d.month > 1 {
        DateSpec { month: d.month - 1, day: days_in_month_of(d.year, d.month - 1), ..d }
    } else {
        DateSpec { year: d.year - 1, month: 12, day: 31, ..d }
    }
}

/// One hour earlier.
pub open spec fn date_sub_hour_spec(d: DateSpec) -> DateSpec {
    if d.hour > 0 {
        DateSpec { hour: d.hour - 1, ..d }
    } else {
        DateSpec { hour: 23, ..date_sub_day_spec(d) }
    }
}

/// One minute earlier.
pub open spec fn date_sub_minute_spec(d: DateSpec) -> DateSpec {
    if d.minute > 0 {
        DateSpec { minute: d.minute - 1, ..d }
    } else {
        DateSpec { minute: 59, ..date_sub_hour_spec(d) }
    }
}

/// One second earlier.
pub open spec fn date_sub_second_spec(d: DateSpec) -> DateSpec {
    if d.second > 0 {
        DateSpec { second: d.second - 1, ..d }
    } else {
        DateSpec { second: 59, ..date_sub_minute_spec(d) }
    }
}

/// One month earlier, with the day clamped to fit.
pub open spec fn date_sub_month_spec(d: DateSpec) -> DateSpec {
    if d.month > 1 {
        set_month_spec(d, d.month - 1)
    } else {
        DateSpec { year: d.year - 1, month: 12, ..d }
    }
}

impl LoolDate {
    /// Adds one year and aligns to the start of that year.
    pub fn add_year(&mut self)
        requires
            date_valid(old(self)@),
            old(self)@.year < i32::MAX,
        ensures
            final(self)@ == date_add_year_spec(old(self)@),
            date_valid(final(self)@),
    {
        self.year = self.year + 1;
        self.month = 1;
        self.day = 1;
        self.hour = 0;
        self.minute = 0;
        self.second = 0;
        self.nanos = 0;
    }

    /// Adds one month and aligns to the start of that month.
    pub fn add_month(&mut self)
        requires
            date_valid(old(self)@),
            date_add_month_spec(old(self)@).year <= i32::MAX,
        ensures
            final(self)@ == date_add_month_spec(old(self)@),
            date_valid(final(self)@),
    {
        if self.month < 12 {
            self.month = self.month + 1;
        } else {
            self.year = self.year + 1;
            self.month = 1;
        }
        self.day = 1;
        self.hour = 0;
        self.minute = 0;
        self.second = 0;
        self.nanos = 0;
    }

    /// Adds one day and aligns to the start of that day.
    pub fn add_day(&mut self)
        requires
            date_valid(old(self)@),
            date_add_day_spec(old(self)@).year <= i32::MAX,
        ensures
            final(self)@ == date_add_day_spec(old(self)@),
            date_valid(final(self)@),
    {
        let dim = get_days_from_month(self.year, self.month);
        if self.day < dim {
            self.day = self.day + 1;
        } else if self.month < 12 {
            self.month = self.month + 1;
            self.day = 1;
        } else {
            self.year = self.year + 1;
            self.month = 1;
            self.day = 1;
        }
        self.hour = 0;
        self.minute = 0;
        self.second = 0;
        self.nanos = 0;
    }

    /// Adds one hour and aligns to the start of that hour.
    pub fn add_hour(&mut self)
        requires
            date_valid(old(self)@),
            date_add_hour_spec(old(self)@).year <= i32::MAX,
        ensures
            final(self)@ == date_add_hour_spec(old(self)@),
            date_valid(final(self)@),
    {
        if self.hour < 23 {
            self.hour = self.hour + 1;
            self.minute = 0;
            self.second = 0;
            self.nanos = 0;
        } else {
            self.add_day();
        }
    }

    /// Adds one minute and aligns to the start of that minute.
    pub fn add_minute(&mut self)
        requires
            date_valid(old(self)@),
            date_add_minute_spec(old(self)@).year <= i32::MAX,
        ensures
            final(self)@ == date_add_minute_spec(old(self)@),
            date_valid(final(self)@),
    {
        if self.minute < 59 {
            self.minute = self.minute + 1;
            self.second = 0;
            self.nanos = 0;
        } else {
            self.add_hour();
        }
    }

    /// Adds one second, dropping any sub-second part.
    pub fn add_second(&mut self)
        requires
            date_valid(old(self)@),
            date_add_second_spec(old(self)@).year <= i32::MAX,
        ensures
            final(self)@ == date_add_second_spec(old(self)@),
            date_valid(final(self)@),
    {
        if self.second < 59 {
            self.second = self.second + 1;
            self.nanos = 0;
        } else {
            self.add_minute();
        }
    }

    /// Subtracts one year; February 29th clamps to the 28th when the new
    /// year is not a leap year.
    pub fn subs_year(&mut self)
        requires
            date_valid(old(self)@),
            old(self)@.year > i32::MIN,
        ensures
            final(self)@ == set_year_spec(old(self)@, old(self)@.year - 1),
            date_valid(final(self)@),
    {
        let y = self.year - 1;
        self.set_year(y);
    }

    /// Subtracts one month, clamping the day to fit the new month.
    pub fn subs_month(&mut self)
        requires
            date_valid(old(self)@),
            old(self)@.year > i32::MIN,
        ensures
            final(self)@ == date_sub_month_spec(old(self)@),
            date_valid(final(self)@),
    {
        if self.month > 1 {
            let m = self.month - 1;
            self.set_month(m);
        } else {
            self.year = self.year - 1;
            self.month = 12;
        }
    }

    /// Subtracts one day, keeping the time of day.
    pub fn subs_day(&mut self)
        requires
            date_valid(old(self)@),
            old(self)@.year > i32::MIN,
        ensures
            final(self)@ == date_sub_day_spec(old(self)@),
            date_valid(final(self)@),
    {
        if self.day > 1 {
            self.day = self.day - 1;
        } else if self.month > 1 {
            self.month = self.month - 1;
            self.day = get_days_from_month(self.year, self.month);
        } else {
            self.year = self.year - 1;
            self.month = 12;
            self.day = 31;
        }
    }

    /// Subtracts one hour.
    pub fn subs_hour(&mut self)
        requires
            date_valid(old(self)@),
            old(self)@.year > i32::MIN,
        ensures
            final(self)@ == date_sub_hour_spec(old(self)@),
            date_valid(final(self)@),
    {
        if self.hour > 0 {
            self.hour = self.hour - 1;
        } else {
            self.subs_day();
            self.hour = 23;
        }
    }

    /// Subtracts one minute.
    pub fn subs_minute(&mut self)
        requires
            date_valid(old(self)@),
            old(self)@.year > i32::MIN,
        ensures
            final(self)@ == date_sub_minute_spec(old(self)@),
            date_valid(final(self)@),
    {
        if self.minute > 0 {
            self.minute = self.minute - 1;
        } else {
            self.subs_hour();
            self.minute = 59;
        }
    }

    /// Subtracts one second.
    pub fn subs_second(&mut self)
        requires
            date_valid(old(self)@),
            old(self)@.year > i32::MIN,
        ensures
            final(self)@ == date_sub_second_spec(old(self)@),
            date_valid(final(self)@),
    {
        if self.second > 0 {
            self.second = self.second - 1;
        } else {
            self.subs_minute();
            self.second = 59;
        }
    }

    /// Aligns the date to the beginning of the given unit.
    pub fn set_start_of(&mut self, unit: TimeUnit)
        requires
            date_valid(old(self)@),
        ensures
            final(self)@ == start_of_spec(old(self)@, unit),
            date_valid(final(self)@),
    {
        match unit {
            TimeUnit::Year => {
                self.month = 1;
                self.day = 1;
                self.hour = 0;
                self.minute = 0;
                self.second = 0;
                self.nanos = 0;
            },
            TimeUnit::Month => {
                self.day = 1;
                self.hour = 0;
                self.minute = 0;
                self.second = 0;
                self.nanos = 0;
            },
            TimeUnit::Day => {
                self.hour = 0;
                self.minute = 0;
                self.second = 0;
                self.nanos = 0;
            },
            TimeUnit::Hour => {
                self.minute = 0;
                self.second = 0;
                self.nanos = 0;
            },
            TimeUnit::Minute => {
                self.second = 0;
                self.nanos = 0;
            },
            TimeUnit::Second => {
                self.nanos = 0;
            },
        }
    }
}

} // verus!

verus! {

/// The weekday variant for a Sunday-based number `0..=6`.
pub open spec fn weekday_from_number(n: int) -> Weekday {
    if n == 0 {
        Weekday::Sun
    } else if n == 1 {
        Weekday::Mon
    } else if n == 2 {
        Weekday::Tue
    } else if n == 3 {
        Weekday::Wed
    } else if n == 4 {
        Weekday::Thu
    } else if n == 5 {
        Weekday::Fri
    } else {
        Weekday::Sat
    }
}

impl Weekday {
    /// Days from the last Sunday: `Sun = 0`, ..., `Sat = 6`.
    pub open spec fn spec_num_days_from_sunday(self) -> int {
        match self {
            Weekday::Sun => 0,
            Weekday::Mon => 1,
            Weekday::Tue => 2,
            Weekday::Wed => 3,
            Weekday::Thu => 4,
            Weekday::Fri => 5,
            Weekday::Sat => 6,
        }
    }

    /// Days from the last Monday: `Mon = 0`, ..., `Sun = 6`.
    pub open spec fn spec_num_days_from_monday(self) -> int {
        match self {
            Weekday::Mon => 0,
            Weekday::Tue => 1,
            Weekday::Wed => 2,
            Weekday::Thu => 3,
            Weekday::Fri => 4,
            Weekday::Sat => 5,
            Weekday::Sun => 6,
        }
    }

    /// Days from the last Sunday.
    pub fn num_days_from_sunday(self) -> (r: u32)
        ensures
            r as int == self.spec_num_days_from_sunday(),
    {
        match self {
            Weekday::Sun => 0,
            Weekday::Mon => 1,
            Weekday::Tue => 2,
            Weekday::Wed => 3,
            Weekday::Thu => 4,
            Weekday::Fri => 5,
            Weekday::Sat => 6,
        }
    }

    /// Days from the last Monday.
    pub fn num_days_from_monday(self) -> (r: u32)
        ensures
            r as int == self.spec_num_days_from_monday(),
    {
        match self {
            Weekday::Mon => 0,
            Weekday::Tue => 1,
            Weekday::Wed => 2,
            Weekday::Thu => 3,
            Weekday::Fri => 4,
            Weekday::Sat => 5,
            Weekday::Sun => 6,
        }
    }
}

/// Euclidean division by a small positive divisor.
fn div_euclid_pos(a: i64, b: i64) -> (r: i64)
    requires
        2 <= b <= 400,
    ensures
        r as int == a as int / b as int,
{
    proof {
        let ai = a as int;
        let bi = b as int;
        vstd::arithmetic::div_mod::lemma_fundamental_div_mod(ai, bi);
        let quo = ai / bi;
        let rem = ai % bi;
        assert(i64::MIN <= quo <= i64::MAX) by (nonlinear_arith)
            requires
                bi * quo + rem == ai,
                0 <= rem < bi,
                2 <= bi <= 400,
                i64::MIN <= ai <= i64::MAX,
        ;
    }
    let q = a.checked_div_euclid(b);
    match q {
        Some(v) => v,
        None => {
            proof {
                assert(false);
            }
            0
        },
    }
}

impl LoolDate {
    /// The number of days between 0001-01-01 and this date.
    fn day_index_exec(&self) -> (r: i64)
        requires
            date_valid(self@),
        ensures
            r as int == day_index(self@),
    {
        let ym1: i64 = (self.year as i64) - 1;
        let before_year: i64 = 365 * ym1 + div_euclid_pos(ym1, 4) - div_euclid_pos(ym1, 100)
            + div_euclid_pos(ym1, 400);
        let leap = get_days_from_month(self.year, 2) == 29;
        let m = self.month;
        let plain: i64 = if m == 1 {
            0
        } else if m == 2 {
            31
        } else if m == 3 {
            59
        } else if m == 4 {
            90
        } else if m == 5 {
            120
        } else if m == 6 {
            151
        } else if m == 7 {
            181
        } else if m == 8 {
            212
        } else if m == 9 {
            243
        } else if m == 10 {
            273
        } else if m == 11 {
            304
        } else {
            334
        };
        let before_month: i64 = if m > 2 && leap {
            plain + 1
        } else {
            plain
        };
        before_year + before_month + (self.day as i64) - 1
    }

    /// Returns the day of the week counted from Sunday (`0 = Sunday`).
    pub fn weekday_from_sunday(&self) -> (r: u32)
        requires
            date_valid(self@),
        ensures
            r as int == dow_of(self@),
            r <= 6,
    {
        let di = self.day_index_exec();
        let m = (di + 1).checked_rem_euclid(7);
        match m {
            Some(v) => {
                proof {
                    vstd::arithmetic::div_mod::lemma_mod_bound(di as int + 1, 7);
                }
                v as u32
            },
            None => {
                proof {
                    assert(false);
                }
                0
            },
        }
    }

    /// Returns the day of the week counted from Monday (`0 = Monday`).
    pub fn weekday_from_monday(&self) -> (r: u32)
        requires
            date_valid(self@),
        ensures
            r as int == day_index(self@) % 7,
            r <= 6,
    {
        let di = self.day_index_exec();
        let m = di.checked_rem_euclid(7);
        match m {
            Some(v) => {
                proof {
                    vstd::arithmetic::div_mod::lemma_mod_bound(di as int, 7);
                }
                v as u32
            },
            None => {
                proof {
                    assert(false);
                }
                0
            },
        }
    }

    /// Returns the day of the week.
    pub fn weekday(&self) -> (r: Weekday)
        requires
            date_valid(self@),
        ensures
            r == weekday_from_number(dow_of(self@)),
    {
        let n = self.weekday_from_sunday();
        if n == 0 {
            Weekday::Sun
        } else if n == 1 {
            Weekday::Mon
        } else if n == 2 {
            Weekday::Tue
        } else if n == 3 {
            Weekday::Wed
        } else if n == 4 {
            Weekday::Thu
        } else if n == 5 {
            Weekday::Fri
        } else {
            Weekday::Sat
        }
    }
}

} // verus!

verus! {

/// The two dates agree on the year.
pub open spec fn agree_to_year(a: DateSpec, b: DateSpec) -> bool {
    a.year == b.year
}

/// The two dates agree on year and month.
pub open spec fn agree_to_month(a: DateSpec, b: DateSpec) -> bool {
    a.year == b.year && a.month == b.month
}

/// The two dates agree on the calendar day.
pub open spec fn agree_to_day(a: DateSpec, b: DateSpec) -> bool {
    a.year == b.year && a.month == b.month && a.day == b.day
}

/// The two dates agree down to the hour.
pub open spec fn agree_to_hour(a: DateSpec, b: DateSpec) -> bool {
    agree_to_day(a, b) && a.hour == b.hour
}

/// The two dates agree down to the minute.
pub open spec fn agree_to_minute(a: DateSpec, b: DateSpec) -> bool {
    agree_to_hour(a, b) && a.minute == b.minute
}

/// The two dates agree down to the second.
pub open spec fn agree_to_second(a: DateSpec, b: DateSpec) -> bool {
    agree_to_minute(a, b) && a.second == b.second
}

/// The order on dates is total: of two distinct dates one is earlier.
pub proof fn lemma_date_lt_total(a: DateSpec, b: DateSpec)
    ensures
        date_lt(a, b) || date_lt(b, a) || a == b,
{
}

/// Advancing to the next day skips only instants of the same calendar day.
pub proof fn lemma_add_day_gap(o: DateSpec)
    requires
        date_valid(o),
    ensures
        date_lt(o, date_add_day_spec(o)),
        forall|t: DateSpec|
            date_valid(t) && date_lt(o, t) && date_lt(t, date_add_day_spec(o)) ==> agree_to_day(
                t,
                o,
            ),
{
    let n = date_add_day_spec(o);
    assert forall|t: DateSpec|
        date_valid(t) && date_lt(o, t) && date_lt(t, n) implies agree_to_day(t, o) by {
        assert(t.year == o.year && t.month == o.month);
        assert(t.day == o.day);
    }
}

/// Advancing to the next hour skips only instants of the same hour.
pub proof fn lemma_add_hour_gap(o: DateSpec)
    requires
        date_valid(o),
    ensures
        date_lt(o, date_add_hour_spec(o)),
        forall|t: DateSpec|
            date_valid(t) && date_lt(o, t) && date_lt(t, date_add_hour_spec(o)) ==> agree_to_hour(
                t,
                o,
            ),
{
    let n = date_add_hour_spec(o);
    if o.hour < 23 {
        assert forall|t: DateSpec|
            date_valid(t) && date_lt(o, t) && date_lt(t, n) implies agree_to_hour(t, o) by {}
    } else {
        lemma_add_day_gap(o);
        assert forall|t: DateSpec|
            date_valid(t) && date_lt(o, t) && date_lt(t, n) implies agree_to_hour(t, o) by {
            assert(agree_to_day(t, o));
        }
    }
}

/// Advancing to the next minute skips only instants of the same minute.
pub proof fn lemma_add_minute_gap(o: DateSpec)
    requires
        date_valid(o),
    ensures
        date_lt(o, date_add_minute_spec(o)),
        forall|t: DateSpec|
            date_valid(t) && date_lt(o, t) && date_lt(t, date_add_minute_spec(o))
                ==> agree_to_minute(t, o),
{
    let n = date_add_minute_spec(o);
    if o.minute < 59 {
        assert forall|t: DateSpec|
            date_valid(t) && date_lt(o, t) && date_lt(t, n) implies agree_to_minute(t, o) by {}
    } else {
        lemma_add_hour_gap(o);
        assert forall|t: DateSpec|
            date_valid(t) && date_lt(o, t) && date_lt(t, n) implies agree_to_minute(t, o) by {
            assert(agree_to_hour(t, o));
        }
    }
}

/// Advancing to the next second skips only instants of the same second.
pub proof fn lemma_add_second_gap(o: DateSpec)
    requires
        date_valid(o),
    ensures
        date_lt(o, date_add_second_spec(o)),
        forall|t: DateSpec|
            date_valid(t) && date_lt(o, t) && date_lt(t, date_add_second_spec(o))
                ==> agree_to_second(t, o),
{
    let n = date_add_second_spec(o);
    if o.second < 59 {
        assert forall|t: DateSpec|
            date_valid(t) && date_lt(o, t) && date_lt(t, n) implies agree_to_second(t, o) by {}
    } else {
        lemma_add_minute_gap(o);
        assert forall|t: DateSpec|
            date_valid(t) && date_lt(o, t) && date_lt(t, n) implies agree_to_second(t, o) by {
            assert(agree_to_minute(t, o));
        }
    }
}

/// Advancing to the next month skips only instants of the same month.
pub proof fn lemma_add_month_gap(o: DateSpec)
    requires
        date_valid(o),
    ensures
        date_lt(o, date_add_month_spec(o)),
        forall|t: DateSpec|
            date_valid(t) && date_lt(o, t) && date_lt(t, date_add_month_spec(o))
                ==> agree_to_month(t, o),
{
    let n = date_add_month_spec(o);
    assert forall|t: DateSpec|
        date_valid(t) && date_lt(o, t) && date_lt(t, n) implies agree_to_month(t, o) by {
        assert(t.year == o.year);
        assert(t.month == o.month);
    }
}

/// Advancing to the next year skips only instants of the same year.
pub proof fn lemma_add_year_gap(o: DateSpec)
    requires
        date_valid(o),
    ensures
        date_lt(o, date_add_year_spec(o)),
        forall|t: DateSpec|
            date_valid(t) && date_lt(o, t) && date_lt(t, date_add_year_spec(o)) ==> agree_to_year(
                t,
                o,
            ),
{
}

} // verus!

verus! {

impl LoolDate {
    /// Strictly earlier than `other`, comparing field by field from the year
    /// down.
    pub fn is_before(&self, other: &LoolDate) -> (r: bool)
        ensures
            r == date_lt(self@, other@),
    {
        if self.year != other.year {
            self.year < other.year
        } else if self.month != other.month {
            self.month < other.month
        } else if self.day != other.day {
            self.day < other.day
        } else if self.hour != other.hour {
            self.hour < other.hour
        } else if self.minute != other.minute {
            self.minute < other.minute
        } else if self.second != other.second {
            self.second < other.second
        } else {
            self.nanos < other.nanos
        }
    }

    /// Relies on chrono's `Local::now`: the current wall-clock time in the
    /// local time zone is a well-formed calendar instant.
    #[verifier::external_body]
    pub fn now() -> (r: LoolDate)
        ensures
            date_valid(r@),
    {
        let t = chrono::Local::now();
        LoolDate {
            year: chrono::Datelike::year(&t),
            month: chrono::Datelike::month(&t),
            day: chrono::Datelike::day(&t),
            hour: chrono::Timelike::hour(&t),
            minute: chrono::Timelike::minute(&t),
            second: chrono::Timelike::second(&t),
            nanos: t.timestamp_subsec_nanos(),
        }
    }

    /// Relies on chrono's `Utc::now`: the current wall-clock time in UTC is
    /// a well-formed calendar instant.
    #[verifier::external_body]
    pub fn utc_now() -> (r: LoolDate)
        ensures
            date_valid(r@),
    {
        let t = chrono::Utc::now();
        LoolDate {
            year: chrono::Datelike::year(&t),
            month: chrono::Datelike::month(&t),
            day: chrono::Datelike::day(&t),
            hour: chrono::Timelike::hour(&t),
            minute: chrono::Timelike::minute(&t),
            second: chrono::Timelike::second(&t),
            nanos: t.timestamp_subsec_nanos(),
        }
    }
}

} // verus!
