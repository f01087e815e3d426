//! Calendar model: a clock time as milliseconds of the day, a civil date and
//! time, and the day of the week computed from the civil date.
use vstd::prelude::*;

verus! {

/// Milliseconds in one day.
pub const MILLIS_PER_DAY: u32 = 24 * 60 * 60 * 1000;

/// The last whole second of a day, 23:59:59.000, in milliseconds.
pub const DAY_END_MILLIS: u32 = 23 * 3600 * 1000 + 59 * 60 * 1000 + 59 * 1000;

/// A clock time, stored as milliseconds since midnight.
#[derive(Clone, Copy, Debug, PartialEq, Eq, Structural)]
pub struct Time {
    pub millis_of_day: u32,
}

impl Time {
    /// The time lies inside one day.
    pub open spec fn wf(&self) -> bool {
        self.millis_of_day < MILLIS_PER_DAY
    }

    /// Builds a time of day from hour, minute, second and millisecond, or
    /// nothing when one of them is out of range.
    pub fn from_hms_milli_opt(hour: u32, min: u32, sec: u32, milli: u32) -> (r: Option<Time>)
        ensures
            r.is_some() <==> (hour < 24 && min < 60 && sec < 60 && milli < 1000),
            r.is_some() ==> {
                &&& r.unwrap().wf()
                &&& r.unwrap().millis_of_day == hour * 3600000 + min * 60000 + sec * 1000 + milli
            },
    {
        if hour < 24 && min < 60 && sec < 60 && milli < 1000 {
            Some(Time { millis_of_day: hour * 3600000 + min * 60000 + sec * 1000 + milli })
        } else {
            None
        }
    }
}

/// A day of the week.
#[derive(Clone, Copy, Debug, PartialEq, Eq, Structural)]
pub enum Weekday {
    Mon,
    Tue,
    Wed,
    Thu,
    Fri,
    Sat,
    Sun,
}

/// The year is a leap year in the Gregorian calendar.
pub open spec fn is_leap_year(year: int) -> bool {
    year % 4 == 0 && (year % 100 != 0 || year % 400 == 0)
}

/// How many days the month of that year has.
pub open spec fn days_in_month(year: int, month: int) -> int {
    if month == 2 {
        if is_leap_year(year) {
            29
        } else {
            28
        }
    } else if month == 4 || month == 6 || month == 9 || month == 11 {
        30
    } else {
        31
    }
}

/// The month's term in the day-of-week congruence.
pub open spec fn month_anchor(month: int) -> int {
    if month == 1 {
        0
    } else if month == 2 {
        3
    } else if month == 3 {
        2
    } else if month == 4 {
        5
    } else if month == 5 {
        0
    } else if month == 6 {
        3
    } else if month == 7 {
        5
    } else if month == 8 {
        1
    } else if month == 9 {
        4
    } else if month == 10 {
        6
    } else if month == 11 {
        2
    } else {
        4
    }
}

/// The day of the week of a civil date as a residue: 0 is Sunday, 1 is
/// Monday, and so on.
pub open spec fn weekday_number(year: int, month: int, day: int) -> int {
    let y = if month < 3 {
        year - 1
    } else {
        year
    };
    (y + y / 4 - y / 100 + y / 400 + month_anchor(month) + day) % 7
}

/// The weekday that a residue of the day-of-week congruence names.
pub open spec fn weekday_of_number(n: int) -> Weekday {
    if n == 0 {
        Weekday::Sun
    } else if n == 1 {
        Weekday::Mon
    } else if n == 2 {
        Weekday::Tue
    } else if n == 3 {
        Weekday::Wed
    } else if n == 4 {
        Weekday::Thu
    } else if n == 5 {
        Weekday::Fri
    } else {
        Weekday::Sat
    }
}

/// A civil date with a clock time, in the proleptic Gregorian calendar.
#[derive(Clone, Copy, Debug, PartialEq, Eq, Structural)]
pub struct CivilDateTime {
    pub year: i32,
    pub month: u8,
    pub day: u8,
    pub time: Time,
}

impl CivilDateTime {
    /// The date names a real day of a supported year and the time lies
    /// inside the day.
    pub open spec fn wf(&self) -> bool {
        &&& 1 <= self.year <= 9999
        &&& 1 <= self.month <= 12
        &&& 1 <= self.day <= days_in_month(self.year as int, self.month as int)
        &&& self.time.wf()
    }

    /// Builds a civil date and time from its six numbers, or nothing when
    /// they name no real instant.
    pub fn from_ymd_and_hms(
        year: i32,
        month: u32,
        day: u32,
        hour: u32,
        min: u32,
        sec: u32,
    ) -> (r: Option<CivilDateTime>)
        ensures
            r.is_some() <==> {
                &&& 1 <= year <= 9999
                &&& 1 <= month <= 12
                &&& 1 <= day <= days_in_month(year as int, month as int)
                &&& hour < 24
                &&& min < 60
                &&& sec < 60
            },
            r.is_some() ==> {
                &&& r.unwrap().wf()
                &&& r.unwrap().year == year
                &&& r.unwrap().month == month
                &&& r.unwrap().day == day
                &&& r.unwrap().time.millis_of_day == hour * 3600000 + min * 60000 + sec * 1000
            },
    {
        if !(1 <= year && year <= 9999 && 1 <= month && month <= 12) {
            return None;
        }
        let leap = year % 4 == 0 && (year % 100 != 0 || year % 400 == 0);
        let month_days: u32 = if month == 2 {
            if leap {
                29
            } else {
                28
            }
        } else if month == 4 || month == 6 || month == 9 || month == 11 {
            30
        } else {
            31
        };
        if !(1 <= day && day <= month_days) {
            return None;
        }
        match Time::from_hms_milli_opt(hour, min, sec, 0) {
            None => None,
            Some(time) => Some(
                CivilDateTime { year, month: month as u8, day: day as u8, time },
            ),
        }
    }

    /// The day of the week of this date.
    pub fn weekday(&self) -> (r: Weekday)
        requires
            self.wf(),
        ensures
            r == weekday_of_number(
                weekday_number(self.year as int, self.month as int, self.day as int),
            ),
    {
        let y: u32 = if self.month < 3 {
            (self.year - 1) as u32
        } else {
            self.year as u32
        };
        let anchor: u32 = match self.month {
            1 => 0,
            2 => 3,
            3 => 2,
            4 => 5,
            5 => 0,
            6 => 3,
            7 => 5,
            8 => 1,
            9 => 4,
            10 => 6,
            11 => 2,
            _ => 4,
        };
        proof {
            assert(y / 100 <= y / 4 + y);
        }
        let w: u32 = (y + y / 4 - y / 100 + y / 400 + anchor + self.day as u32) % 7;
        match w {
            0 => Weekday::Sun,
            1 => Weekday::Mon,
            2 => Weekday::Tue,
            3 => Weekday::Wed,
            4 => Weekday::Thu,
            5 => Weekday::Fri,
            _ => Weekday::Sat,
        }
    }
}

} // verus!
