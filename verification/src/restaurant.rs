//! Venue opening hours: a working-time window that may wrap past midnight,
//! and a schedule that is either the same every day or splits the week into
//! weekday and weekend hours, with Friday evening and Sunday morning counted
//! toward the weekend.
use vstd::prelude::*;

use crate::time::{weekday_number, CivilDateTime, Time, Weekday, DAY_END_MILLIS};

verus! {

/// A daily working window, from `start_time` to `end_time`. A start after
/// the end means the window runs past midnight into the next day.
#[derive(Clone, Copy, Debug, PartialEq, Eq, Structural)]
pub struct WorkingTime {
    pub start_time: Time,
    pub end_time: Time,
}

/// The clock time falls inside the window. A wrapped window covers from its
/// start to the last whole second of the day, and from midnight to its end.
pub open spec fn in_window(time: Time, start: Time, end: Time) -> bool {
    if start.millis_of_day > end.millis_of_day {
        (time.millis_of_day >= start.millis_of_day && time.millis_of_day <= DAY_END_MILLIS)
            || time.millis_of_day <= end.millis_of_day
    } else {
        time.millis_of_day >= start.millis_of_day && time.millis_of_day <= end.millis_of_day
    }
}

/// A venue's weekly opening hours.
#[derive(Clone, Copy, Debug, PartialEq, Eq, Structural)]
pub enum Schedule {
    /// The same window every day.
    Regular { working_time: WorkingTime },
    /// One window on weekdays, another on weekends. The weekend window also
    /// covers Friday's evening, while the night from Sunday toward Monday is
    /// handed back to the weekday window once the weekend window's start has
    /// passed.
    WithWeekends { weekday_working_time: WorkingTime, weekend_working_time: WorkingTime },
}

/// Which instants a schedule covers. On a Friday, an instant before the
/// weekday window's start still belongs to the weekday window (the tail of
/// Thursday's night); from then on the weekend window rules. On a Sunday it
/// is the other way around: the weekend window rules until its start has
/// passed, then the weekday window takes over for the night toward Monday.
pub open spec fn schedule_matches(s: Schedule, moment: CivilDateTime) -> bool {
    match s {
        Schedule::Regular { working_time } => in_window(
            moment.time,
            working_time.start_time,
            working_time.end_time,
        ),
        Schedule::WithWeekends { weekday_working_time, weekend_working_time } => {
            let day_number = weekday_number(
                moment.year as int,
                moment.month as int,
                moment.day as int,
            );
            if day_number == 5 {  // Friday
                if moment.time.millis_of_day < weekday_working_time.start_time.millis_of_day {
                    in_window(
                        moment.time,
                        weekday_working_time.start_time,
                        weekday_working_time.end_time,
                    )
                } else {
                    in_window(
                        moment.time,
                        weekend_working_time.start_time,
                        weekend_working_time.end_time,
                    )
                }
            } else if day_number == 6 {  // Saturday
                in_window(
                    moment.time,
                    weekend_working_time.start_time,
                    weekend_working_time.end_time,
                )
            } else if day_number == 0 {  // Sunday
                if moment.time.millis_of_day < weekend_working_time.start_time.millis_of_day {
                    in_window(
                        moment.time,
                        weekend_working_time.start_time,
                        weekend_working_time.end_time,
                    )
                } else {
                    in_window(
                        moment.time,
                        weekday_working_time.start_time,
                        weekday_working_time.end_time,
                    )
                }
            } else {
                in_window(
                    moment.time,
                    weekday_working_time.start_time,
                    weekday_working_time.end_time,
                )
            }
        },
    }
}

fn time_in_window(time: Time, start: Time, end: Time) -> (r: bool)
    ensures
        r == in_window(time, start, end),
{
    if start.millis_of_day > end.millis_of_day {
        (time.millis_of_day >= start.millis_of_day && time.millis_of_day <= DAY_END_MILLIS)
            || time.millis_of_day <= end.millis_of_day
    } else {
        time.millis_of_day >= start.millis_of_day && time.millis_of_day <= end.millis_of_day
    }
}

impl Schedule {
    /// Whether the venue is open at the given instant.
    pub fn match_in(&self, passed_date_time: CivilDateTime) -> (r: bool)
        requires
            passed_date_time.wf(),
        ensures
            r == schedule_matches(*self, passed_date_time),
    {
        match self {
            Schedule::Regular { working_time } => time_in_window(
                passed_date_time.time,
                working_time.start_time,
                working_time.end_time,
            ),
            Schedule::WithWeekends { weekday_working_time, weekend_working_time } => {
                let week_day = passed_date_time.weekday();
                match week_day {
                    Weekday::Fri => {
                        let time = passed_date_time.time;
                        if time.millis_of_day < weekday_working_time.start_time.millis_of_day {
                            time_in_window(
                                time,
                                weekday_working_time.start_time,
                                weekday_working_time.end_time,
                            )
                        } else {
                            time_in_window(
                                time,
                                weekend_working_time.start_time,
                                weekend_working_time.end_time,
                            )
                        }
                    },
                    Weekday::Sat => time_in_window(
                        passed_date_time.time,
                        weekend_working_time.start_time,
                        weekend_working_time.end_time,
                    ),
                    Weekday::Sun => {
                        let time = passed_date_time.time;
                        if time.millis_of_day < weekend_working_time.start_time.millis_of_day {
                            time_in_window(
                                time,
                                weekend_working_time.start_time,
                                weekend_working_time.end_time,
                            )
                        } else {
                            time_in_window(
                                time,
                                weekday_working_time.start_time,
                                weekday_working_time.end_time,
                            )
                        }
                    },
                    _ => time_in_window(
                        passed_date_time.time,
                        weekday_working_time.start_time,
                        weekday_working_time.end_time,
                    ),
                }
            },
        }
    }
}

} // verus!
