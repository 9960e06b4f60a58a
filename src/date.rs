//! Calendar dates as the note hierarchy reads them.

use chrono::Datelike;
use vstd::prelude::*;

verus! {

/// A calendar date: a year (possibly before the common era), a month in
/// `1..=12` and a day of the month in `1..=31`.
#[derive(Clone, Copy, Debug, PartialEq, Eq, Structural)]
pub struct CalendarDate {
    pub year: i32,
    pub month: u32,
    pub day: u32,
}

impl CalendarDate {
    /// Month and day are within the ranges a calendar uses.
    pub open spec fn wf(&self) -> bool {
        1 <= self.month <= 12 && 1 <= self.day <= 31
    }

    /// Builds a date from its three components, or `None` where the month or
    /// the day is out of range.
    pub fn new(year: i32, month: u32, day: u32) -> (r: Option<CalendarDate>)
        ensures
            r == (if 1 <= month <= 12 && 1 <= day <= 31 {
                Some(CalendarDate { year, month, day })
            } else {
                None::<CalendarDate>
            }),
    {
        if 1 <= month && month <= 12 && 1 <= day && day <= 31 {
            Some(CalendarDate { year, month, day })
        } else {
            None
        }
    }

    /// The current date in the local time zone.
    pub fn today() -> (r: CalendarDate)
        ensures
            r.wf(),
    {
        let (year, month, day) = local_today();
        CalendarDate { year, month, day }
    }
}

/// Relies on chrono's `From<SystemTime> for DateTime<Local>` and `Datelike`:
/// the local calendar date of std's `SystemTime::now`, which also covers a
/// clock set before 1970, as year, month (documented to range over 1 to 12)
/// and day (1 to 31).
#[verifier::external_body]
fn local_today() -> (r: (i32, u32, u32))
    ensures
        1 <= r.1 <= 12,
        1 <= r.2 <= 31,
{
    let now = chrono::DateTime::<chrono::Local>::from(std::time::SystemTime::now());
    (now.year(), now.month(), now.day())
}

} // verus!
