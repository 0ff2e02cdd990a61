//! The current moment, read from the system clock.

use vstd::prelude::*;
use crate::generation::CalendarDate;

verus! {

/// A moment in UTC: milliseconds since the Unix epoch, and the calendar
/// date it falls on.
pub(crate) struct UtcNow {
    pub(crate) millis: i64,
    pub(crate) date: CalendarDate,
}

/// Relies on std's `SystemTime::now` converted by chrono's
/// `From<SystemTime> for DateTime<Utc>` (a clock set before the Unix epoch
/// gives a negative time rather than a panic), read through
/// `DateTime::timestamp_millis` and the `Datelike` accessors `year`, `month`
/// (1 to 12) and `day` (1 to 31).
#[verifier::external_body]
pub(crate) fn utc_now() -> (r: UtcNow)
    ensures
        r.date.wf(),
{
    let now = chrono::DateTime::<chrono::Utc>::from(std::time::SystemTime::now());
    UtcNow {
        millis: now.timestamp_millis(),
        date: CalendarDate {
            year: chrono::Datelike::year(&now),
            month: chrono::Datelike::month(&now),
            day: chrono::Datelike::day(&now),
        },
    }
}

} // verus!
