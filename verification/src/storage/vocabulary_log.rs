//! The Vocabulary Log: how many words were saved on each local calendar day
//! of the last twelve months, and how much of each day the log covers.
//! Days are numbered as chrono's `num_days_from_ce` numbers them.

use vstd::prelude::*;
use crate::domain::{RepositoryError, RepositoryErrorView};

verus! {

/// The day `months` calendar months before `day` (the day of the month is
/// clamped to the target month), as chrono's `checked_sub_months` computes it.
pub uninterp spec fn calendar_months_before(day: int, months: int) -> Option<int>;

/// The day number of chrono's first date, `NaiveDate::MIN` (January 1 of
/// the year -262143).
pub const FIRST_CALENDAR_DAY: i32 = -95_746_129i32;

/// The day number of chrono's last date, `NaiveDate::MAX` (December 31 of
/// the year 262142).
pub const LAST_CALENDAR_DAY: i32 = 95_745_399i32;

/// Whether chrono's calendar holds the day numbered `day` and a day after it:
/// the day lies within chrono's date range and is not its last day.
pub open spec fn calendar_has_day_after(day: int) -> bool {
    FIRST_CALENDAR_DAY <= day < LAST_CALENDAR_DAY
}

/// Calls chrono's `NaiveDate::checked_sub_months` on the date numbered `day`;
/// the result is named [`calendar_months_before`].
#[verifier::external_body]
fn months_before(day: i32, months: u32) -> (r: Option<i32>)
    ensures
        r matches Some(d) ==> calendar_months_before(day as int, months as int) == Some(d as int),
        r is None ==> calendar_months_before(day as int, months as int) is None,
{
    chrono::NaiveDate::from_num_days_from_ce_opt(day)
        .and_then(|date| date.checked_sub_months(chrono::Months::new(months)))
        .map(|date| chrono::Datelike::num_days_from_ce(&date))
}

/// Calls chrono's `NaiveDate::checked_add_days` with one day on the date
/// numbered `day` (`from_num_days_from_ce_opt`, which holds exactly the days
/// from `NaiveDate::MIN` to `NaiveDate::MAX`): there is a next day exactly
/// when the day is in range and is not the last, and it is the next number.
#[verifier::external_body]
fn day_after(day: i32) -> (r: Option<i32>)
    ensures
        r is Some == calendar_has_day_after(day as int),
        r matches Some(d) ==> d == day + 1,
{
    chrono::NaiveDate::from_num_days_from_ce_opt(day)
        .and_then(|date| date.checked_add_days(chrono::Days::new(1)))
        .map(|date| chrono::Datelike::num_days_from_ce(&date))
}

/// How much of a day the log covers.
#[derive(Clone, Copy, Debug, PartialEq, Eq, Structural)]
pub enum LogCoverage {
    /// Before the log existed and nothing was recorded: the count is unknowable.
    Unknown,
    /// Some saves of the day were logged (the first day, or early records).
    Partial,
    /// Every save of the day was logged.
    Complete,
}

#[derive(Clone, Copy, Debug, PartialEq, Eq, Structural)]
pub struct VocabularyLogDay {
    pub date: i32,
    pub count: Option<u32>,
    pub coverage: LogCoverage,
}

#[derive(Debug, PartialEq, Eq)]
pub struct VocabularyLog {
    pub start_date: i32,
    pub end_date: i32,
    pub days: Vec<VocabularyLogDay>,
}

/// The count recorded for a day (a later record of the same day wins).
pub open spec fn recorded(counts: Seq<(i32, u32)>, day: int) -> Option<u32>
    decreases counts.len(),
{
    if counts.len() == 0 {
        None
    } else if counts.last().0 == day {
        Some(counts.last().1)
    } else {
        recorded(counts.drop_last(), day)
    }
}

/// The log entry of a day, given when the log started and what was recorded.
pub open spec fn log_day(date: int, started: int, rec: Option<u32>) -> VocabularyLogDay {
    let coverage = if date < started {
        if rec is Some { LogCoverage::Partial } else { LogCoverage::Unknown }
    } else if date == started {
        LogCoverage::Partial
    } else {
        LogCoverage::Complete
    };
    VocabularyLogDay {
        date: date as i32,
        count: if coverage == LogCoverage::Unknown { None } else { Some(match rec { Some(c) => c, None => 0u32 }) },
        coverage: coverage,
    }
}

/// The first day of the window that ends on `end`: one day after the same
/// day twelve months earlier.
pub open spec fn window_start(end: int) -> Option<int> {
    match calendar_months_before(end, 12) {
        Some(d) => if calendar_has_day_after(d) { Some(d + 1) } else { None },
        None => None,
    }
}

fn recorded_count(counts: &Vec<(i32, u32)>, day: i32) -> (r: Option<u32>)
    ensures
        r == recorded(counts@, day as int),
{
    let mut found: Option<u32> = None;
    let mut i: usize = 0;
    while i < counts.len()
        invariant
            i <= counts@.len(),
            found == recorded(counts@.take(i as int), day as int),
        decreases counts@.len() - i,
    {
        assert(counts@.take(i + 1).drop_last() =~= counts@.take(i as int));
        if counts[i].0 == day {
            found = Some(counts[i].1);
        }
        i = i + 1;
    }
    assert(counts@.take(counts@.len() as int) =~= counts@);
    found
}

/// The Vocabulary Log of the twelve months that end on `end_date`, for a log
/// that started on `started` with the recorded daily `counts`: one entry per
/// day, in order, each with the coverage and count of [`log_day`].
pub fn vocabulary_log(end_date: i32, started: i32, counts: &Vec<(i32, u32)>) -> (r: Result<VocabularyLog, RepositoryError>)
    ensures
        window_start(end_date as int) is None ==> r is Err && r->Err_0@ == RepositoryErrorView::Persistence(
            "invalid calendar range"@),
        window_start(end_date as int) matches Some(start) ==> r is Ok && {
            let log = r->Ok_0;
            &&& log.start_date == start
            &&& log.end_date == end_date
            &&& log.days@.len() == (if start <= end_date { end_date - start + 1 } else { 0 })
            &&& forall|i: int| 0 <= i < log.days@.len() ==> #[trigger] log.days@[i] == log_day(
                start + i,
                started as int,
                recorded(counts@, start + i),
            )
        },
{
    let before = match months_before(end_date, 12) {
        Some(d) => d,
        None => return Err(RepositoryError::persistence("invalid calendar range")),
    };
    let start = match day_after(before) {
        Some(d) => d,
        None => return Err(RepositoryError::persistence("invalid calendar range")),
    };
    let mut days: Vec<VocabularyLogDay> = Vec::new();
    let mut date: i64 = start as i64;
    while date <= end_date as i64
        invariant
            start <= date,
            date <= end_date as i64 + 1 || date == start,
            days@.len() == date - start,
            forall|i: int| 0 <= i < days@.len() ==> #[trigger] days@[i] == log_day(
                start + i,
                started as int,
                recorded(counts@, start + i),
            ),
        decreases end_date as i64 + 1 - date,
    {
        let d = date as i32;
        let rec = recorded_count(counts, d);
        let coverage = if d < started {
            if rec.is_some() { LogCoverage::Partial } else { LogCoverage::Unknown }
        } else if d == started {
            LogCoverage::Partial
        } else {
            LogCoverage::Complete
        };
        let count = match coverage {
            LogCoverage::Unknown => None,
            _ => Some(match rec { Some(c) => c, None => 0 }),
        };
        days.push(VocabularyLogDay { date: d, count, coverage });
        date = date + 1;
    }
    Ok(VocabularyLog { start_date: start, end_date, days })
}

/// The daily count after a save on a day whose count was `current`.
pub open spec fn saved_count(current: Option<u64>) -> int {
    match current {
        Some(n) => n + 1,
        None => 1,
    }
}

/// The daily count after undoing a save of that day; `None` when the day has
/// no positive count, which means the log is inconsistent.
pub open spec fn undone_count(current: Option<u64>) -> Option<int> {
    match current {
        Some(n) => if n > 0 { Some(n - 1) } else { None },
        None => None,
    }
}

pub fn count_after_save(current: Option<u64>) -> (c: u64)
    requires
        current matches Some(n) ==> n < u64::MAX,
    ensures
        c == saved_count(current),
{
    match current {
        Some(n) => n + 1,
        None => 1,
    }
}

/// Undoing a save takes one off the day's count; the undo fails when the day
/// has no positive count.
pub fn count_after_undo(current: Option<u64>) -> (r: Result<u64, RepositoryError>)
    ensures
        match undone_count(current) {
            Some(n) => r == Ok::<u64, RepositoryError>(n as u64),
            None => r is Err && r->Err_0@ == RepositoryErrorView::Persistence("daily capture count is inconsistent"@),
        },
{
    match current {
        Some(n) => if n > 0 { Ok(n - 1) } else { Err(RepositoryError::persistence("daily capture count is inconsistent")) },
        None => Err(RepositoryError::persistence("daily capture count is inconsistent")),
    }
}

/// Undoing a capture gives its day the count it had before the capture (a
/// day without a count had none).
pub proof fn undo_restores_daily_count(current: Option<u64>)
    requires
        current matches Some(n) ==> n < u64::MAX,
    ensures
        undone_count(Some(saved_count(current) as u64)) == Some(match current { Some(n) => n as int, None => 0 }),
{
}

} // verus!
