//! Calendar days, weekdays, and the two windows the ledger is read through:
//! the seven days that end at a reference day, and the latest day in them
//! that falls on a given weekday.
//!
//! A day is held as its number in the proleptic Gregorian calendar, with
//! 1 January of year 1 as day 1. Arithmetic on days and the weekday of a day
//! are computed here on that number; turning a calendar date into its number,
//! and a number into text, is left to `chrono`.

use chrono::Datelike;
use chrono::NaiveDate;
use std::str::FromStr;
use vstd::prelude::*;

verus! {

/// A day of the week.
#[derive(Clone, Copy, Debug, PartialEq, Eq, Structural, Hash)]
pub enum Weekday {
    Mon,
    Tue,
    Wed,
    Thu,
    Fri,
    Sat,
    Sun,
}

impl Weekday {
    /// The number of days since Monday: 0 for Monday, 6 for Sunday.
    pub open spec fn index_of(self) -> int {
        match self {
            Weekday::Mon => 0,
            Weekday::Tue => 1,
            Weekday::Wed => 2,
            Weekday::Thu => 3,
            Weekday::Fri => 4,
            Weekday::Sat => 5,
            Weekday::Sun => 6,
        }
    }

    /// The weekday that lies `index` days after a Monday, for `index` in 0..7.
    pub open spec fn at_index(index: int) -> Weekday {
        if index == 0 {
            Weekday::Mon
        } else if index == 1 {
            Weekday::Tue
        } else if index == 2 {
            Weekday::Wed
        } else if index == 3 {
            Weekday::Thu
        } else if index == 4 {
            Weekday::Fri
        } else if index == 5 {
            Weekday::Sat
        } else {
            Weekday::Sun
        }
    }

    /// The number of days since Monday.
    pub fn num_days_from_monday(self) -> (index: u8)
        ensures
            index == self.index_of(),
            index < 7,
    {
        match self {
            Weekday::Mon => 0,
            Weekday::Tue => 1,
            Weekday::Wed => 2,
            Weekday::Thu => 3,
            Weekday::Fri => 4,
            Weekday::Sat => 5,
            Weekday::Sun => 6,
        }
    }

    /// Reads a weekday from its English name, as `chrono` reads it.
    pub fn from_name(name: &str) -> (weekday: Option<Weekday>)
        ensures
            weekday == weekday_named(name@),
    {
        weekday_from_name(name)
    }
}

/// The weekday of the day with number `days`: day 1 is a Monday.
pub open spec fn weekday_of_day(days: int) -> Weekday {
    Weekday::at_index((days - 1) % 7)
}

/// A calendar day.
#[derive(Clone, Copy, Debug, PartialEq, Eq, Structural, Hash)]
pub struct Date {
    /// The day's number, counted from 1 January of year 1 as day 1.
    pub days: i32,
}

impl Date {
    /// The weekday this day falls on.
    pub open spec fn weekday_of(self) -> Weekday {
        weekday_of_day(self.days as int)
    }

    /// Whether this day lies in the seven days that end at `reference`.
    pub open spec fn in_week_ending(self, reference: Date) -> bool {
        reference.days - 6 <= self.days <= reference.days
    }

    /// The weekday this day falls on.
    pub fn weekday(self) -> (weekday: Weekday)
        ensures
            weekday == self.weekday_of(),
    {
        // 2147483653 is a multiple of 7, so the sum below is never negative
        // and leaves the remainder of `days - 1`.
        let shifted: i64 = self.days as i64 + 2147483652;
        let index: i64 = shifted % 7;
        if index == 0 {
            Weekday::Mon
        } else if index == 1 {
            Weekday::Tue
        } else if index == 2 {
            Weekday::Wed
        } else if index == 3 {
            Weekday::Thu
        } else if index == 4 {
            Weekday::Fri
        } else if index == 5 {
            Weekday::Sat
        } else {
            Weekday::Sun
        }
    }

    /// The day with the number that `chrono` gives the calendar date of a
    /// year, a month and a day of the month, where there is such a date.
    pub fn from_ymd(year: i32, month: u32, day: u32) -> (date: Option<Date>)
        ensures
            date == match civil_day_number(year as int, month as int, day as int) {
                Some(n) => Some(Date { days: n as i32 }),
                None => None::<Date>,
            },
            date matches Some(d) ==> civil_day_number(year as int, month as int, day as int)
                == Some(d.days as int),
    {
        match day_number_from_ymd(year, month, day) {
            Some(days) => Some(Date { days }),
            None => None,
        }
    }

    /// The day with the number that `chrono` gives the `ordinal`-th day of a
    /// year, where the year has such a day.
    pub fn from_yo(year: i32, ordinal: u32) -> (date: Option<Date>)
        ensures
            date == match ordinal_day_number(year as int, ordinal as int) {
                Some(n) => Some(Date { days: n as i32 }),
                None => None::<Date>,
            },
            date matches Some(d) ==> ordinal_day_number(year as int, ordinal as int) == Some(
                d.days as int,
            ),
    {
        match day_number_from_yo(year, ordinal) {
            Some(days) => Some(Date { days }),
            None => None,
        }
    }

    /// The heading of this day's column in the weekly grid: the short name
    /// of the weekday, a line break, then month and day. `None` where
    /// `chrono` cannot represent the day.
    pub fn column_heading(self) -> (text: Option<String>)
        ensures
            text.is_some() == formatted_day(self.days as int, heading_format()).is_some(),
            text matches Some(t) ==> formatted_day(self.days as int, heading_format()) == Some(
                t@,
            ),
    {
        format_day(self.days, "%a\n%m/%d")
    }

    /// This day written out for a title: the weekday's full name, then year,
    /// month and day. `None` where `chrono` cannot represent the day.
    pub fn title(self) -> (text: Option<String>)
        ensures
            text.is_some() == formatted_day(self.days as int, title_format()).is_some(),
            text matches Some(t) ==> formatted_day(self.days as int, title_format()) == Some(t@),
    {
        format_day(self.days, "%A, %Y-%m-%d")
    }

    /// The day `count` days before this one, unless its number would leave
    /// the range of `i32`.
    pub fn minus_days(self, count: u64) -> (earlier: Option<Date>)
        ensures
            match earlier {
                Some(date) => date.days == self.days - count,
                None => self.days - count < i32::MIN,
            },
    {
        let room: i64 = self.days as i64 - i32::MIN as i64;
        if count > room as u64 {
            None
        } else {
            Some(Date { days: (self.days as i64 - count as i64) as i32 })
        }
    }
}

/// The format of a column heading in the weekly grid.
pub open spec fn heading_format() -> Seq<char> {
    "%a\n%m/%d"@
}

/// The format of a day written out for a title.
pub open spec fn title_format() -> Seq<char> {
    "%A, %Y-%m-%d"@
}

/// The numbers of the seven consecutive days that end `offset` days before
/// the day with number `reference`, oldest first.
pub open spec fn rolling_week_days(reference: int, offset: int) -> Seq<int> {
    Seq::new(7, |i: int| reference - offset - 6 + i)
}

/// The number of the day that falls on `target` among the seven days that
/// end at the day with number `reference`.
pub open spec fn last_occurrence_day(reference: int, target: Weekday) -> int {
    reference - (weekday_of_day(reference).index_of() - target.index_of()) % 7
}

/// The numbers of a sequence of days.
pub open spec fn day_numbers(dates: Seq<Date>) -> Seq<int> {
    Seq::new(dates.len(), |i: int| dates[i].days as int)
}

/// The seven consecutive days that end `offset_days` days before `reference`,
/// oldest first. With an offset of 0 the last of them is `reference` itself.
/// The oldest of the seven must have a number that an `i32` holds.
pub fn rolling_week(reference: Date, offset_days: u64) -> (week: Vec<Date>)
    requires
        reference.days - offset_days - 6 >= i32::MIN,
    ensures
        day_numbers(week@) == rolling_week_days(reference.days as int, offset_days as int),
        week@.len() == 7,
        week@[6].days == reference.days - offset_days,
        forall|i: int| 0 <= i < 6 ==> #[trigger] week@[i + 1].days == week@[i].days + 1,
{
    let first: i32 = (reference.days as i64 - offset_days as i64 - 6) as i32;
    let mut week: Vec<Date> = Vec::new();
    let mut i: i32 = 0;
    while i < 7
        invariant
            0 <= i <= 7,
            first == reference.days - offset_days - 6,
            first + 6 <= i32::MAX,
            week@.len() == i,
            forall|j: int| 0 <= j < i ==> #[trigger] week@[j].days == first + j,
        decreases 7 - i,
    {
        week.push(Date { days: first + i });
        i = i + 1;
    }
    assert(day_numbers(week@) =~= rolling_week_days(reference.days as int, offset_days as int));
    week
}

/// The most recent day, `reference` included, that falls on `target`. It is
/// the only day with that weekday among the seven that end at `reference`.
/// The oldest of the seven must have a number that an `i32` holds.
pub fn last_occurrence_of_weekday(reference: Date, target: Weekday) -> (found: Date)
    requires
        reference.days - 6 >= i32::MIN,
    ensures
        found.days == last_occurrence_day(reference.days as int, target),
        found.in_week_ending(reference),
        found.weekday_of() == target,
        forall|other: Date|
            other.in_week_ending(reference) && #[trigger] other.weekday_of() == target ==> other
                == found,
{
    let today: u8 = reference.weekday().num_days_from_monday();
    let wanted: u8 = target.num_days_from_monday();
    let back: u8 = (today + 7 - wanted) % 7;
    let found = Date { days: reference.days - back as i32 };
    proof {
        lemma_one_weekday_per_week(reference.days as int, target);
        assert forall|other: Date|
            other.in_week_ending(reference) && #[trigger] other.weekday_of() == target implies other
            == found by {
            assert(weekday_of_day(other.days as int) == target);
        }
    }
    found
}

/// Every weekday falls exactly once in the seven days that end at a given
/// day: on the day that `last_occurrence_day` names, and on no other.
pub proof fn lemma_one_weekday_per_week(reference: int, target: Weekday)
    ensures
        reference - 6 <= last_occurrence_day(reference, target) <= reference,
        weekday_of_day(last_occurrence_day(reference, target)) == target,
        forall|other: int|
            reference - 6 <= other <= reference && #[trigger] weekday_of_day(other) == target
                ==> other == last_occurrence_day(reference, target),
{
}

/// A rolling week holds seven days, each one day after the one before, and
/// ends `offset` days before the reference day: at the reference day itself
/// where the offset is 0.
pub proof fn lemma_rolling_week_shape(reference: int, offset: int)
    ensures
        rolling_week_days(reference, offset).len() == 7,
        rolling_week_days(reference, offset)[6] == reference - offset,
        rolling_week_days(reference, 0)[6] == reference,
        forall|i: int|
            0 <= i < 6 ==> #[trigger] rolling_week_days(reference, offset)[i + 1]
                == rolling_week_days(reference, offset)[i] + 1,
{
}

/// The number of the day that `chrono` gives for a calendar date, or `None`
/// where it knows no such date.
pub uninterp spec fn civil_day_number(year: int, month: int, day: int) -> Option<int>;

/// The number of the day that `chrono` gives for the `ordinal`-th day of a
/// year, or `None` where it knows no such day.
pub uninterp spec fn ordinal_day_number(year: int, ordinal: int) -> Option<int>;

/// The weekday that `chrono` reads from a name, or `None` where it reads none.
pub uninterp spec fn weekday_named(name: Seq<char>) -> Option<Weekday>;

/// The text `chrono` gives for a day under a format, or `None` where the day
/// is outside the dates it can represent.
pub uninterp spec fn formatted_day(days: int, format: Seq<char>) -> Option<Seq<char>>;

/// Calls `chrono::NaiveDate::from_ymd_opt` and, on the date it returns,
/// `Datelike::num_days_from_ce`. Nothing is claimed of the number but that it
/// depends on year, month and day alone.
#[verifier::external_body]
fn day_number_from_ymd(year: i32, month: u32, day: u32) -> (days: Option<i32>)
    ensures
        match days {
            Some(n) => civil_day_number(year as int, month as int, day as int) == Some(n as int),
            None => civil_day_number(year as int, month as int, day as int) is None,
        },
{
    match NaiveDate::from_ymd_opt(year, month, day) {
        Some(date) => Some(date.num_days_from_ce()),
        None => None,
    }
}

/// Calls `chrono::NaiveDate::from_yo_opt` and, on the date it returns,
/// `Datelike::num_days_from_ce`. Nothing is claimed of the number but that it
/// depends on year and ordinal alone.
#[verifier::external_body]
fn day_number_from_yo(year: i32, ordinal: u32) -> (days: Option<i32>)
    ensures
        match days {
            Some(n) => ordinal_day_number(year as int, ordinal as int) == Some(n as int),
            None => ordinal_day_number(year as int, ordinal as int) is None,
        },
{
    match NaiveDate::from_yo_opt(year, ordinal) {
        Some(date) => Some(date.num_days_from_ce()),
        None => None,
    }
}

/// Calls `chrono`'s `FromStr` for `chrono::Weekday`, which reads the short
/// and the long English names without regard to case. Nothing is claimed of
/// the result but that it depends on the name alone.
#[verifier::external_body]
fn weekday_from_name(name: &str) -> (weekday: Option<Weekday>)
    ensures
        weekday == weekday_named(name@),
{
    match chrono::Weekday::from_str(name) {
        Ok(chrono::Weekday::Mon) => Some(Weekday::Mon),
        Ok(chrono::Weekday::Tue) => Some(Weekday::Tue),
        Ok(chrono::Weekday::Wed) => Some(Weekday::Wed),
        Ok(chrono::Weekday::Thu) => Some(Weekday::Thu),
        Ok(chrono::Weekday::Fri) => Some(Weekday::Fri),
        Ok(chrono::Weekday::Sat) => Some(Weekday::Sat),
        Ok(chrono::Weekday::Sun) => Some(Weekday::Sun),
        Err(_) => None,
    }
}

/// Calls `chrono::NaiveDate::from_num_days_from_ce_opt` and, on the date it
/// returns, `NaiveDate::format` with `format`, whose text is collected.
/// Nothing is claimed of the text but that it depends on the day's number
/// and the format alone. Collecting the text panics on a format that asks
/// for more than a date holds, so only the two formats of this library are
/// let through.
#[verifier::external_body]
fn format_day(days: i32, format: &str) -> (text: Option<String>)
    requires
        format@ == heading_format() || format@ == title_format(),
    ensures
        match text {
            Some(t) => formatted_day(days as int, format@) == Some(t@),
            None => formatted_day(days as int, format@) is None,
        },
{
    match NaiveDate::from_num_days_from_ce_opt(days) {
        Some(date) => Some(date.format(format).to_string()),
        None => None,
    }
}

} // verus!
