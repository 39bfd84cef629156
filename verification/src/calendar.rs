//! Civil dates and times as plain numbers, and the year-month cursor that the
//! fetch loop moves through the calendar.

use vstd::prelude::*;

verus! {

/// Lowest year a civil date may carry: the first year chrono's dates reach.
pub const MIN_YEAR: i32 = -262143;

/// Highest year a civil date may carry: the last year chrono's dates reach.
pub const MAX_YEAR: i32 = 262142;

/// Highest year a month cursor may carry: the last one that four digits write.
pub const MAX_CURSOR_YEAR: u32 = 9999;

/// Whether `year` is a leap year of the proleptic Gregorian calendar.
pub open spec fn is_leap_year(year: int) -> bool {
    year % 4 == 0 && (year % 100 != 0 || year % 400 == 0)
}

/// Number of days of `month` (1 to 12) in `year`; 0 for any other month.
pub open spec fn days_in_month(year: int, month: int) -> int {
    if month == 2 {
        if is_leap_year(year) {
            29
        } else {
            28
        }
    } else if month == 4 || month == 6 || month == 9 || month == 11 {
        30
    } else if 1 <= month <= 12 {
        31
    } else {
        0
    }
}

/// Whether year, month and day name a day of the calendar.
pub open spec fn is_calendar_date(year: int, month: int, day: int) -> bool {
    &&& MIN_YEAR <= year <= MAX_YEAR
    &&& 1 <= month <= 12
    &&& 1 <= day <= days_in_month(year, month)
}

/// A calendar day without a time zone.
#[derive(Clone, Copy, Debug, PartialEq, Eq, Structural)]
pub struct CivilDate {
    pub year: i32,
    pub month: u32,
    pub day: u32,
}

/// A wall-clock time without a time zone.
#[derive(Clone, Copy, Debug, PartialEq, Eq, Structural)]
pub struct CivilTime {
    pub hour: u32,
    pub minute: u32,
    pub second: u32,
}

impl CivilDate {
    /// The date names a day that exists.
    pub open spec fn is_valid(self) -> bool {
        is_calendar_date(self.year as int, self.month as int, self.day as int)
    }
}

impl CivilTime {
    /// Hour, minute and second are within a day's clock.
    pub open spec fn is_valid(self) -> bool {
        self.hour < 24 && self.minute < 60 && self.second < 60
    }
}

/// A calendar month of a year: the fetch loop's position, which always
/// stands for the first day of that month.
#[derive(Clone, Copy, Debug, PartialEq, Eq, Structural)]
pub struct MonthCursor {
    year: u32,
    month: u32,
}

impl MonthCursor {
    /// The month is one of the twelve and the year has at most four digits.
    #[verifier::type_invariant]
    pub closed spec fn wf(self) -> bool {
        self.year <= MAX_CURSOR_YEAR && 1 <= self.month <= 12
    }

    /// The cursor's year.
    pub closed spec fn spec_year(self) -> int {
        self.year as int
    }

    /// The cursor's month, 1 for January.
    pub closed spec fn spec_month(self) -> int {
        self.month as int
    }

    /// Months counted from January of year 0.
    pub open spec fn ordinal(self) -> int {
        self.spec_year() * 12 + (self.spec_month() - 1)
    }

    /// The first day of the cursor's month.
    pub open spec fn first_day(self) -> CivilDate {
        CivilDate { year: self.spec_year() as i32, month: self.spec_month() as u32, day: 1 }
    }

    /// The cursor for `month` of `year`, if the two name a month that a
    /// cursor can hold.
    pub fn new(year: u32, month: u32) -> (cursor: Option<MonthCursor>)
        ensures
            cursor is Some <==> year <= MAX_CURSOR_YEAR && 1 <= month <= 12,
            cursor matches Some(c) ==> c.wf() && c.spec_year() == year && c.spec_month() == month,
    {
        if year <= MAX_CURSOR_YEAR && 1 <= month && month <= 12 {
            Some(MonthCursor { year, month })
        } else {
            None
        }
    }

    /// The month of the day `date` falls in: the day of the month is dropped.
    pub fn containing(date: CivilDate) -> (cursor: Option<MonthCursor>)
        ensures
            cursor is Some <==> 0 <= date.year <= MAX_CURSOR_YEAR && 1 <= date.month <= 12,
            cursor matches Some(c) ==> c.wf() && c.spec_year() == date.year && c.spec_month()
                == date.month,
    {
        if 0 <= date.year && 1 <= date.month && date.month <= 12 {
            let year = date.year as u32;
            if year <= MAX_CURSOR_YEAR {
                Some(MonthCursor { year, month: date.month })
            } else {
                None
            }
        } else {
            None
        }
    }

    /// The cursor's year.
    pub fn year(&self) -> (y: u32)
        ensures
            y == self.spec_year(),
            y <= MAX_CURSOR_YEAR,
    {
        proof {
            use_type_invariant(self);
        }
        self.year
    }

    /// The cursor's month, 1 for January.
    pub fn month(&self) -> (m: u32)
        ensures
            m == self.spec_month(),
            1 <= m <= 12,
    {
        proof {
            use_type_invariant(self);
        }
        self.month
    }

    /// Whether a later month exists that a cursor can hold.
    pub open spec fn has_successor(self) -> bool {
        self.ordinal() < MAX_CURSOR_YEAR * 12 + 11
    }

    /// The cursor one calendar month later.
    pub closed spec fn successor(self) -> MonthCursor {
        if self.month < 12 {
            MonthCursor { year: self.year, month: (self.month + 1) as u32 }
        } else {
            MonthCursor { year: (self.year + 1) as u32, month: 1 }
        }
    }

    /// The cursor one calendar month later, or `None` after December of the
    /// last year.
    pub fn next_month(&self) -> (next: Option<MonthCursor>)
        ensures
            next == if self.has_successor() {
                Some(self.successor())
            } else {
                None
            },
    {
        proof {
            use_type_invariant(self);
        }
        if self.month < 12 {
            Some(MonthCursor { year: self.year, month: self.month + 1 })
        } else if self.year < MAX_CURSOR_YEAR {
            Some(MonthCursor { year: self.year + 1, month: 1 })
        } else {
            None
        }
    }

    /// A cursor stands for a first day that exists.
    pub proof fn lemma_first_day(self)
        requires
            self.wf(),
        ensures
            0 <= self.spec_year() <= MAX_CURSOR_YEAR,
            1 <= self.spec_month() <= 12,
            self.first_day().is_valid(),
            self.first_day().day == 1,
    {
    }

    /// Moving on by a month gives a month that exists, exactly one later,
    /// and its first day is a day of the calendar.
    pub proof fn lemma_successor(self)
        requires
            self.wf(),
            self.has_successor(),
        ensures
            self.successor().wf(),
            self.successor().ordinal() == self.ordinal() + 1,
            self.successor().first_day().is_valid(),
            self.successor().first_day().day == 1,
    {
    }
}

/// From whatever day of a month the fetch loop sets out, also the 29th,
/// 30th or 31st, moving on by a month lands on the first day of the month
/// that follows, which is always a day of the calendar: the day of the
/// month is dropped before the month moves, so no month is ever asked for
/// a day it lacks.
pub proof fn lemma_next_month_is_calendar_date(date: CivilDate, cursor: MonthCursor)
    requires
        date.is_valid(),
        cursor.wf(),
        cursor.spec_year() == date.year,
        cursor.spec_month() == date.month,
        cursor.has_successor(),
    ensures
        cursor.successor().wf(),
        cursor.successor().first_day().is_valid(),
        cursor.successor().first_day().day == 1,
        date.month < 12 ==> cursor.successor().first_day().year == date.year
            && cursor.successor().first_day().month == date.month + 1,
        date.month == 12 ==> cursor.successor().first_day().year == date.year + 1
            && cursor.successor().first_day().month == 1,
{
    cursor.lemma_successor();
}

} // verus!
