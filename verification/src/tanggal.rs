//! Calendar dates of the proleptic Gregorian calendar.
//!
//! A [`Tanggal`] holds a year, a month and a day as plain integers. What a
//! date means is given by [`day_number`], the count of days since the day
//! before 0001-01-01. Date arithmetic and parsing are done by `chrono`; the
//! contracts of those calls are stated over `day_number`.

use chrono::{Datelike, NaiveDate};
use vstd::prelude::*;

verus! {

/// The first year a date can have.
pub const MIN_YEAR: i32 = -262143;

/// The last year a date can have.
pub const MAX_YEAR: i32 = 262142;

/// Whether `year` has a 29th of February.
pub open spec fn is_leap_year(year: int) -> bool {
    year % 4 == 0 && (year % 100 != 0 || year % 400 == 0)
}

/// The number of days of `month` in `year`, for a month from 1 to 12.
pub open spec fn days_in_month(year: int, month: int) -> int {
    if month == 2 {
        if is_leap_year(year) { 29 } else { 28 }
    } else if month == 4 || month == 6 || month == 9 || month == 11 {
        30
    } else {
        31
    }
}

/// The number of days of `year`.
pub open spec fn days_in_year(year: int) -> int {
    if is_leap_year(year) { 366 } else { 365 }
}

/// The number of days of `year` that lie before the first of `month`.
pub open spec fn days_before_month(year: int, month: int) -> int
    decreases month,
{
    if month <= 1 {
        0
    } else {
        days_before_month(year, month - 1) + days_in_month(year, month - 1)
    }
}

/// The number of days from 0001-01-01 up to, and without, the first of
/// January of `year`; negative for years before 1.
pub open spec fn days_before_year(year: int) -> int {
    let y = year - 1;
    365 * y + y / 4 - y / 100 + y / 400
}

/// Whether year, month and day name a day of the calendar within the
/// supported years.
pub open spec fn valid_ymd(year: int, month: int, day: int) -> bool {
    &&& MIN_YEAR <= year <= MAX_YEAR
    &&& 1 <= month <= 12
    &&& 1 <= day <= days_in_month(year, month)
}

/// The day number of a calendar day: 0001-01-01 is day 1, and each
/// following day is one more.
pub open spec fn day_number(year: int, month: int, day: int) -> int {
    days_before_year(year) + days_before_month(year, month) + day
}

/// The days before each month, written out.
pub proof fn lemma_days_before_month(year: int)
    ensures
        days_before_month(year, 1) == 0,
        days_before_month(year, 2) == 31,
        days_before_month(year, 3) == 31 + days_in_month(year, 2),
        days_before_month(year, 4) == 62 + days_in_month(year, 2),
        days_before_month(year, 5) == 92 + days_in_month(year, 2),
        days_before_month(year, 6) == 123 + days_in_month(year, 2),
        days_before_month(year, 7) == 153 + days_in_month(year, 2),
        days_before_month(year, 8) == 184 + days_in_month(year, 2),
        days_before_month(year, 9) == 215 + days_in_month(year, 2),
        days_before_month(year, 10) == 245 + days_in_month(year, 2),
        days_before_month(year, 11) == 276 + days_in_month(year, 2),
        days_before_month(year, 12) == 306 + days_in_month(year, 2),
        days_before_month(year, 13) == days_in_year(year),
{
    reveal_with_fuel(days_before_month, 14);
}

/// A year begins where the year before it ends.
pub proof fn lemma_days_before_next_year(year: int)
    ensures
        days_before_year(year + 1) == days_before_year(year) + days_in_year(year),
{
}

/// The years are laid out one after the other.
pub proof fn lemma_days_before_year_monotone(y1: int, y2: int)
    requires
        y1 < y2,
    ensures
        days_before_year(y1) + days_in_year(y1) <= days_before_year(y2),
{
}

/// Of two valid calendar days, the one that comes first when year, month
/// and day are compared in that order has the smaller day number.
pub proof fn lemma_day_number_order(y1: int, m1: int, d1: int, y2: int, m2: int, d2: int)
    requires
        valid_ymd(y1, m1, d1),
        valid_ymd(y2, m2, d2),
    ensures
        day_number(y1, m1, d1) < day_number(y2, m2, d2) <==> (y1 < y2 || (y1 == y2 && (m1 < m2
            || (m1 == m2 && d1 < d2)))),
        day_number(y1, m1, d1) == day_number(y2, m2, d2) <==> (y1 == y2 && m1 == m2 && d1 == d2),
{
    lemma_days_before_month(y1);
    lemma_days_before_month(y2);
    if y1 < y2 {
        lemma_days_before_year_monotone(y1, y2);
    }
    if y2 < y1 {
        lemma_days_before_year_monotone(y2, y1);
    }
}

/// The day number of the last day that a date can be.
pub open spec fn max_day_number() -> int {
    day_number(MAX_YEAR as int, 12, 31)
}

/// The day numbers of the supported days lie between those of the first
/// and of the last of them.
pub proof fn lemma_day_number_range(year: int, month: int, day: int)
    requires
        valid_ymd(year, month, day),
    ensures
        min_day_number() <= day_number(year, month, day) <= max_day_number(),
        -100_000_000 < min_day_number(),
        max_day_number() < 100_000_000,
{
    lemma_day_number_order(MIN_YEAR as int, 1, 1, year, month, day);
    lemma_day_number_order(year, month, day, MAX_YEAR as int, 12, 31);
    lemma_days_before_month(MIN_YEAR as int);
    lemma_days_before_month(MAX_YEAR as int);
}

/// Every day number between those of the first and of the last supported
/// day is the day number of a day of the calendar: the year, the month and
/// the day that are returned.
pub proof fn lemma_day_number_onto(n: int) -> (date: (int, int, int))
    requires
        min_day_number() <= n <= max_day_number(),
    ensures
        valid_ymd(date.0, date.1, date.2),
        day_number(date.0, date.1, date.2) == n,
    decreases n - min_day_number(),
{
    if n == min_day_number() {
        (MIN_YEAR as int, 1, 1)
    } else {
        let (y, m, d) = lemma_day_number_onto(n - 1);
        lemma_day_number_order(y, m, d, MAX_YEAR as int, 12, 31);
        lemma_days_before_month(y);
        if d < days_in_month(y, m) {
            (y, m, d + 1)
        } else if m < 12 {
            (y, m + 1, 1)
        } else {
            lemma_days_before_next_year(y);
            lemma_days_before_month(y + 1);
            (y + 1, 1, 1)
        }
    }
}

/// A day of the week.
#[derive(Clone, Copy, Debug, PartialEq, Eq, Structural)]
pub enum Hari {
    Senin,
    Selasa,
    Rabu,
    Kamis,
    Jumat,
    Sabtu,
    Minggu,
}

/// The day of the week of the day with the given number: day 1 is a Monday.
pub open spec fn weekday_of(day_number: int) -> Hari {
    let k = (day_number - 1) % 7;
    if k == 0 {
        Hari::Senin
    } else if k == 1 {
        Hari::Selasa
    } else if k == 2 {
        Hari::Rabu
    } else if k == 3 {
        Hari::Kamis
    } else if k == 4 {
        Hari::Jumat
    } else if k == 5 {
        Hari::Sabtu
    } else {
        Hari::Minggu
    }
}

impl Hari {
    /// The three-letter label of the day, as charts show it.
    pub fn label(&self) -> (s: &'static str)
        ensures
            s@ == self.spec_label(),
    {
        match self {
            Hari::Senin => "Sen",
            Hari::Selasa => "Sel",
            Hari::Rabu => "Rab",
            Hari::Kamis => "Kam",
            Hari::Jumat => "Jum",
            Hari::Sabtu => "Sab",
            Hari::Minggu => "Min",
        }
    }

    /// The label of the day as a sequence of characters.
    pub open spec fn spec_label(&self) -> Seq<char> {
        match self {
            Hari::Senin => "Sen"@,
            Hari::Selasa => "Sel"@,
            Hari::Rabu => "Rab"@,
            Hari::Kamis => "Kam"@,
            Hari::Jumat => "Jum"@,
            Hari::Sabtu => "Sab"@,
            Hari::Minggu => "Min"@,
        }
    }
}

/// What `chrono` reads from a text under the format `%Y-%m-%d`: the year,
/// month and day, or `None` where it rejects the text.
pub uninterp spec fn parsed_ymd(text: Seq<char>) -> Option<(int, int, int)>;

/// The text that `chrono` writes for a calendar day under the format
/// `%Y-%m-%d`.
pub uninterp spec fn formatted_ymd(year: int, month: int, day: int) -> Seq<char>;

/// The day number of the first day that a date can be.
pub open spec fn min_day_number() -> int {
    day_number(MIN_YEAR as int, 1, 1)
}

/// A calendar day. Every value that a program holds is a day that exists:
/// see [`Tanggal::valid`].
#[derive(Clone, Copy, Debug, PartialEq, Eq, Structural)]
pub struct Tanggal {
    year: i32,
    month: u32,
    day: u32,
}

impl Tanggal {
    /// The invariant of the type: the fields name a day of the calendar.
    #[verifier::type_invariant]
    spec fn inv(&self) -> bool {
        valid_ymd(self.year as int, self.month as int, self.day as int)
    }

    /// Whether the date is a day of the calendar within the supported
    /// years. It holds of every date that a program can hold.
    pub open spec fn valid(&self) -> bool {
        valid_ymd(self.spec_year(), self.spec_month(), self.spec_day())
    }

    /// The year of the date.
    pub closed spec fn spec_year(&self) -> int {
        self.year as int
    }

    /// The month of the date, from 1 to 12.
    pub closed spec fn spec_month(&self) -> int {
        self.month as int
    }

    /// The day of the month, from 1.
    pub closed spec fn spec_day(&self) -> int {
        self.day as int
    }

    /// The day number of the date.
    pub open spec fn day_number(&self) -> int {
        day_number(self.spec_year(), self.spec_month(), self.spec_day())
    }

    /// The year of the date.
    pub fn year(&self) -> (y: i32)
        ensures
            y == self.spec_year(),
            self.valid(),
    {
        proof {
            use_type_invariant(self);
        }
        self.year
    }

    /// The month of the date.
    pub fn month(&self) -> (m: u32)
        ensures
            m == self.spec_month(),
            self.valid(),
    {
        proof {
            use_type_invariant(self);
        }
        self.month
    }

    /// The day of the month.
    pub fn day(&self) -> (d: u32)
        ensures
            d == self.spec_day(),
            self.valid(),
    {
        proof {
            use_type_invariant(self);
        }
        self.day
    }

    /// Two dates with the same year, month and day are the same date.
    pub proof fn lemma_same_fields(a: Tanggal, b: Tanggal)
        requires
            a.spec_year() == b.spec_year(),
            a.spec_month() == b.spec_month(),
            a.spec_day() == b.spec_day(),
        ensures
            a == b,
    {
    }

    /// Two valid dates with the same day number are the same date.
    pub proof fn lemma_day_number_injective(a: Tanggal, b: Tanggal)
        requires
            a.valid(),
            b.valid(),
            a.day_number() == b.day_number(),
        ensures
            a == b,
    {
        lemma_day_number_order(
            a.spec_year(),
            a.spec_month(),
            a.spec_day(),
            b.spec_year(),
            b.spec_month(),
            b.spec_day(),
        );
    }

    /// `chrono::NaiveDate::from_ymd_opt`: a date comes back exactly for a
    /// year within the supported range, a month from 1 to 12 and a day that
    /// the month has, and it holds the three numbers given.
    #[verifier::external_body]
    fn naive_from_ymd_opt(year: i32, month: u32, day: u32) -> (r: Option<Tanggal>)
        ensures
            r is Some <==> valid_ymd(year as int, month as int, day as int),
            r matches Some(t) ==> t.spec_year() == year && t.spec_month() == month && t.spec_day()
                == day,
    {
        NaiveDate::from_ymd_opt(year, month, day).map(
            |d| Tanggal { year: d.year(), month: d.month(), day: d.day() },
        )
    }

    /// `chrono::NaiveDate::parse_from_str` with the format `%Y-%m-%d`: the
    /// result is the one named by [`parsed_ymd`], and a date that comes
    /// back is a day of the calendar.
    #[verifier::external_body]
    fn naive_parse_from_str(text: &str) -> (r: Option<Tanggal>)
        ensures
            r is Some <==> parsed_ymd(text@) is Some,
            r matches Some(t) ==> t.valid() && parsed_ymd(text@) == Some(
                (t.spec_year(), t.spec_month(), t.spec_day()),
            ),
    {
        NaiveDate::parse_from_str(text, "%Y-%m-%d").ok().map(
            |d| Tanggal { year: d.year(), month: d.month(), day: d.day() },
        )
    }

    /// `NaiveDate::checked_sub_signed` with `chrono::Duration::days(days)`:
    /// the date that lies `days` days before the given one, or `None`
    /// where that day lies before the first supported day.
    #[verifier::external_body]
    fn naive_checked_sub_days(date: Tanggal, days: u32) -> (r: Option<Tanggal>)
        requires
            date.valid(),
        ensures
            r is Some <==> date.day_number() - days >= min_day_number(),
            r matches Some(t) ==> t.valid() && t.day_number() == date.day_number() - days,
    {
        NaiveDate::from_ymd_opt(date.year, date.month, date.day).unwrap().checked_sub_signed(
            chrono::Duration::days(days as i64),
        ).map(|d| Tanggal { year: d.year(), month: d.month(), day: d.day() })
    }

    /// `(end - start).num_days()` on two `NaiveDate`s: the number of days
    /// from `start` to `end`, negative where `end` is the earlier.
    #[verifier::external_body]
    fn naive_days_between(start: Tanggal, end: Tanggal) -> (r: i64)
        requires
            start.valid(),
            end.valid(),
        ensures
            r == end.day_number() - start.day_number(),
    {
        let a = NaiveDate::from_ymd_opt(start.year, start.month, start.day).unwrap();
        let b = NaiveDate::from_ymd_opt(end.year, end.month, end.day).unwrap();
        (b - a).num_days()
    }

    /// `chrono::Datelike::weekday` of a `NaiveDate`: the day of the week,
    /// which follows from the day number since day 1 is a Monday.
    #[verifier::external_body]
    fn naive_weekday(date: Tanggal) -> (r: Hari)
        requires
            date.valid(),
        ensures
            r == weekday_of(date.day_number()),
    {
        match NaiveDate::from_ymd_opt(date.year, date.month, date.day).unwrap().weekday() {
            chrono::Weekday::Mon => Hari::Senin,
            chrono::Weekday::Tue => Hari::Selasa,
            chrono::Weekday::Wed => Hari::Rabu,
            chrono::Weekday::Thu => Hari::Kamis,
            chrono::Weekday::Fri => Hari::Jumat,
            chrono::Weekday::Sat => Hari::Sabtu,
            chrono::Weekday::Sun => Hari::Minggu,
        }
    }

    /// `NaiveDate::format("%Y-%m-%d")` written to a `String`: the text
    /// named by [`formatted_ymd`].
    #[verifier::external_body]
    fn naive_format(date: Tanggal) -> (r: String)
        requires
            date.valid(),
        ensures
            r@ == formatted_ymd(date.spec_year(), date.spec_month(), date.spec_day()),
    {
        NaiveDate::from_ymd_opt(date.year, date.month, date.day).unwrap().format(
            "%Y-%m-%d",
        ).to_string()
    }

    /// The date with the given year, month and day, or `None` where the
    /// calendar has no such day within the supported years.
    pub fn from_ymd_opt(year: i32, month: u32, day: u32) -> (r: Option<Tanggal>)
        ensures
            r is Some <==> valid_ymd(year as int, month as int, day as int),
            r matches Some(t) ==> t.valid() && t.spec_year() == year && t.spec_month() == month
                && t.spec_day() == day && t == Self::spec_from_ymd(
                year as int,
                month as int,
                day as int,
            ),
    {
        let r = Self::naive_from_ymd_opt(year, month, day);
        proof {
            if let Some(t) = r {
                Self::lemma_same_fields(
                    t,
                    Self::spec_from_ymd(year as int, month as int, day as int),
                );
            }
        }
        r
    }

    /// The result of reading a text in the form year-month-day, as a date.
    pub open spec fn spec_parse(text: Seq<char>) -> Option<Tanggal> {
        match parsed_ymd(text) {
            Some((y, m, d)) => Some(Self::spec_from_ymd(y, m, d)),
            None => None,
        }
    }

    /// The date that holds the given year, month and day.
    pub closed spec fn spec_from_ymd(year: int, month: int, day: int) -> Tanggal {
        Tanggal { year: year as i32, month: month as u32, day: day as u32 }
    }

    /// Reads a date written as year-month-day, such as `2024-03-01`.
    /// Returns `None` where the text is not such a date.
    pub fn parse_from_str(text: &str) -> (r: Option<Tanggal>)
        ensures
            r == Self::spec_parse(text@),
            r matches Some(t) ==> t.valid(),
    {
        let r = Self::naive_parse_from_str(text);
        proof {
            if let Some(t) = r {
                Self::lemma_same_fields(
                    t,
                    Self::spec_from_ymd(t.spec_year(), t.spec_month(), t.spec_day()),
                );
            }
        }
        r
    }

    /// The date that lies `days` days before this one.
    pub open spec fn spec_minus_days(&self, days: int) -> Tanggal {
        choose|t: Tanggal| t.valid() && t.day_number() == self.day_number() - days
    }

    /// The date `days` days before this one, or `None` where that day lies
    /// before the first supported day.
    pub fn checked_minus_days(&self, days: u32) -> (r: Option<Tanggal>)
        ensures
            self.valid(),
            r is Some <==> self.day_number() - days >= min_day_number(),
            r matches Some(t) ==> t.valid() && t.day_number() == self.day_number() - days && t
                == self.spec_minus_days(days as int),
    {
        proof {
            use_type_invariant(self);
        }
        let r = Self::naive_checked_sub_days(*self, days);
        proof {
            if let Some(t) = r {
                Self::lemma_day_number_injective(t, self.spec_minus_days(days as int));
            }
        }
        r
    }

    /// Where the day `days` days before a date is a supported day,
    /// [`Tanggal::spec_minus_days`] is that day.
    pub proof fn lemma_spec_minus_days(date: Tanggal, days: int)
        requires
            date.valid(),
            days >= 0,
            date.day_number() - days >= min_day_number(),
        ensures
            date.spec_minus_days(days).valid(),
            date.spec_minus_days(days).day_number() == date.day_number() - days,
    {
        lemma_day_number_range(date.spec_year(), date.spec_month(), date.spec_day());
        let (y, m, d) = lemma_day_number_onto(date.day_number() - days);
        Self::lemma_spec_from_ymd(y, m, d);
        let t = Self::spec_from_ymd(y, m, d);
        assert(t.valid() && t.day_number() == date.day_number() - days);
    }

    /// The date that [`Tanggal::spec_from_ymd`] gives for a day of the
    /// calendar holds the year, the month and the day given.
    pub proof fn lemma_spec_from_ymd(year: int, month: int, day: int)
        requires
            valid_ymd(year, month, day),
        ensures
            Self::spec_from_ymd(year, month, day).valid(),
            Self::spec_from_ymd(year, month, day).spec_year() == year,
            Self::spec_from_ymd(year, month, day).spec_month() == month,
            Self::spec_from_ymd(year, month, day).spec_day() == day,
    {
    }

    /// The number of days from this date to `end`; negative where `end` is
    /// the earlier date.
    pub fn days_until(&self, end: &Tanggal) -> (r: i64)
        ensures
            self.valid(),
            end.valid(),
            r == end.day_number() - self.day_number(),
    {
        proof {
            use_type_invariant(self);
            use_type_invariant(end);
        }
        Self::naive_days_between(*self, *end)
    }

    /// The day of the week.
    pub fn weekday(&self) -> (r: Hari)
        ensures
            r == weekday_of(self.day_number()),
    {
        proof {
            use_type_invariant(self);
        }
        Self::naive_weekday(*self)
    }

    /// The date written as year-month-day.
    pub fn format(&self) -> (r: String)
        ensures
            r@ == formatted_ymd(self.spec_year(), self.spec_month(), self.spec_day()),
    {
        proof {
            use_type_invariant(self);
        }
        Self::naive_format(*self)
    }

    /// Whether this date is `other` or comes before it.
    pub fn le(&self, other: &Tanggal) -> (r: bool)
        ensures
            self.valid(),
            other.valid(),
            r == (self.day_number() <= other.day_number()),
    {
        proof {
            use_type_invariant(self);
            use_type_invariant(other);
            lemma_day_number_order(
                self.spec_year(),
                self.spec_month(),
                self.spec_day(),
                other.spec_year(),
                other.spec_month(),
                other.spec_day(),
            );
        }
        self.year < other.year || (self.year == other.year && (self.month < other.month || (
        self.month == other.month && self.day <= other.day)))
    }

    /// Whether this date comes before `other`.
    pub fn lt(&self, other: &Tanggal) -> (r: bool)
        ensures
            r == (self.day_number() < other.day_number()),
    {
        !other.le(self)
    }

    /// Whether the two dates are the same day.
    pub fn same_day(&self, other: &Tanggal) -> (r: bool)
        ensures
            r == (self.day_number() == other.day_number()),
            r == (*self == *other),
    {
        proof {
            use_type_invariant(self);
            use_type_invariant(other);
            lemma_day_number_order(
                self.spec_year(),
                self.spec_month(),
                self.spec_day(),
                other.spec_year(),
                other.spec_month(),
                other.spec_day(),
            );
        }
        self.year == other.year && self.month == other.month && self.day == other.day
    }
}

} // verus!
