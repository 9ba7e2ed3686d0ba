//! Windows of dates: today, the last week, a month, and explicit bounds.

use crate::tanggal::{
    days_in_month, lemma_day_number_order, lemma_day_number_range, lemma_days_before_month,
    lemma_days_before_next_year, min_day_number, valid_ymd, Tanggal,
};
use vstd::prelude::*;

verus! {

/// The span of time that statistics are asked for.
#[derive(Clone, Copy, Debug, PartialEq, Eq, Structural)]
pub enum Filter {
    /// Today.
    Daily,
    /// Today and the seven days before it.
    Weekly,
    /// A month, up to today.
    Monthly,
}

/// A window of dates, both ends counted.
#[derive(Clone, Copy, Debug, PartialEq, Eq, Structural)]
pub struct Window {
    pub start: Tanggal,
    pub end: Tanggal,
}

impl Window {
    /// The number of days of the window; zero or less where it ends before
    /// it starts.
    pub open spec fn spec_days(&self) -> int {
        self.end.day_number() - self.start.day_number() + 1
    }

    /// The number of days of the window; zero or less where it ends before
    /// it starts.
    pub fn days(&self) -> (r: i64)
        ensures
            r == self.spec_days(),
    {
        let between = self.start.days_until(&self.end);
        proof {
            lemma_day_number_range(
                self.start.spec_year(),
                self.start.spec_month(),
                self.start.spec_day(),
            );
            lemma_day_number_range(
                self.end.spec_year(),
                self.end.spec_month(),
                self.end.spec_day(),
            );
        }
        between + 1
    }
}

/// The filter that a text names: `daily`, `weekly`, and the month for
/// every other text and for none.
pub open spec fn spec_filter_of(filter: Option<String>) -> Filter {
    if filter is Some && filter->0@ == "daily"@ {
        Filter::Daily
    } else if filter is Some && filter->0@ == "weekly"@ {
        Filter::Weekly
    } else {
        Filter::Monthly
    }
}

/// Whether `text` reads as `literal`.
fn text_is(text: &String, literal: &str) -> (r: bool)
    ensures
        r == (text@ == literal@),
{
    let other = literal.to_owned();
    *text == other
}

/// The filter that a text names.
pub fn filter_of(filter: &Option<String>) -> (r: Filter)
    ensures
        r == spec_filter_of(*filter),
{
    match filter {
        Some(text) => {
            if text_is(text, "daily") {
                Filter::Daily
            } else if text_is(text, "weekly") {
                Filter::Weekly
            } else {
                Filter::Monthly
            }
        },
        None => Filter::Monthly,
    }
}

/// The year of the month after the given one.
pub open spec fn next_month_year(year: int, month: int) -> int {
    if month == 12 {
        year + 1
    } else {
        year
    }
}

/// The number of the month after the given one.
pub open spec fn next_month(month: int) -> int {
    if month == 12 {
        1
    } else {
        month + 1
    }
}

/// Whether the window of a filter exists: for a week, the day seven days
/// before today is a supported day; for a month, the month named and the
/// one after it begin on supported days.
pub open spec fn default_window_exists(
    filter: Filter,
    year: Option<i32>,
    month: Option<u32>,
    today: Tanggal,
) -> bool {
    let y: int = if year is Some { year->0 as int } else { today.spec_year() };
    let m: int = if month is Some { month->0 as int } else { today.spec_month() };
    match filter {
        Filter::Daily => true,
        Filter::Weekly => today.day_number() - 7 >= min_day_number(),
        Filter::Monthly => valid_ymd(y, m, 1) && valid_ymd(
            next_month_year(y, m),
            next_month(m),
            1,
        ),
    }
}

/// The window of a filter. A day is today alone. A week runs from seven
/// days before today to today. A month runs from its first day to its
/// last, or to today where today comes before that; the month is the one
/// named by `year` and `month`, each of which is that of today where it
/// is not given.
pub open spec fn spec_default_window(
    filter: Filter,
    year: Option<i32>,
    month: Option<u32>,
    today: Tanggal,
) -> Window {
    let y: int = if year is Some { year->0 as int } else { today.spec_year() };
    let m: int = if month is Some { month->0 as int } else { today.spec_month() };
    match filter {
        Filter::Daily => Window { start: today, end: today },
        Filter::Weekly => Window { start: today.spec_minus_days(7), end: today },
        Filter::Monthly => {
            let last = Tanggal::spec_from_ymd(y, m, days_in_month(y, m));
            Window {
                start: Tanggal::spec_from_ymd(y, m, 1),
                end: if today.day_number() <= last.day_number() { today } else { last },
            }
        },
    }
}

/// The window of a filter, or `None` where it does not exist.
pub fn default_window(filter: Filter, year: Option<i32>, month: Option<u32>, today: Tanggal) -> (r:
    Option<Window>)
    ensures
        r is Some <==> default_window_exists(filter, year, month, today),
        r matches Some(w) ==> w == spec_default_window(filter, year, month, today),
        r matches Some(w) ==> (filter == Filter::Weekly ==> w.end == today && w.spec_days() == 8),
{
    match filter {
        Filter::Daily => Some(Window { start: today, end: today }),
        Filter::Weekly => match today.checked_minus_days(7) {
            Some(start) => Some(Window { start, end: today }),
            None => None,
        },
        Filter::Monthly => {
            let y: i32 = match year {
                Some(y) => y,
                None => today.year(),
            };
            let m: u32 = match month {
                Some(m) => m,
                None => today.month(),
            };
            let start = match Tanggal::from_ymd_opt(y, m, 1) {
                Some(d) => d,
                None => {
                    return None;
                },
            };
            let next_m: u32 = if m == 12 { 1 } else { m + 1 };
            let next_y: i32 = if m == 12 { y + 1 } else { y };
            let next = match Tanggal::from_ymd_opt(next_y, next_m, 1) {
                Some(d) => d,
                None => {
                    return None;
                },
            };
            proof {
                lemma_days_before_month(y as int);
                lemma_days_before_month(next_y as int);
                lemma_days_before_next_year(y as int);
                lemma_day_number_order(
                    y as int,
                    m as int,
                    1,
                    next_y as int,
                    next_m as int,
                    1,
                );
                lemma_day_number_range(y as int, m as int, 1);
            }
            let last = match next.checked_minus_days(1) {
                Some(d) => d,
                None => {
                    return None;
                },
            };
            proof {
                let named = Tanggal::spec_from_ymd(
                    y as int,
                    m as int,
                    days_in_month(y as int, m as int),
                );
                Tanggal::lemma_spec_from_ymd(y as int, m as int, days_in_month(y as int, m as int));
                Tanggal::lemma_day_number_injective(last, named);
            }
            let end = if today.le(&last) { today } else { last };
            Some(Window { start, end })
        },
    }
}

/// The window with each end replaced by the explicit date where one is
/// given.
pub open spec fn spec_with_bounds(window: Window, start: Option<Tanggal>, end: Option<Tanggal>) -> Window {
    Window {
        start: if start is Some { start->0 } else { window.start },
        end: if end is Some { end->0 } else { window.end },
    }
}

/// The window with each end replaced by the explicit date where one is
/// given.
pub fn with_bounds(window: Window, start: Option<Tanggal>, end: Option<Tanggal>) -> (r: Window)
    ensures
        r == spec_with_bounds(window, start, end),
{
    Window {
        start: match start {
            Some(d) => d,
            None => window.start,
        },
        end: match end {
            Some(d) => d,
            None => window.end,
        },
    }
}

/// The window that statistics are asked for: that of the filter, with
/// each end replaced by the explicit date where one is given.
pub open spec fn spec_window_of(
    filter: Filter,
    year: Option<i32>,
    month: Option<u32>,
    start: Option<Tanggal>,
    end: Option<Tanggal>,
    today: Tanggal,
) -> Window {
    spec_with_bounds(spec_default_window(filter, year, month, today), start, end)
}

/// The window that statistics are asked for, or `None` where the window
/// of the filter does not exist.
pub fn window_of(
    filter: Filter,
    year: Option<i32>,
    month: Option<u32>,
    start: Option<Tanggal>,
    end: Option<Tanggal>,
    today: Tanggal,
) -> (r: Option<Window>)
    ensures
        r is Some <==> default_window_exists(filter, year, month, today),
        r matches Some(w) ==> w == spec_window_of(filter, year, month, start, end, today),
        r matches Some(w) ==> (filter == Filter::Weekly && start is None && end is None ==> w.end
            == today && w.spec_days() == 8),
{
    match default_window(filter, year, month, today) {
        Some(window) => Some(with_bounds(window, start, end)),
        None => None,
    }
}

/// The window of a week holds eight days: today and the seven before it.
pub proof fn lemma_weekly_window_days(year: Option<i32>, month: Option<u32>, today: Tanggal)
    requires
        today.valid(),
        default_window_exists(Filter::Weekly, year, month, today),
    ensures
        spec_default_window(Filter::Weekly, year, month, today).spec_days() == 8,
        spec_default_window(Filter::Weekly, year, month, today).end == today,
{
    Tanggal::lemma_spec_minus_days(today, 7);
}

} // verus!
