//! The dashboard of a day, and the spending of the current month.

use crate::analytics::recent::{is_recent_list, recent_transaksi};
use crate::analytics::totals::{
    is_highest, is_lowest_positive, total_of, window_highest, window_lowest_positive,
    window_total,
};
use crate::analytics::window::Window;
use crate::database::Database;
use crate::error::ApiError;
use crate::models::statistik::{ChartDataPoint, DashboardResponse, MonthlySpending, SpendingRange};
use crate::models::transaksi::Transaksi;
use crate::tanggal::{min_day_number, weekday_of, Tanggal};
use vstd::prelude::*;

verus! {

/// A sum as the dashboard reports it: zero where it does not fit into 64
/// bits.
pub open spec fn or_zero(total: int) -> int {
    if i64::MIN <= total <= i64::MAX {
        total
    } else {
        0
    }
}

/// The window that holds one day.
pub open spec fn single_day(day: Tanggal) -> Window {
    Window { start: day, end: day }
}

/// The window from the first day of the month of `today` to `today`.
pub open spec fn month_to_date(today: Tanggal) -> Window {
    Window { start: Tanggal::spec_from_ymd(today.spec_year(), today.spec_month(), 1), end: today }
}

/// The window from the first day of the month of `today` to `today`.
pub fn month_to_date_window(today: Tanggal) -> (w: Window)
    ensures
        w == month_to_date(today),
{
    match Tanggal::from_ymd_opt(today.year(), today.month(), 1) {
        Some(start) => Window { start, end: today },
        None => Window { start: today, end: today },
    }
}

/// Whether `value` reports the highest amount among the entries of the
/// user in the window, zero standing for no entry.
pub open spec fn reports_highest(
    value: i64,
    entries: Seq<Transaksi>,
    user_id: u128,
    window: Window,
) -> bool {
    ||| value == 0 && is_highest(None, entries, user_id, window)
    ||| i32::MIN <= value <= i32::MAX && is_highest(Some(value as i32), entries, user_id, window)
}

/// Whether `value` reports the lowest amount above zero among the entries
/// of the user in the window, zero standing for no such entry.
pub open spec fn reports_lowest_positive(
    value: i64,
    entries: Seq<Transaksi>,
    user_id: u128,
    window: Window,
) -> bool {
    ||| value == 0 && is_lowest_positive(None, entries, user_id, window)
    ||| i32::MIN <= value <= i32::MAX && is_lowest_positive(
        Some(value as i32),
        entries,
        user_id,
        window,
    )
}

/// The sum of the amounts of the entries of the user in the window, or
/// zero where it does not fit into 64 bits.
fn total_or_zero(entries: &Vec<Transaksi>, user_id: u128, window: &Window) -> (r: i64)
    ensures
        r == or_zero(total_of(entries@, user_id, *window, None)),
{
    match window_total(entries, user_id, window, None) {
        Some(t) => t,
        None => 0,
    }
}

/// An amount as the dashboard reports it: zero where there is none.
fn amount_or_zero(value: Option<i32>) -> (r: i64)
    ensures
        r == match value {
            Some(v) => v as int,
            None => 0,
        },
{
    match value {
        Some(v) => v as i64,
        None => 0,
    }
}

/// Whether `points` are the seven days that end with `today`, the oldest
/// first: each with the label of its day of the week and with what the
/// user spent on it.
pub open spec fn is_week_series(
    points: Seq<ChartDataPoint>,
    entries: Seq<Transaksi>,
    user_id: u128,
    today: Tanggal,
) -> bool {
    &&& points.len() == 7
    &&& forall|i: int|
        0 <= i < 7 ==> {
            let day = today.spec_minus_days(6 - i);
            &&& (#[trigger] points[i]).hari@ == weekday_of(day.day_number()).spec_label()
            &&& points[i].jumlah == or_zero(total_of(entries, user_id, single_day(day), None))
        }
}

/// What the user spent on each of the seven days that end with `today`,
/// the oldest first. Returns `None` where the first of them lies before
/// the first supported day.
pub fn week_series(entries: &Vec<Transaksi>, user_id: u128, today: Tanggal) -> (r: Option<
    Vec<ChartDataPoint>,
>)
    ensures
        r is Some <==> today.day_number() - 6 >= min_day_number(),
        r matches Some(points) ==> is_week_series(points@, entries@, user_id, today),
{
    let mut points: Vec<ChartDataPoint> = Vec::new();
    let mut i: u32 = 0;
    while i < 7
        invariant
            i <= 7,
            points@.len() == i,
            i > 0 ==> today.day_number() - 6 >= min_day_number(),
            forall|k: int|
                0 <= k < i ==> {
                    let day = today.spec_minus_days(6 - k);
                    &&& (#[trigger] points@[k]).hari@ == weekday_of(day.day_number()).spec_label()
                    &&& points@[k].jumlah == or_zero(
                        total_of(entries@, user_id, single_day(day), None),
                    )
                },
        decreases 7 - i,
    {
        let day = match today.checked_minus_days(6 - i) {
            Some(d) => d,
            None => {
                return None;
            },
        };
        let window = Window { start: day, end: day };
        let hari = day.weekday();
        points.push(
            ChartDataPoint {
                hari: hari.label().to_owned(),
                jumlah: total_or_zero(entries, user_id, &window),
            },
        );
        i += 1;
    }
    Some(points)
}

/// Whether `r` is the dashboard of `user_id` on the day `today`: what was
/// spent today and in the month up to today, the highest entry and the
/// lowest entry above zero of each, the last seven days, and the ten
/// most recent entries. The failure is that the first of the last seven
/// days lies before the first supported day.
pub open spec fn dashboard_outcome(
    db: Database,
    r: Result<DashboardResponse, ApiError>,
    user_id: u128,
    today: Tanggal,
) -> bool {
    let entries = db.transaksi@;
    match r {
        Ok(d) => {
            &&& today.day_number() - 6 >= min_day_number()
            &&& d.total_hari_ini == or_zero(total_of(entries, user_id, single_day(today), None))
            &&& d.total_bulan_ini == or_zero(
                total_of(entries, user_id, month_to_date(today), None),
            )
            &&& reports_highest(d.tertinggi_hari_ini, entries, user_id, single_day(today))
            &&& reports_highest(d.tertinggi_bulan_ini, entries, user_id, month_to_date(today))
            &&& reports_lowest_positive(d.terendah_hari_ini, entries, user_id, single_day(today))
            &&& reports_lowest_positive(
                d.terendah_bulan_ini,
                entries,
                user_id,
                month_to_date(today),
            )
            &&& is_week_series(d.pengeluaran_mingguan@, entries, user_id, today)
            &&& is_recent_list(d.transaksi_terakhir@, entries, db.kategori@, user_id, 10)
        },
        Err(e) => today.day_number() - 6 < min_day_number() && e == ApiError::KesalahanServer,
    }
}

/// The dashboard of `user_id` on the day `today`. A sum that does not fit
/// into 64 bits is reported as zero.
pub fn dashboard_for_user(db: &Database, user_id: u128, today: Tanggal) -> (r: Result<
    DashboardResponse,
    ApiError,
>)
    ensures
        dashboard_outcome(*db, r, user_id, today),
{
    let day = Window { start: today, end: today };
    let month = month_to_date_window(today);
    let series = match week_series(&db.transaksi, user_id, today) {
        Some(points) => points,
        None => {
            return Err(ApiError::KesalahanServer);
        },
    };
    let highest_today = window_highest(&db.transaksi, user_id, &day);
    let highest_month = window_highest(&db.transaksi, user_id, &month);
    let lowest_today = window_lowest_positive(&db.transaksi, user_id, &day);
    let lowest_month = window_lowest_positive(&db.transaksi, user_id, &month);
    Ok(
        DashboardResponse {
            total_bulan_ini: total_or_zero(&db.transaksi, user_id, &month),
            total_hari_ini: total_or_zero(&db.transaksi, user_id, &day),
            tertinggi_bulan_ini: amount_or_zero(highest_month),
            tertinggi_hari_ini: amount_or_zero(highest_today),
            terendah_bulan_ini: amount_or_zero(lowest_month),
            terendah_hari_ini: amount_or_zero(lowest_today),
            pengeluaran_mingguan: series,
            transaksi_terakhir: recent_transaksi(&db.transaksi, &db.kategori, user_id, 10),
        },
    )
}

/// The band that a monthly spending falls into.
pub open spec fn spec_spending_category(monthly: int) -> SpendingRange {
    if monthly <= 20000 {
        SpendingRange::UpTo20000
    } else if monthly <= 30000 {
        SpendingRange::UpTo30000
    } else if monthly <= 60000 {
        SpendingRange::UpTo60000
    } else {
        SpendingRange::Above60000
    }
}

/// The band that a monthly spending falls into.
pub fn spending_category(monthly: i64) -> (r: SpendingRange)
    ensures
        r == spec_spending_category(monthly as int),
{
    if monthly <= 20000 {
        SpendingRange::UpTo20000
    } else if monthly <= 30000 {
        SpendingRange::UpTo30000
    } else if monthly <= 60000 {
        SpendingRange::UpTo60000
    } else {
        SpendingRange::Above60000
    }
}

/// Whether `r` is what `user_id` spent in the month of `today` up to
/// `today`, with the band that this falls into. The failure is that the
/// sum does not fit into 64 bits.
pub open spec fn monthly_spending_outcome(
    db: Database,
    r: Result<MonthlySpending, ApiError>,
    user_id: u128,
    today: Tanggal,
) -> bool {
    let total = total_of(db.transaksi@, user_id, month_to_date(today), None);
    match r {
        Ok(m) => {
            &&& i64::MIN <= total <= i64::MAX
            &&& m.monthly_spending == total
            &&& m.spending_category == spec_spending_category(total)
            &&& m.year == today.spec_year()
            &&& m.month == today.spec_month()
        },
        Err(e) => !(i64::MIN <= total <= i64::MAX) && e == ApiError::KesalahanServer,
    }
}

/// What `user_id` spent in the month of `today` up to `today`, and the
/// band that this falls into.
pub fn monthly_spending_for_user(db: &Database, user_id: u128, today: Tanggal) -> (r: Result<
    MonthlySpending,
    ApiError,
>)
    ensures
        monthly_spending_outcome(*db, r, user_id, today),
{
    let month = month_to_date_window(today);
    let total = match window_total(&db.transaksi, user_id, &month, None) {
        Some(t) => t,
        None => {
            return Err(ApiError::KesalahanServer);
        },
    };
    Ok(
        MonthlySpending {
            monthly_spending: total,
            spending_category: spending_category(total),
            year: today.year(),
            month: today.month(),
        },
    )
}

} // verus!
