//! The statistics of a user as requests name them: the user by the text
//! of an identifier, the window by the texts of a query.

use crate::analytics::dashboard::{
    dashboard_for_user, dashboard_outcome, monthly_spending_for_user, monthly_spending_outcome,
};
use crate::analytics::report::{statistik_for_user, statistik_outcome};
use crate::analytics::window::{
    default_window_exists, filter_of, spec_filter_of, spec_window_of, window_of, Filter, Window,
};
use crate::database::Database;
use crate::error::ApiError;
use crate::models::statistik::{
    DashboardResponse, FilterApplied, MonthlySpending, PengeluaranRange, SpendingRange,
    StatistikQuery, StatistikResult,
};
use crate::tanggal::{formatted_ymd, Tanggal};
use crate::teks::{parse_user_id, parsed_uuid};
use vstd::prelude::*;

verus! {

/// The date that a text gives, where it is given and is a date.
pub open spec fn spec_explicit_date(text: Option<String>) -> Option<Tanggal> {
    if text is Some {
        Tanggal::spec_parse(text->0@)
    } else {
        None
    }
}

/// The date that a text gives, where it is given and is a date.
pub fn explicit_date(text: &Option<String>) -> (r: Option<Tanggal>)
    ensures
        r == spec_explicit_date(*text),
{
    match text {
        Some(t) => Tanggal::parse_from_str(t.as_str()),
        None => None,
    }
}

/// The window that a query asks for: that of its filter, with each end
/// replaced by the explicit date of the query where one is given and
/// readable.
pub open spec fn spec_resolve_window(query: StatistikQuery, today: Tanggal) -> Window {
    spec_window_of(
        spec_filter_of(query.filter),
        query.year,
        query.month,
        spec_explicit_date(query.start_date),
        spec_explicit_date(query.end_date),
        today,
    )
}

/// Whether a query asks for the last week without explicit bounds.
pub open spec fn is_plain_week(query: StatistikQuery) -> bool {
    spec_filter_of(query.filter) == Filter::Weekly && query.start_date is None
        && query.end_date is None
}

/// The window of a query for the last week without explicit bounds ends
/// today, starts seven days before, and so holds eight days.
pub proof fn lemma_weekly_statistics_window(query: StatistikQuery, today: Tanggal)
    requires
        today.valid(),
        is_plain_week(query),
        default_window_exists(Filter::Weekly, query.year, query.month, today),
    ensures
        spec_resolve_window(query, today).end == today,
        spec_resolve_window(query, today).start.valid(),
        spec_resolve_window(query, today).start.day_number() == today.day_number() - 7,
        spec_resolve_window(query, today).spec_days() == 8,
{
    Tanggal::lemma_spec_minus_days(today, 7);
}

/// The window that a query asks for, or `None` where the window of its
/// filter does not exist.
pub fn resolve_window(query: &StatistikQuery, today: Tanggal) -> (r: Option<Window>)
    ensures
        r is Some <==> default_window_exists(
            spec_filter_of(query.filter),
            query.year,
            query.month,
            today,
        ),
        r matches Some(w) ==> w == spec_resolve_window(*query, today),
        r matches Some(w) ==> (is_plain_week(*query) ==> w.end == today && w.spec_days() == 8),
{
    window_of(
        filter_of(&query.filter),
        query.year,
        query.month,
        explicit_date(&query.start_date),
        explicit_date(&query.end_date),
        today,
    )
}

/// The statistics of a user for the window that the query asks for, as
/// [`statistik_for_user`] computes them, together with the window. Fails
/// with [`ApiError::InvalidUserId`] where the user identifier is
/// unreadable, and with [`ApiError::KesalahanServer`] where the window of
/// the filter does not exist or a number does not fit into 64 bits.
pub fn get_user_statistik(db: &Database, user_id: &str, query: &StatistikQuery, today: Tanggal) -> (r:
    Result<StatistikResult, ApiError>)
    ensures
        match parsed_uuid(user_id@) {
            None => r matches Err(e) && e == ApiError::InvalidUserId,
            Some(user) => if !default_window_exists(
                spec_filter_of(query.filter),
                query.year,
                query.month,
                today,
            ) {
                r matches Err(e) && e == ApiError::KesalahanServer
            } else {
                let window = spec_resolve_window(*query, today);
                match r {
                    Ok(s) => {
                        &&& statistik_outcome(*db, Ok(s.data), user, window)
                        &&& is_plain_week(*query) ==> window.end == today
                            && s.data.ringkasan.jumlah_hari == 8
                        &&& s.filter_applied.start_date@ == formatted_ymd(
                            window.start.spec_year(),
                            window.start.spec_month(),
                            window.start.spec_day(),
                        )
                        &&& s.filter_applied.end_date@ == formatted_ymd(
                            window.end.spec_year(),
                            window.end.spec_month(),
                            window.end.spec_day(),
                        )
                        &&& s.filter_applied.filter_type@ == if query.filter is Some {
                            query.filter->0@
                        } else {
                            "monthly"@
                        }
                        &&& s.filter_applied.year == query.year
                        &&& s.filter_applied.month == query.month
                    },
                    Err(e) => statistik_outcome(*db, Err(e), user, window),
                }
            },
        },
{
    let user = match parse_user_id(user_id) {
        Ok(id) => id,
        Err(e) => {
            return Err(e);
        },
    };
    let window = match resolve_window(query, today) {
        Some(w) => w,
        None => {
            return Err(ApiError::KesalahanServer);
        },
    };
    let data = match statistik_for_user(db, user, &window) {
        Ok(data) => data,
        Err(e) => {
            return Err(e);
        },
    };
    let filter_type = match &query.filter {
        Some(text) => text.clone(),
        None => "monthly".to_owned(),
    };
    Ok(
        StatistikResult {
            data,
            filter_applied: FilterApplied {
                start_date: window.start.format(),
                end_date: window.end.format(),
                filter_type,
                year: query.year,
                month: query.month,
            },
        },
    )
}

/// The dashboard of a user on the day `today`, as [`dashboard_for_user`]
/// computes it. Fails with [`ApiError::InvalidUserId`] where the user
/// identifier is unreadable.
pub fn get_dashboard_data(db: &Database, user_id: &str, today: Tanggal) -> (r: Result<
    DashboardResponse,
    ApiError,
>)
    ensures
        match parsed_uuid(user_id@) {
            Some(user) => dashboard_outcome(*db, r, user, today),
            None => r matches Err(e) && e == ApiError::InvalidUserId,
        },
{
    match parse_user_id(user_id) {
        Ok(user) => dashboard_for_user(db, user, today),
        Err(e) => Err(e),
    }
}

/// What the user spent in the current month up to `today`, and the band
/// that this falls into, as [`monthly_spending_for_user`] computes it.
/// Fails with [`ApiError::InvalidUserId`] where the user identifier is
/// unreadable.
pub fn get_user_monthly_spending(db: &Database, user_id: &str, today: Tanggal) -> (r: Result<
    MonthlySpending,
    ApiError,
>)
    ensures
        match parsed_uuid(user_id@) {
            Some(user) => monthly_spending_outcome(*db, r, user, today),
            None => r matches Err(e) && e == ApiError::InvalidUserId,
        },
{
    match parse_user_id(user_id) {
        Ok(user) => monthly_spending_for_user(db, user, today),
        Err(e) => Err(e),
    }
}

/// The bands of monthly spending with the share of users in each: fixed
/// figures for the chart of all users.
pub fn get_spending_ranges() -> (r: Vec<PengeluaranRange>)
    ensures
        r@.len() == 4,
        r@[0].range_label@ == SpendingRange::UpTo20000.spec_label(),
        r@[0].jumlah_user == 20 && r@[0].persentase == 20,
        r@[1].range_label@ == SpendingRange::UpTo30000.spec_label(),
        r@[1].jumlah_user == 25 && r@[1].persentase == 25,
        r@[2].range_label@ == SpendingRange::UpTo60000.spec_label(),
        r@[2].jumlah_user == 40 && r@[2].persentase == 40,
        r@[3].range_label@ == SpendingRange::Above60000.spec_label(),
        r@[3].jumlah_user == 15 && r@[3].persentase == 15,
{
    let mut ranges: Vec<PengeluaranRange> = Vec::new();
    ranges.push(
        PengeluaranRange {
            range_label: SpendingRange::UpTo20000.label().to_owned(),
            jumlah_user: 20,
            persentase: 20,
        },
    );
    ranges.push(
        PengeluaranRange {
            range_label: SpendingRange::UpTo30000.label().to_owned(),
            jumlah_user: 25,
            persentase: 25,
        },
    );
    ranges.push(
        PengeluaranRange {
            range_label: SpendingRange::UpTo60000.label().to_owned(),
            jumlah_user: 40,
            persentase: 40,
        },
    );
    ranges.push(
        PengeluaranRange {
            range_label: SpendingRange::Above60000.label().to_owned(),
            jumlah_user: 15,
            persentase: 15,
        },
    );
    ranges
}

} // verus!
