use finance_tracker::database::Database;
use finance_tracker::error::ApiError;
use finance_tracker::models::kategori::Kategori;
use finance_tracker::models::statistik::{SpendingRange, StatistikQuery};
use finance_tracker::models::transaksi::Transaksi;
use finance_tracker::analytics::breakdown::category_breakdown;
use finance_tracker::analytics::recent::recent_transaksi;
use finance_tracker::analytics::totals::{
    percentage_basis_points, window_count, window_highest, window_lowest_positive, window_total,
};
use finance_tracker::analytics::dashboard::{
    dashboard_for_user, month_to_date_window, monthly_spending_for_user, spending_category,
    week_series,
};
use finance_tracker::analytics::report::{statistik_for_user, summarize};
use finance_tracker::analytics::window::{
    default_window, filter_of, window_of, with_bounds, Filter, Window,
};
use finance_tracker::routes::statistik::{
    explicit_date, get_dashboard_data, get_spending_ranges, get_user_monthly_spending,
    get_user_statistik, resolve_window,
};
use finance_tracker::tanggal::{Tanggal, MAX_YEAR, MIN_YEAR};

const USER: &str = "8787368b-3437-4440-9d99-0675386f1626";
const UID: u128 = 0x8787368b_3437_4440_9d99_0675386f1626;
const OTHER: u128 = 7;

fn date(y: i32, m: u32, d: u32) -> Tanggal {
    Tanggal::from_ymd_opt(y, m, d).unwrap()
}

fn row(id: i32, user_id: u128, kategori_id: i32, jumlah: i32, tanggal: Tanggal) -> Transaksi {
    Transaksi {
        id,
        user_id,
        kategori_id,
        jumlah,
        deskripsi: format!("entri {}", id),
        tanggal,
        created_at: Some(id as i64),
        updated_at: Some(id as i64),
    }
}

fn kategori(id: i32, nama: &str) -> Kategori {
    Kategori { id, nama: nama.to_string(), created_at: Some(0), updated_at: Some(0) }
}

fn store(entries: Vec<Transaksi>) -> Database {
    let mut db = Database::new();
    db.kategori = vec![kategori(1, "Makan"), kategori(2, "Transport"), kategori(3, "Hiburan")];
    db.last_kategori_id = 3;
    db.last_transaksi_id = entries.iter().map(|t| t.id).max().unwrap_or(0);
    db.transaksi = entries;
    db
}

fn query(filter: Option<&str>) -> StatistikQuery {
    StatistikQuery {
        filter: filter.map(|f| f.to_string()),
        start_date: None,
        end_date: None,
        year: None,
        month: None,
    }
}

fn march() -> Vec<Transaksi> {
    vec![
        row(1, UID, 1, 3000, date(2024, 3, 1)),
        row(2, UID, 2, 1000, date(2024, 3, 8)),
        row(3, UID, 1, 2000, date(2024, 3, 15)),
        row(4, OTHER, 1, 9000, date(2024, 3, 15)),
        row(5, UID, 2, 500, date(2024, 2, 29)),
        row(6, UID, 1, 250, date(2024, 3, 16)),
    ]
}

#[test]
fn filters_are_named_by_text() {
    assert_eq!(filter_of(&Some("daily".to_string())), Filter::Daily);
    assert_eq!(filter_of(&Some("weekly".to_string())), Filter::Weekly);
    assert_eq!(filter_of(&Some("monthly".to_string())), Filter::Monthly);
    assert_eq!(filter_of(&Some("Daily".to_string())), Filter::Monthly);
    assert_eq!(filter_of(&Some("".to_string())), Filter::Monthly);
    assert_eq!(filter_of(&None), Filter::Monthly);
}

#[test]
fn the_daily_window_is_today() {
    let today = date(2024, 3, 15);
    let w = default_window(Filter::Daily, Some(1999), Some(99), today).unwrap();
    assert_eq!(w, Window { start: today, end: today });
    assert_eq!(w.days(), 1);
}

#[test]
fn the_weekly_window_holds_eight_days() {
    for today in [date(2024, 3, 15), date(2024, 3, 3), date(2024, 1, 2), date(2023, 3, 5)] {
        let w = resolve_window(&query(Some("weekly")), today).unwrap();
        assert_eq!(w.end, today);
        assert_eq!(w.days(), 8);
        assert_eq!(w.start.days_until(&today), 7);
    }
    let w = resolve_window(&query(Some("weekly")), date(2024, 3, 3)).unwrap();
    assert_eq!(w.start, date(2024, 2, 25));
    assert!(default_window(Filter::Weekly, None, None, date(MIN_YEAR, 1, 7)).is_none());
    assert!(default_window(Filter::Weekly, None, None, date(MIN_YEAR, 1, 8)).is_some());
}

#[test]
fn the_monthly_window_ends_today_or_with_the_month() {
    let today = date(2024, 3, 15);
    let current = default_window(Filter::Monthly, None, None, today).unwrap();
    assert_eq!(current, Window { start: date(2024, 3, 1), end: today });
    let past = default_window(Filter::Monthly, Some(2024), Some(2), today).unwrap();
    assert_eq!(past, Window { start: date(2024, 2, 1), end: date(2024, 2, 29) });
    assert_eq!(past.days(), 29);
    let december = default_window(Filter::Monthly, Some(2023), Some(12), today).unwrap();
    assert_eq!(december, Window { start: date(2023, 12, 1), end: date(2023, 12, 31) });
    let year_only = default_window(Filter::Monthly, Some(2023), None, today).unwrap();
    assert_eq!(year_only, Window { start: date(2023, 3, 1), end: date(2023, 3, 31) });
    let future = default_window(Filter::Monthly, Some(2024), Some(5), today).unwrap();
    assert_eq!(future, Window { start: date(2024, 5, 1), end: today });
    assert!(future.days() <= 0);
    assert!(default_window(Filter::Monthly, None, Some(13), today).is_none());
    assert!(default_window(Filter::Monthly, None, Some(0), today).is_none());
    assert!(default_window(Filter::Monthly, Some(MAX_YEAR + 1), Some(1), today).is_none());
    assert!(default_window(Filter::Monthly, Some(MAX_YEAR), Some(12), today).is_none());
    assert!(default_window(Filter::Monthly, Some(MAX_YEAR), Some(11), today).is_some());
}

#[test]
fn explicit_bounds_replace_each_end_on_its_own() {
    let today = date(2024, 3, 15);
    let mut q = query(Some("daily"));
    q.start_date = Some("2024-01-10".to_string());
    assert_eq!(
        resolve_window(&q, today).unwrap(),
        Window { start: date(2024, 1, 10), end: today }
    );
    q.end_date = Some("2024-01-20".to_string());
    assert_eq!(
        resolve_window(&q, today).unwrap(),
        Window { start: date(2024, 1, 10), end: date(2024, 1, 20) }
    );
    q.start_date = Some("10 Jan".to_string());
    assert_eq!(
        resolve_window(&q, today).unwrap(),
        Window { start: today, end: date(2024, 1, 20) }
    );
    q.end_date = Some("2024-02-31".to_string());
    assert_eq!(resolve_window(&q, today).unwrap(), Window { start: today, end: today });
    let mut q = query(None);
    q.month = Some(13);
    q.start_date = Some("2024-01-10".to_string());
    q.end_date = Some("2024-01-20".to_string());
    assert!(resolve_window(&q, today).is_none());
}

#[test]
fn totals_counts_and_extremes_of_a_window() {
    let entries = march();
    let w = Window { start: date(2024, 3, 1), end: date(2024, 3, 15) };
    assert_eq!(window_total(&entries, UID, &w, None), Some(6000));
    assert_eq!(window_total(&entries, UID, &w, Some(1)), Some(5000));
    assert_eq!(window_total(&entries, UID, &w, Some(3)), Some(0));
    assert_eq!(window_total(&entries, OTHER, &w, None), Some(9000));
    assert_eq!(window_count(&entries, UID, &w, None), 3);
    assert_eq!(window_count(&entries, UID, &w, Some(2)), 1);
    assert_eq!(window_highest(&entries, UID, &w), Some(3000));
    assert_eq!(window_lowest_positive(&entries, UID, &w), Some(1000));
    let empty = Window { start: date(2025, 1, 1), end: date(2025, 1, 31) };
    assert_eq!(window_total(&entries, UID, &empty, None), Some(0));
    assert_eq!(window_count(&entries, UID, &empty, None), 0);
    assert_eq!(window_highest(&entries, UID, &empty), None);
    assert_eq!(window_lowest_positive(&entries, UID, &empty), None);
    let inverted = Window { start: date(2024, 3, 15), end: date(2024, 3, 1) };
    assert_eq!(window_count(&entries, UID, &inverted, None), 0);
}

#[test]
fn the_lowest_amount_leaves_out_zero() {
    let today = date(2024, 3, 15);
    let entries = vec![
        row(1, UID, 1, 0, today),
        row(2, UID, 1, 0, today),
        row(3, UID, 1, 7, today),
    ];
    let w = Window { start: today, end: today };
    assert_eq!(window_lowest_positive(&entries, UID, &w), Some(7));
    assert_eq!(window_highest(&entries, UID, &w), Some(7));
    let d = get_dashboard_data(&store(entries), USER, today).unwrap();
    assert_eq!(d.terendah_hari_ini, 7);
    assert_eq!(d.terendah_bulan_ini, 7);
    assert_eq!(d.tertinggi_hari_ini, 7);
    let zeros = vec![row(1, UID, 1, 0, today), row(2, UID, 1, -4, today)];
    assert_eq!(window_lowest_positive(&zeros, UID, &w), None);
    assert_eq!(window_highest(&zeros, UID, &w), Some(0));
    let d = get_dashboard_data(&store(zeros), USER, today).unwrap();
    assert_eq!(d.terendah_hari_ini, 0);
    assert_eq!(d.total_hari_ini, -4);
}

#[test]
fn sums_that_do_not_fit_are_reported_as_missing() {
    let today = date(2024, 3, 15);
    let w = Window { start: today, end: today };
    let many: Vec<Transaksi> = (0..5).map(|i| row(i, UID, 1, i32::MAX, today)).collect();
    assert_eq!(window_total(&many, UID, &w, None), Some(5 * (i32::MAX as i64)));
}

#[test]
fn percentages_are_rounded_to_hundredths() {
    assert_eq!(percentage_basis_points(1, 3), Some(3333));
    assert_eq!(percentage_basis_points(2, 3), Some(6667));
    assert_eq!(percentage_basis_points(1, 8), Some(1250));
    assert_eq!(percentage_basis_points(5000, 6000), Some(8333));
    assert_eq!(percentage_basis_points(1, 20000), Some(1));
    assert_eq!(percentage_basis_points(1, 20001), Some(0));
    assert_eq!(percentage_basis_points(-1, 20000), Some(-1));
    assert_eq!(percentage_basis_points(-1, 3), Some(-3333));
    assert_eq!(percentage_basis_points(7, 7), Some(10000));
    assert_eq!(percentage_basis_points(0, 7), Some(0));
    assert_eq!(percentage_basis_points(5, 0), Some(0));
    assert_eq!(percentage_basis_points(5, -3), Some(0));
    assert_eq!(percentage_basis_points(i64::MAX, 1), None);
    assert_eq!(percentage_basis_points(i64::MIN, 1), None);
    assert_eq!(percentage_basis_points(i64::MAX, i64::MAX), Some(10000));
}

#[test]
fn the_breakdown_lists_every_category_in_order() {
    let db = store(march());
    let w = Window { start: date(2024, 3, 1), end: date(2024, 3, 15) };
    let rows = category_breakdown(&db.kategori, &db.transaksi, UID, &w).unwrap();
    let shown: Vec<(&str, i64, i64)> = rows
        .iter()
        .map(|r| (r.kategori_nama.as_str(), r.total_pengeluaran, r.persentase_basis_poin))
        .collect();
    assert_eq!(shown, vec![("Makan", 5000, 8333), ("Transport", 1000, 1667), ("Hiburan", 0, 0)]);
}

#[test]
fn the_breakdown_of_nothing_is_all_zero_and_by_name() {
    let db = store(march());
    let w = Window { start: date(2025, 1, 1), end: date(2025, 1, 31) };
    let rows = category_breakdown(&db.kategori, &db.transaksi, UID, &w).unwrap();
    let shown: Vec<(&str, i64, i64)> = rows
        .iter()
        .map(|r| (r.kategori_nama.as_str(), r.total_pengeluaran, r.persentase_basis_poin))
        .collect();
    assert_eq!(shown, vec![("Hiburan", 0, 0), ("Makan", 0, 0), ("Transport", 0, 0)]);
    assert!(category_breakdown(&Vec::new(), &db.transaksi, UID, &w).unwrap().is_empty());
}

#[test]
fn names_are_ordered_by_their_characters() {
    let kategori = vec![kategori(1, "b"), kategori(2, "B"), kategori(3, "ab"), kategori(4, "a")];
    let w = Window { start: date(2025, 1, 1), end: date(2025, 1, 31) };
    let rows = category_breakdown(&kategori, &Vec::new(), UID, &w).unwrap();
    let names: Vec<&str> = rows.iter().map(|r| r.kategori_nama.as_str()).collect();
    assert_eq!(names, vec!["B", "a", "ab", "b"]);
}

#[test]
fn the_summary_counts_the_days_of_the_window() {
    let entries = march();
    let w = Window { start: date(2024, 3, 1), end: date(2024, 3, 15) };
    let s = summarize(&entries, UID, &w).unwrap();
    assert_eq!(s.total_pengeluaran, 6000);
    assert_eq!(s.jumlah_hari, 15);
    assert_eq!(s.total_transaksi, 3);
    assert_eq!(s.tertinggi_hari_ini, None);
    assert_eq!(s.terendah_bulan_ini, None);
}

#[test]
fn statistics_of_a_week() {
    let db = store(march());
    let s = get_user_statistik(&db, USER, &query(Some("weekly")), date(2024, 3, 15)).unwrap();
    assert_eq!(s.filter_applied.start_date, "2024-03-08");
    assert_eq!(s.filter_applied.end_date, "2024-03-15");
    assert_eq!(s.filter_applied.filter_type, "weekly");
    assert_eq!(s.data.ringkasan.jumlah_hari, 8);
    assert_eq!(s.data.ringkasan.total_pengeluaran, 3000);
    assert_eq!(s.data.ringkasan.total_transaksi, 2);
    let shown: Vec<(&str, i64, i64)> = s
        .data
        .pengeluaran_per_kategori
        .iter()
        .map(|r| (r.kategori_nama.as_str(), r.total_pengeluaran, r.persentase_basis_poin))
        .collect();
    assert_eq!(shown, vec![("Makan", 2000, 6667), ("Transport", 1000, 3333), ("Hiburan", 0, 0)]);
}

#[test]
fn statistics_of_a_month_by_default() {
    let db = store(march());
    let mut q = query(None);
    q.year = Some(2024);
    q.month = Some(2);
    let s = get_user_statistik(&db, USER, &q, date(2024, 3, 15)).unwrap();
    assert_eq!(s.filter_applied.start_date, "2024-02-01");
    assert_eq!(s.filter_applied.end_date, "2024-02-29");
    assert_eq!(s.filter_applied.filter_type, "monthly");
    assert_eq!(s.filter_applied.year, Some(2024));
    assert_eq!(s.filter_applied.month, Some(2));
    assert_eq!(s.data.ringkasan.total_pengeluaran, 500);
    assert_eq!(s.data.ringkasan.jumlah_hari, 29);
    assert_eq!(s.data.pengeluaran_per_kategori[0].kategori_nama, "Transport");
    assert_eq!(s.data.pengeluaran_per_kategori[0].persentase_basis_poin, 10000);
}

#[test]
fn statistics_fail_on_bad_users_and_windows() {
    let db = store(march());
    let today = date(2024, 3, 15);
    assert_eq!(
        get_user_statistik(&db, "u", &query(None), today).unwrap_err(),
        ApiError::InvalidUserId
    );
    let mut q = query(Some("monthly"));
    q.month = Some(13);
    assert_eq!(get_user_statistik(&db, USER, &q, today).unwrap_err(), ApiError::KesalahanServer);
}

#[test]
fn the_dashboard_of_a_day() {
    let today = date(2024, 3, 16);
    let mut entries = march();
    entries.push(row(7, UID, 9, 40, today));
    let d = get_dashboard_data(&store(entries), USER, today).unwrap();
    assert_eq!(d.total_hari_ini, 290);
    assert_eq!(d.total_bulan_ini, 6290);
    assert_eq!(d.tertinggi_hari_ini, 250);
    assert_eq!(d.tertinggi_bulan_ini, 3000);
    assert_eq!(d.terendah_hari_ini, 40);
    assert_eq!(d.terendah_bulan_ini, 40);
    let series: Vec<(&str, i64)> =
        d.pengeluaran_mingguan.iter().map(|p| (p.hari.as_str(), p.jumlah)).collect();
    assert_eq!(
        series,
        vec![
            ("Min", 0),
            ("Sen", 0),
            ("Sel", 0),
            ("Rab", 0),
            ("Kam", 0),
            ("Jum", 2000),
            ("Sab", 290)
        ]
    );
    let recent: Vec<(i32, &str, &str)> = d
        .transaksi_terakhir
        .iter()
        .map(|t| (t.id, t.tanggal.as_str(), t.kategori_nama.as_str()))
        .collect();
    assert_eq!(
        recent,
        vec![
            (7, "2024-03-16", "Tanpa Kategori"),
            (6, "2024-03-16", "Makan"),
            (3, "2024-03-15", "Makan"),
            (2, "2024-03-08", "Transport"),
            (1, "2024-03-01", "Makan"),
            (5, "2024-02-29", "Transport"),
        ]
    );
    assert_eq!(d.transaksi_terakhir[0].deskripsi, "entri 7");
    assert_eq!(d.transaksi_terakhir[0].jumlah, 40);
}

#[test]
fn the_dashboard_of_a_user_without_entries_is_empty() {
    let d = get_dashboard_data(&store(march()), "00000000-0000-0000-0000-000000000009", date(2024, 3, 16))
        .unwrap();
    assert_eq!(d.total_hari_ini, 0);
    assert_eq!(d.total_bulan_ini, 0);
    assert_eq!(d.tertinggi_bulan_ini, 0);
    assert_eq!(d.terendah_bulan_ini, 0);
    assert_eq!(d.pengeluaran_mingguan.len(), 7);
    assert!(d.pengeluaran_mingguan.iter().all(|p| p.jumlah == 0));
    assert!(d.transaksi_terakhir.is_empty());
}

#[test]
fn the_dashboard_fails_on_bad_users_and_days() {
    let db = store(march());
    assert_eq!(
        get_dashboard_data(&db, "nobody", date(2024, 3, 16)).unwrap_err(),
        ApiError::InvalidUserId
    );
    assert_eq!(
        get_dashboard_data(&db, USER, date(MIN_YEAR, 1, 6)).unwrap_err(),
        ApiError::KesalahanServer
    );
    assert!(get_dashboard_data(&db, USER, date(MIN_YEAR, 1, 7)).is_ok());
    assert!(week_series(&db.transaksi, UID, date(MIN_YEAR, 1, 6)).is_none());
}

#[test]
fn the_most_recent_entries_are_ten_at_most() {
    let today = date(2024, 3, 16);
    let mut entries: Vec<Transaksi> = (1..=12).map(|i| row(i, UID, 1, i, today)).collect();
    entries[4].created_at = None;
    entries.push(row(13, UID, 1, 5, date(2024, 3, 17)));
    let db = store(entries);
    let rows = recent_transaksi(&db.transaksi, &db.kategori, UID, 10);
    let ids: Vec<i32> = rows.iter().map(|r| r.id).collect();
    assert_eq!(ids, vec![13, 5, 12, 11, 10, 9, 8, 7, 6, 4]);
    assert!(recent_transaksi(&db.transaksi, &db.kategori, UID, 0).is_empty());
    assert_eq!(recent_transaksi(&db.transaksi, &db.kategori, UID, 50).len(), 13);
}

#[test]
fn the_month_to_date_starts_on_the_first() {
    assert_eq!(
        month_to_date_window(date(2024, 3, 16)),
        Window { start: date(2024, 3, 1), end: date(2024, 3, 16) }
    );
    assert_eq!(
        month_to_date_window(date(2024, 3, 1)),
        Window { start: date(2024, 3, 1), end: date(2024, 3, 1) }
    );
}

#[test]
fn monthly_spending_falls_into_a_band() {
    assert_eq!(spending_category(0), SpendingRange::UpTo20000);
    assert_eq!(spending_category(-5), SpendingRange::UpTo20000);
    assert_eq!(spending_category(20000), SpendingRange::UpTo20000);
    assert_eq!(spending_category(20001), SpendingRange::UpTo30000);
    assert_eq!(spending_category(30000), SpendingRange::UpTo30000);
    assert_eq!(spending_category(30001), SpendingRange::UpTo60000);
    assert_eq!(spending_category(60000), SpendingRange::UpTo60000);
    assert_eq!(spending_category(60001), SpendingRange::Above60000);
    assert_eq!(SpendingRange::UpTo30000.label(), "$ 20,000 - $ 30,000");
    let mut entries = march();
    entries.push(row(9, UID, 1, 20000, date(2024, 3, 2)));
    let m = get_user_monthly_spending(&store(entries), USER, date(2024, 3, 15)).unwrap();
    assert_eq!(m.monthly_spending, 26000);
    assert_eq!(m.spending_category, SpendingRange::UpTo30000);
    assert_eq!((m.year, m.month), (2024, 3));
    assert_eq!(
        get_user_monthly_spending(&store(march()), "-", date(2024, 3, 15)).unwrap_err(),
        ApiError::InvalidUserId
    );
}

#[test]
fn the_bands_of_all_users_are_fixed() {
    let ranges = get_spending_ranges();
    let shown: Vec<(&str, i64, i64)> =
        ranges.iter().map(|r| (r.range_label.as_str(), r.jumlah_user, r.persentase)).collect();
    assert_eq!(
        shown,
        vec![
            ("$ 0 - $ 20,000", 20, 20),
            ("$ 20,000 - $ 30,000", 25, 25),
            ("$ 30,000 - $ 60,000", 40, 40),
            ("more than $ 60,000", 15, 15)
        ]
    );
}

#[test]
fn windows_are_made_from_plain_values() {
    let today = date(2024, 3, 15);
    let w = window_of(Filter::Weekly, None, None, None, None, today).unwrap();
    assert_eq!(w, Window { start: date(2024, 3, 8), end: today });
    let w = window_of(Filter::Weekly, None, None, Some(date(2024, 1, 1)), None, today).unwrap();
    assert_eq!(w, Window { start: date(2024, 1, 1), end: today });
    assert!(window_of(Filter::Monthly, None, Some(13), Some(today), Some(today), today).is_none());
    let base = Window { start: date(2024, 3, 1), end: today };
    assert_eq!(with_bounds(base, None, None), base);
    assert_eq!(
        with_bounds(base, None, Some(date(2024, 3, 2))),
        Window { start: date(2024, 3, 1), end: date(2024, 3, 2) }
    );
    assert_eq!(explicit_date(&Some("2024-03-02".to_string())), Some(date(2024, 3, 2)));
    assert_eq!(explicit_date(&Some("2024-03-32".to_string())), None);
    assert_eq!(explicit_date(&None), None);
}

#[test]
fn statistics_are_computed_for_a_user_given_by_number() {
    let db = store(march());
    let w = Window { start: date(2024, 3, 1), end: date(2024, 3, 15) };
    let s = statistik_for_user(&db, UID, &w).unwrap();
    assert_eq!(s.ringkasan.total_pengeluaran, 6000);
    assert_eq!(s.ringkasan.jumlah_hari, 15);
    assert_eq!(s.pengeluaran_per_kategori.len(), 3);
    let s = statistik_for_user(&db, OTHER, &w).unwrap();
    assert_eq!(s.ringkasan.total_pengeluaran, 9000);
    assert_eq!(s.pengeluaran_per_kategori[0].persentase_basis_poin, 10000);
    let d = dashboard_for_user(&db, OTHER, date(2024, 3, 15)).unwrap();
    assert_eq!((d.total_hari_ini, d.tertinggi_hari_ini, d.terendah_hari_ini), (9000, 9000, 9000));
    assert_eq!(d.transaksi_terakhir.len(), 1);
    let m = monthly_spending_for_user(&db, OTHER, date(2024, 3, 15)).unwrap();
    assert_eq!(m.monthly_spending, 9000);
    assert_eq!(m.spending_category, SpendingRange::UpTo20000);
}
