//! The statistics of a window: the spending per category and the totals.

use crate::analytics::breakdown::{
    breakdown_fits, breakdown_rows, category_breakdown, rows_of, rows_sorted,
};
use crate::analytics::totals::{count_of, total_of, window_count, window_total};
use crate::analytics::window::Window;
use crate::database::Database;
use crate::error::ApiError;
use crate::models::statistik::{RingkasanPengeluaran, StatistikResponse};
use crate::models::transaksi::Transaksi;
use vstd::prelude::*;

verus! {

/// The totals of the user within the window: what was spent, the number
/// of days of the window, and the number of entries. The four extremes
/// are left out. Returns `None` where the sum or the count does not fit
/// into 64 bits.
pub fn summarize(entries: &Vec<Transaksi>, user_id: u128, window: &Window) -> (r: Option<
    RingkasanPengeluaran,
>)
    ensures
        r is Some <==> i64::MIN <= total_of(entries@, user_id, *window, None) <= i64::MAX
            && count_of(entries@, user_id, *window, None) <= i64::MAX,
        r matches Some(s) ==> {
            &&& s.total_pengeluaran == total_of(entries@, user_id, *window, None)
            &&& s.jumlah_hari == window.spec_days()
            &&& s.total_transaksi == count_of(entries@, user_id, *window, None)
            &&& s.tertinggi_hari_ini is None
            &&& s.terendah_hari_ini is None
            &&& s.tertinggi_bulan_ini is None
            &&& s.terendah_bulan_ini is None
        },
{
    let total = match window_total(entries, user_id, window, None) {
        Some(t) => t,
        None => {
            return None;
        },
    };
    let count = window_count(entries, user_id, window, None);
    if count as u64 > 0x7fff_ffff_ffff_ffffu64 {
        return None;
    }
    Some(
        RingkasanPengeluaran {
            total_pengeluaran: total,
            jumlah_hari: window.days(),
            total_transaksi: count as i64,
            tertinggi_hari_ini: None,
            terendah_hari_ini: None,
            tertinggi_bulan_ini: None,
            terendah_bulan_ini: None,
        },
    )
}

/// Whether every number of the statistics of `user_id` within the window
/// fits into 64 bits.
pub open spec fn statistik_fits(db: Database, user_id: u128, window: Window) -> bool {
    breakdown_fits(db.kategori@, db.transaksi@, user_id, window) && count_of(
        db.transaksi@,
        user_id,
        window,
        None,
    ) <= i64::MAX
}

/// Whether `r` holds the statistics of `user_id` within the window: one
/// row for each category, ordered by falling spending and then by rising
/// name, and the totals. The failure is that a number does not fit into
/// 64 bits.
pub open spec fn statistik_outcome(
    db: Database,
    r: Result<StatistikResponse, ApiError>,
    user_id: u128,
    window: Window,
) -> bool {
    match r {
        Ok(s) => {
            &&& statistik_fits(db, user_id, window)
            &&& rows_sorted(rows_of(s.pengeluaran_per_kategori@))
            &&& rows_of(s.pengeluaran_per_kategori@).to_multiset() == breakdown_rows(
                db.kategori@,
                db.transaksi@,
                user_id,
                window,
            ).to_multiset()
            &&& s.ringkasan.total_pengeluaran == total_of(db.transaksi@, user_id, window, None)
            &&& s.ringkasan.jumlah_hari == window.spec_days()
            &&& s.ringkasan.total_transaksi == count_of(db.transaksi@, user_id, window, None)
            &&& s.ringkasan.tertinggi_hari_ini is None
            &&& s.ringkasan.terendah_hari_ini is None
            &&& s.ringkasan.tertinggi_bulan_ini is None
            &&& s.ringkasan.terendah_bulan_ini is None
            &&& total_of(db.transaksi@, user_id, window, None) <= 0 ==> forall|k: int|
                0 <= k < s.pengeluaran_per_kategori@.len() ==> (
                #[trigger] s.pengeluaran_per_kategori@[k]).persentase_basis_poin == 0
        },
        Err(e) => !statistik_fits(db, user_id, window) && e == ApiError::KesalahanServer,
    }
}

/// The statistics of `user_id` within the window: the spending per
/// category and the totals, computed from the ledger entries.
pub fn statistik_for_user(db: &Database, user_id: u128, window: &Window) -> (r: Result<
    StatistikResponse,
    ApiError,
>)
    ensures
        statistik_outcome(*db, r, user_id, *window),
{
    let rows = match category_breakdown(&db.kategori, &db.transaksi, user_id, window) {
        Some(rows) => rows,
        None => {
            return Err(ApiError::KesalahanServer);
        },
    };
    let ringkasan = match summarize(&db.transaksi, user_id, window) {
        Some(s) => s,
        None => {
            return Err(ApiError::KesalahanServer);
        },
    };
    Ok(StatistikResponse { pengeluaran_per_kategori: rows, ringkasan })
}

} // verus!
