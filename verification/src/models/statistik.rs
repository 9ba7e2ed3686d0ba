//! The results of the statistics over the ledger.

use vstd::prelude::*;

verus! {

/// The spending of one category within a window of dates.
/// `persentase_basis_poin` is the share of the window's total in
/// hundredths of a percent: 2550 stands for 25.50 %.
#[derive(Debug)]
pub struct PengeluaranKategori {
    pub kategori_nama: String,
    pub total_pengeluaran: i64,
    pub persentase_basis_poin: i64,
}

/// What a [`PengeluaranKategori`] holds, as plain values.
pub ghost struct PengeluaranKategoriView {
    pub kategori_nama: Seq<char>,
    pub total_pengeluaran: int,
    pub persentase_basis_poin: int,
}

impl View for PengeluaranKategori {
    type V = PengeluaranKategoriView;

    open spec fn view(&self) -> PengeluaranKategoriView {
        PengeluaranKategoriView {
            kategori_nama: self.kategori_nama@,
            total_pengeluaran: self.total_pengeluaran as int,
            persentase_basis_poin: self.persentase_basis_poin as int,
        }
    }
}

/// The window that statistics were computed for, as the answer reports
/// it: the two ends written `YYYY-MM-DD`, the filter as it was asked for,
/// `monthly` where none was, and the year and the month of the query.
#[derive(Debug)]
pub struct FilterApplied {
    pub start_date: String,
    pub end_date: String,
    pub filter_type: String,
    pub year: Option<i32>,
    pub month: Option<u32>,
}

/// The statistics of a window together with the window.
#[derive(Debug)]
pub struct StatistikResult {
    pub data: StatistikResponse,
    pub filter_applied: FilterApplied,
}

/// The totals of a window of dates. `jumlah_hari` is the number of days
/// of the window, both ends counted; the daily average is
/// `total_pengeluaran` divided by it where it is positive.
#[derive(Clone, Copy, Debug, PartialEq, Eq, Structural)]
pub struct RingkasanPengeluaran {
    pub total_pengeluaran: i64,
    pub jumlah_hari: i64,
    pub total_transaksi: i64,
    pub tertinggi_hari_ini: Option<i64>,
    pub terendah_hari_ini: Option<i64>,
    pub tertinggi_bulan_ini: Option<i64>,
    pub terendah_bulan_ini: Option<i64>,
}

/// One point of a chart: the label of a day and the amount spent on it.
#[derive(Debug)]
pub struct ChartDataPoint {
    pub hari: String,
    pub jumlah: i64,
}

/// A ledger entry as the dashboard lists it.
#[derive(Debug)]
pub struct TransaksiTerakhir {
    pub id: i32,
    pub deskripsi: String,
    pub jumlah: i32,
    pub tanggal: String,
    pub kategori_nama: String,
}

/// The dashboard of a user: the totals, the highest and the lowest entry
/// of today and of the current month, the last seven days, and the most
/// recent entries.
#[derive(Debug)]
pub struct DashboardResponse {
    pub total_bulan_ini: i64,
    pub total_hari_ini: i64,
    pub tertinggi_bulan_ini: i64,
    pub tertinggi_hari_ini: i64,
    pub terendah_bulan_ini: i64,
    pub terendah_hari_ini: i64,
    pub pengeluaran_mingguan: Vec<ChartDataPoint>,
    pub transaksi_terakhir: Vec<TransaksiTerakhir>,
}

/// The statistics of a window of dates: the spending per category and the
/// totals.
#[derive(Debug)]
pub struct StatistikResponse {
    pub pengeluaran_per_kategori: Vec<PengeluaranKategori>,
    pub ringkasan: RingkasanPengeluaran,
}

/// One band of monthly spending, with the number of users in it and their
/// share in whole percent.
#[derive(Debug)]
pub struct PengeluaranRange {
    pub range_label: String,
    pub jumlah_user: i64,
    pub persentase: i64,
}

/// A band of monthly spending.
#[derive(Clone, Copy, Debug, PartialEq, Eq, Structural)]
pub enum SpendingRange {
    /// Up to 20,000.
    UpTo20000,
    /// Above 20,000 and up to 30,000.
    UpTo30000,
    /// Above 30,000 and up to 60,000.
    UpTo60000,
    /// Above 60,000.
    Above60000,
}

impl SpendingRange {
    /// The label of the band.
    pub open spec fn spec_label(&self) -> Seq<char> {
        match self {
            SpendingRange::UpTo20000 => "$ 0 - $ 20,000"@,
            SpendingRange::UpTo30000 => "$ 20,000 - $ 30,000"@,
            SpendingRange::UpTo60000 => "$ 30,000 - $ 60,000"@,
            SpendingRange::Above60000 => "more than $ 60,000"@,
        }
    }

    /// The label of the band.
    pub fn label(&self) -> (text: &'static str)
        ensures
            text@ == self.spec_label(),
    {
        match self {
            SpendingRange::UpTo20000 => "$ 0 - $ 20,000",
            SpendingRange::UpTo30000 => "$ 20,000 - $ 30,000",
            SpendingRange::UpTo60000 => "$ 30,000 - $ 60,000",
            SpendingRange::Above60000 => "more than $ 60,000",
        }
    }
}

/// What a user spent in the current month up to today, the band that
/// this falls into, and the year and the month.
#[derive(Clone, Copy, Debug, PartialEq, Eq, Structural)]
pub struct MonthlySpending {
    pub monthly_spending: i64,
    pub spending_category: SpendingRange,
    pub year: i32,
    pub month: u32,
}

/// The window that statistics are asked for: a filter (`daily`, `weekly`
/// or `monthly`), explicit bounds written `YYYY-MM-DD`, and a year and a
/// month for the monthly window.
#[derive(Debug)]
pub struct StatistikQuery {
    pub filter: Option<String>,
    pub start_date: Option<String>,
    pub end_date: Option<String>,
    pub year: Option<i32>,
    pub month: Option<u32>,
}

} // verus!
