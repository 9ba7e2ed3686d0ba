//! Ledger entries.

use crate::tanggal::Tanggal;
use vstd::prelude::*;

verus! {

/// One entry of the ledger: an amount spent by a user in a category on a
/// calendar day.
#[derive(Debug)]
pub struct Transaksi {
    pub id: i32,
    pub user_id: u128,
    pub kategori_id: i32,
    pub jumlah: i32,
    pub deskripsi: String,
    pub tanggal: Tanggal,
    pub created_at: Option<i64>,
    pub updated_at: Option<i64>,
}

impl Clone for Transaksi {
    fn clone(&self) -> (r: Self)
        ensures
            r == *self,
    {
        Transaksi {
            id: self.id,
            user_id: self.user_id,
            kategori_id: self.kategori_id,
            jumlah: self.jumlah,
            deskripsi: self.deskripsi.clone(),
            tanggal: self.tanggal,
            created_at: self.created_at,
            updated_at: self.updated_at,
        }
    }
}

/// A ledger entry together with the name of its category and the user
/// identifier in its text form.
#[derive(Debug)]
pub struct TransaksiWithCategory {
    pub id: i32,
    pub user_id: String,
    pub kategori_id: i32,
    pub kategori_nama: String,
    pub jumlah: i32,
    pub deskripsi: String,
    pub tanggal: Tanggal,
    pub created_at: Option<i64>,
    pub updated_at: Option<i64>,
}

/// The fields of a new ledger entry. `tanggal` is written `YYYY-MM-DD`.
#[derive(Debug)]
pub struct CreateTransaksiRequest {
    pub kategori_id: i32,
    pub jumlah: i32,
    pub deskripsi: String,
    pub tanggal: String,
}

/// The fields of a ledger entry to change; a field that is `None` keeps
/// its value. `tanggal` is written `YYYY-MM-DD`.
#[derive(Debug)]
pub struct UpdateTransaksiRequest {
    pub kategori_id: Option<i32>,
    pub jumlah: Option<i32>,
    pub deskripsi: Option<String>,
    pub tanggal: Option<String>,
}

/// The filters and the page of a listing of ledger entries.
#[derive(Debug)]
pub struct TransaksiQuery {
    pub limit: Option<i64>,
    pub offset: Option<i64>,
    pub kategori_id: Option<i32>,
    pub start_date: Option<String>,
    pub end_date: Option<String>,
}

} // verus!
