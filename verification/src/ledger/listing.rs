//! Listing ledger entries and showing one.

use crate::analytics::recent::{is_recent_order, recent_order, Selection};
use crate::database::{
    has_kategori, kategori_name, lemma_position, owns_transaksi, position, spec_kategori_name,
    transaksi_ids_distinct, Database,
};
use crate::error::ApiError;
use crate::models::kategori::Kategori;
use crate::models::transaksi::{Transaksi, TransaksiWithCategory};
use crate::tanggal::Tanggal;
use crate::teks::{format_user_id, hyphenated_uuid};
use vstd::prelude::*;

verus! {

/// Whether `row` shows `entry`: its fields, the user identifier in its
/// text form, and the name of its category.
pub open spec fn shows_entry(row: TransaksiWithCategory, entry: Transaksi, kategori: Seq<Kategori>) -> bool {
    &&& row.id == entry.id
    &&& row.user_id@ == hyphenated_uuid(entry.user_id)
    &&& row.kategori_id == entry.kategori_id
    &&& row.kategori_nama@ == spec_kategori_name(kategori, entry.kategori_id)
    &&& row.jumlah == entry.jumlah
    &&& row.deskripsi@ == entry.deskripsi@
    &&& row.tanggal == entry.tanggal
    &&& row.created_at == entry.created_at
    &&& row.updated_at == entry.updated_at
}

/// The row that shows `entry`.
pub fn entry_row(entry: &Transaksi, kategori: &Vec<Kategori>) -> (row: TransaksiWithCategory)
    ensures
        shows_entry(row, *entry, kategori@),
{
    TransaksiWithCategory {
        id: entry.id,
        user_id: format_user_id(entry.user_id),
        kategori_id: entry.kategori_id,
        kategori_nama: kategori_name(kategori, entry.kategori_id),
        jumlah: entry.jumlah,
        deskripsi: entry.deskripsi.clone(),
        tanggal: entry.tanggal,
        created_at: entry.created_at,
        updated_at: entry.updated_at,
    }
}

/// The number of entries of a page where none is asked for.
pub const DEFAULT_LIMIT: i64 = 50;

/// The filters and the page of a listing as they were read: each bound
/// is `Some(None)` where its text was given and was no date, and `None`
/// where it was not given.
#[derive(Clone, Copy, Debug, PartialEq, Eq, Structural)]
pub struct ListParsed {
    pub limit: Option<i64>,
    pub offset: Option<i64>,
    pub kategori_id: Option<i32>,
    pub start: Option<Option<Tanggal>>,
    pub end: Option<Option<Tanggal>>,
}

/// The number of entries that a page may hold.
pub open spec fn spec_limit(query: ListParsed) -> int {
    if query.limit is Some {
        query.limit->0 as int
    } else {
        DEFAULT_LIMIT as int
    }
}

/// The number of entries that are skipped before the page.
pub open spec fn spec_offset(query: ListParsed) -> int {
    if query.offset is Some {
        query.offset->0 as int
    } else {
        0
    }
}

/// Why a listing fails, if it does: a bound is given and is no date, or
/// the limit or the offset is negative.
pub open spec fn listing_failure(query: ListParsed) -> Option<ApiError> {
    if query.start is Some && query.start->0 is None {
        Some(ApiError::FormatTanggalTidakValid)
    } else if query.end is Some && query.end->0 is None {
        Some(ApiError::FormatTanggalTidakValid)
    } else if spec_limit(query) < 0 || spec_offset(query) < 0 {
        Some(ApiError::KesalahanServer)
    } else {
        None
    }
}

/// The entries that a query asks for: those of the user with a category
/// that exists, of the category given and between the bounds given.
pub open spec fn spec_selection(user_id: u128, query: ListParsed) -> Selection {
    Selection {
        user_id,
        kategori_id: query.kategori_id,
        start: if query.start is Some {
            query.start->0
        } else {
            None
        },
        end: if query.end is Some {
            query.end->0
        } else {
            None
        },
        known_kategori: true,
    }
}

/// Whether `rows` are the page of `order` that starts after `offset`
/// places and holds up to `limit` of them.
pub open spec fn is_page(
    rows: Seq<TransaksiWithCategory>,
    order: Seq<usize>,
    entries: Seq<Transaksi>,
    kategori: Seq<Kategori>,
    offset: int,
    limit: int,
) -> bool {
    &&& rows.len() == if order.len() <= offset {
        0
    } else if order.len() - offset < limit {
        order.len() - offset
    } else {
        limit
    }
    &&& forall|k: int|
        0 <= k < rows.len() ==> shows_entry(
            #[trigger] rows[k],
            entries[order[offset + k] as int],
            kategori,
        )
}

/// Whether `r` is the page of the entries of `user_id` that the query
/// asks for, the most recent first, or the failure of the listing.
pub open spec fn listing_outcome(
    db: Database,
    r: Result<Vec<TransaksiWithCategory>, ApiError>,
    user_id: u128,
    query: ListParsed,
) -> bool {
    match r {
        Ok(rows) => {
            &&& listing_failure(query) is None
            &&& exists|order: Seq<usize>|
                {
                    &&& #[trigger] is_recent_order(
                        order,
                        db.transaksi@,
                        db.kategori@,
                        spec_selection(user_id, query),
                        db.transaksi@.len() as int,
                    )
                    &&& is_page(
                        rows@,
                        order,
                        db.transaksi@,
                        db.kategori@,
                        spec_offset(query),
                        spec_limit(query),
                    )
                }
        },
        Err(e) => listing_failure(query) == Some(e),
    }
}

/// A page of the entries of `user_id`, the most recent first: those with
/// a category that exists, of the category given and between the bounds
/// given, each with the name of its category. The page starts after
/// `offset` entries and holds up to `limit`, 50 where none is given.
pub fn get_transaksi_for_user(db: &Database, user_id: u128, query: &ListParsed) -> (r: Result<
    Vec<TransaksiWithCategory>,
    ApiError,
>)
    ensures
        listing_outcome(*db, r, user_id, *query),
{
    let start = match query.start {
        Some(Some(d)) => Some(d),
        Some(None) => {
            return Err(ApiError::FormatTanggalTidakValid);
        },
        None => None,
    };
    let end = match query.end {
        Some(Some(d)) => Some(d),
        Some(None) => {
            return Err(ApiError::FormatTanggalTidakValid);
        },
        None => None,
    };
    let limit: i64 = match query.limit {
        Some(l) => l,
        None => DEFAULT_LIMIT,
    };
    let offset: i64 = match query.offset {
        Some(o) => o,
        None => 0,
    };
    if limit < 0 || offset < 0 {
        return Err(ApiError::KesalahanServer);
    }
    let selection = Selection {
        user_id,
        kategori_id: query.kategori_id,
        start,
        end,
        known_kategori: true,
    };
    let order = recent_order(&db.transaksi, &db.kategori, &selection);
    let mut rows: Vec<TransaksiWithCategory> = Vec::new();
    if (order.len() as u64) <= (offset as u64) {
        return Ok(rows);
    }
    let first: usize = offset as usize;
    let mut k: usize = 0;
    while k < order.len() - first && (k as u64) < (limit as u64)
        invariant
            first == offset,
            first < order@.len(),
            0 <= limit,
            k <= order@.len() - first,
            k <= limit,
            rows@.len() == k,
            is_recent_order(
                order@,
                db.transaksi@,
                db.kategori@,
                selection,
                db.transaksi@.len() as int,
            ),
            forall|j: int|
                0 <= j < k ==> shows_entry(
                    #[trigger] rows@[j],
                    db.transaksi@[order@[first + j] as int],
                    db.kategori@,
                ),
        decreases order@.len() - first - k,
    {
        rows.push(entry_row(&db.transaksi[order[first + k]], &db.kategori));
        k += 1;
    }
    Ok(rows)
}

/// Whether `r` shows the entry `id` of `user_id` with the name of its
/// category, or the failure: the user has no such entry with a category
/// that exists.
pub open spec fn show_outcome(
    db: Database,
    r: Result<TransaksiWithCategory, ApiError>,
    user_id: u128,
    id: i32,
) -> bool {
    let found = owns_transaksi(db.transaksi@, id, user_id) && has_kategori(
        db.kategori@,
        db.transaksi@[position(db.transaksi@, id, user_id)].kategori_id,
    );
    match r {
        Ok(row) => found && shows_entry(
            row,
            db.transaksi@[position(db.transaksi@, id, user_id)],
            db.kategori@,
        ),
        Err(e) => !found && e == ApiError::TransaksiTidakDitemukan,
    }
}

/// The entry `transaksi_id` of `user_id` with the name of its category.
pub fn get_transaksi_of_user(db: &Database, user_id: u128, transaksi_id: i32) -> (r: Result<
    TransaksiWithCategory,
    ApiError,
>)
    requires
        transaksi_ids_distinct(db.transaksi@, db.last_transaksi_id),
    ensures
        show_outcome(*db, r, user_id, transaksi_id),
{
    let at = match db.find_transaksi(transaksi_id, user_id) {
        Some(i) => i,
        None => {
            return Err(ApiError::TransaksiTidakDitemukan);
        },
    };
    proof {
        lemma_position(db.transaksi@, db.last_transaksi_id, at as int);
    }
    if !db.kategori_exists(db.transaksi[at].kategori_id) {
        return Err(ApiError::TransaksiTidakDitemukan);
    }
    Ok(entry_row(&db.transaksi[at], &db.kategori))
}

} // verus!
