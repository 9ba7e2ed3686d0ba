//! Creating a ledger entry.

use crate::database::{
    budgets_follow_ledger, has_kategori, lemma_adjust_all_keeps_distinct,
    lemma_adjust_all_keeps_range, lemma_spent_total_push, spent_total, Database,
};
use crate::error::ApiError;
use crate::models::budget::{adjust_all, adjust_budgets, can_adjust_all, Adjustment, Budget};
use crate::models::transaksi::Transaksi;
use crate::tanggal::Tanggal;
use vstd::prelude::*;

verus! {

/// The fields of a new ledger entry as they were read: the description
/// trimmed, and the date, which is `None` where its text was no date.
#[derive(Debug)]
pub struct CreateParsed {
    pub kategori_id: i32,
    pub jumlah: i32,
    pub deskripsi: String,
    pub tanggal: Option<Tanggal>,
}

/// What a [`CreateParsed`] holds, as plain values.
pub ghost struct CreateParsedView {
    pub kategori_id: i32,
    pub jumlah: i32,
    pub deskripsi: Seq<char>,
    pub tanggal: Option<Tanggal>,
}

impl View for CreateParsed {
    type V = CreateParsedView;

    open spec fn view(&self) -> CreateParsedView {
        CreateParsedView {
            kategori_id: self.kategori_id,
            jumlah: self.jumlah,
            deskripsi: self.deskripsi@,
            tanggal: self.tanggal,
        }
    }
}

/// The checked fields of a new ledger entry.
#[derive(Debug)]
pub struct TransaksiBaru {
    pub user_id: u128,
    pub kategori_id: i32,
    pub jumlah: i32,
    pub deskripsi: String,
    pub tanggal: Tanggal,
}

/// Why the fields of a new ledger entry are rejected, if they are: the
/// first of an amount that is not above zero, a description that is
/// empty, and a date that could not be read.
pub open spec fn create_rejection(fields: CreateParsedView) -> Option<ApiError> {
    if fields.jumlah <= 0 {
        Some(ApiError::JumlahTidakValid)
    } else if fields.deskripsi.len() == 0 {
        Some(ApiError::DeskripsiKosong)
    } else if fields.tanggal is None {
        Some(ApiError::FormatTanggalTidakValid)
    } else {
        None
    }
}

/// Whether `r` is the result of checking the fields of a new entry of
/// `user_id`: the rejection, or the fields as they are.
pub open spec fn is_checked_create(
    r: Result<TransaksiBaru, ApiError>,
    user_id: u128,
    fields: CreateParsedView,
) -> bool {
    match r {
        Ok(v) => {
            &&& create_rejection(fields) is None
            &&& v.user_id == user_id
            &&& v.kategori_id == fields.kategori_id
            &&& v.jumlah == fields.jumlah
            &&& v.deskripsi@ == fields.deskripsi
            &&& Some(v.tanggal) == fields.tanggal
        },
        Err(e) => create_rejection(fields) == Some(e),
    }
}

/// Checks the fields of a new ledger entry of `user_id`.
pub fn check_create(user_id: u128, fields: CreateParsed) -> (r: Result<TransaksiBaru, ApiError>)
    ensures
        is_checked_create(r, user_id, fields@),
{
    if fields.jumlah <= 0 {
        return Err(ApiError::JumlahTidakValid);
    }
    if fields.deskripsi.as_str().is_empty() {
        return Err(ApiError::DeskripsiKosong);
    }
    let tanggal = match fields.tanggal {
        Some(t) => t,
        None => {
            return Err(ApiError::FormatTanggalTidakValid);
        },
    };
    Ok(
        TransaksiBaru {
            user_id,
            kategori_id: fields.kategori_id,
            jumlah: fields.jumlah,
            deskripsi: fields.deskripsi,
            tanggal,
        },
    )
}

/// Why creating a ledger entry fails, if it does: the fields are
/// rejected, the category does not exist, no identifier is left, or the
/// running total of a budget would leave the range that can be stored.
pub open spec fn create_failure(db: Database, user_id: u128, fields: CreateParsedView) -> Option<
    ApiError,
> {
    if create_rejection(fields) is Some {
        create_rejection(fields)
    } else if !has_kategori(db.kategori@, fields.kategori_id) {
        Some(ApiError::KategoriTidakDikenal)
    } else if db.last_transaksi_id == i32::MAX {
        Some(ApiError::GagalMembuatTransaksi)
    } else if !can_adjust_all(
        db.budgets@,
        user_id,
        fields.kategori_id,
        Adjustment::Tambah(fields.jumlah as i64),
    ) {
        Some(ApiError::GagalMengupdateBudget)
    } else {
        None
    }
}

/// The budgets after `entry` was added to the ledger: the running total of
/// the budget of its user for its category grows by its amount.
pub open spec fn budgets_after_create(budgets: Seq<Budget>, entry: Transaksi, now: i64) -> Seq<
    Budget,
> {
    adjust_all(
        budgets,
        entry.user_id,
        entry.kategori_id,
        Adjustment::Tambah(entry.jumlah as i64),
        now,
    )
}

/// Whether `r` and the store `after` are what creating an entry of
/// `user_id` with the fields given makes of the store `before` at the
/// time `now`. On failure the store is as it was. On success the entry
/// has the next identifier and the fields given, it stands at the end of
/// the ledger, and the running total of the budget of the user for the
/// category has grown by the amount.
pub open spec fn create_outcome(
    before: Database,
    after: Database,
    r: Result<Transaksi, ApiError>,
    user_id: u128,
    fields: CreateParsedView,
    now: i64,
) -> bool {
    match r {
        Ok(t) => {
            &&& create_failure(before, user_id, fields) is None
            &&& t.id == before.last_transaksi_id + 1
            &&& t.user_id == user_id
            &&& t.kategori_id == fields.kategori_id
            &&& t.jumlah == fields.jumlah
            &&& t.deskripsi@ == fields.deskripsi
            &&& Some(t.tanggal) == fields.tanggal
            &&& t.created_at == Some(now)
            &&& t.updated_at == Some(now)
            &&& after.transaksi@ == before.transaksi@.push(t)
            &&& after.budgets@ == budgets_after_create(before.budgets@, t, now)
            &&& after.kategori == before.kategori
            &&& after.users == before.users
            &&& after.last_transaksi_id == t.id
            &&& after.last_budget_id == before.last_budget_id
            &&& after.last_kategori_id == before.last_kategori_id
        },
        Err(e) => create_failure(before, user_id, fields) == Some(e) && after == before,
    }
}

/// Where every budget's running total was the total of its ledger
/// entries, it still is after an entry was created.
pub proof fn lemma_create_keeps_consistency(
    budgets: Seq<Budget>,
    entries: Seq<Transaksi>,
    entry: Transaksi,
    now: i64,
)
    requires
        budgets_follow_ledger(budgets, entries),
        can_adjust_all(
            budgets,
            entry.user_id,
            entry.kategori_id,
            Adjustment::Tambah(entry.jumlah as i64),
        ),
    ensures
        budgets_follow_ledger(budgets_after_create(budgets, entry, now), entries.push(entry)),
{
    let after = budgets_after_create(budgets, entry, now);
    assert forall|i: int| 0 <= i < after.len() implies (#[trigger] after[i]).spec_spent_or_zero()
        == spent_total(entries.push(entry), after[i].user_id, after[i].kategori_id) by {
        lemma_spent_total_push(entries, entry, budgets[i].user_id, budgets[i].kategori_id);
        assert(budgets[i].spec_spent_or_zero() == spent_total(
            entries,
            budgets[i].user_id,
            budgets[i].kategori_id,
        ));
    }
}

/// A created entry of amount `A` raises the running total of the budget
/// of its user for its category by `A`, and leaves every other budget's
/// total as it is.
pub proof fn lemma_create_adds_amount(budgets: Seq<Budget>, entry: Transaksi, now: i64, i: int)
    requires
        0 <= i < budgets.len(),
        can_adjust_all(
            budgets,
            entry.user_id,
            entry.kategori_id,
            Adjustment::Tambah(entry.jumlah as i64),
        ),
    ensures
        budgets_after_create(budgets, entry, now).len() == budgets.len(),
        budgets[i].spec_is_for(entry.user_id, entry.kategori_id) ==> budgets_after_create(
            budgets,
            entry,
            now,
        )[i].spec_spent_or_zero() == budgets[i].spec_spent_or_zero() + entry.jumlah,
        !budgets[i].spec_is_for(entry.user_id, entry.kategori_id) ==> budgets_after_create(
            budgets,
            entry,
            now,
        )[i] == budgets[i],
{
}

/// Adds an entry of `user_id` to the ledger and its amount to the running
/// total of the budget of the user for the category, if there is one. On
/// failure the store is left as it was.
pub fn create_transaksi_for_user(
    db: &mut Database,
    user_id: u128,
    fields: CreateParsed,
    now: i64,
) -> (r: Result<Transaksi, ApiError>)
    requires
        old(db).wf(),
    ensures
        final(db).wf(),
        old(db).amounts_nonnegative() ==> final(db).amounts_nonnegative(),
        old(db).budgets_valid() ==> final(db).budgets_valid(),
        old(db).consistent() ==> final(db).consistent(),
        create_outcome(*old(db), *final(db), r, user_id, fields@, now),
{
    let v = match check_create(user_id, fields) {
        Ok(v) => v,
        Err(e) => {
            return Err(e);
        },
    };
    if !db.kategori_exists(v.kategori_id) {
        return Err(ApiError::KategoriTidakDikenal);
    }
    if db.last_transaksi_id == i32::MAX {
        return Err(ApiError::GagalMembuatTransaksi);
    }
    let budgets = match adjust_budgets(
        &db.budgets,
        v.user_id,
        v.kategori_id,
        Adjustment::Tambah(v.jumlah as i64),
        now,
    ) {
        Some(b) => b,
        None => {
            return Err(ApiError::GagalMengupdateBudget);
        },
    };
    let id: i32 = db.last_transaksi_id + 1;
    let entry = Transaksi {
        id,
        user_id: v.user_id,
        kategori_id: v.kategori_id,
        jumlah: v.jumlah,
        deskripsi: v.deskripsi,
        tanggal: v.tanggal,
        created_at: Some(now),
        updated_at: Some(now),
    };
    let stored = entry.clone();
    proof {
        lemma_adjust_all_keeps_distinct(
            db.budgets@,
            db.last_budget_id,
            v.user_id,
            v.kategori_id,
            Adjustment::Tambah(v.jumlah as i64),
            now,
        );
        if db.budgets_valid() {
            lemma_adjust_all_keeps_range(
                db.budgets@,
                v.user_id,
                v.kategori_id,
                Adjustment::Tambah(v.jumlah as i64),
                now,
            );
        }
        if db.consistent() {
            lemma_create_keeps_consistency(db.budgets@, db.transaksi@, entry, now);
        }
        if db.amounts_nonnegative() {
            let before = db.transaksi@;
            let after = before.push(stored);
            assert forall|i: int| 0 <= i < after.len() implies (#[trigger] after[i]).jumlah
                >= 0 by {
                if i < before.len() {
                    assert(after[i] == before[i]);
                }
            }
        }
    }
    db.transaksi.push(stored);
    db.budgets = budgets;
    db.last_transaksi_id = id;
    Ok(entry)
}

} // verus!
