//! Changing a ledger entry.

use crate::database::{
    all_nonnegative, budgets_follow_ledger, has_kategori, lemma_adjust_all_keeps_distinct,
    lemma_adjust_all_keeps_range, lemma_position, lemma_spent_total_nonnegative, lemma_spent_total_update, owns_transaksi,
    position, spent_total, transaksi_ids_distinct, Database,
};
use crate::error::ApiError;
use crate::models::budget::{adjust_all, adjust_budgets, can_adjust_all, Adjustment, Budget};
use crate::models::transaksi::Transaksi;
use crate::tanggal::Tanggal;
use vstd::prelude::*;

verus! {

/// The fields of a change to a ledger entry as they were read: the
/// description trimmed, and the date, which is `Some(None)` where its
/// text was given and was no date. A field that is `None` was not given.
#[derive(Debug)]
pub struct UpdateParsed {
    pub kategori_id: Option<i32>,
    pub jumlah: Option<i32>,
    pub deskripsi: Option<String>,
    pub tanggal: Option<Option<Tanggal>>,
}

/// What an [`UpdateParsed`] holds, as plain values.
pub ghost struct UpdateParsedView {
    pub kategori_id: Option<i32>,
    pub jumlah: Option<i32>,
    pub deskripsi: Option<Seq<char>>,
    pub tanggal: Option<Option<Tanggal>>,
}

impl View for UpdateParsed {
    type V = UpdateParsedView;

    open spec fn view(&self) -> UpdateParsedView {
        UpdateParsedView {
            kategori_id: self.kategori_id,
            jumlah: self.jumlah,
            deskripsi: if self.deskripsi is Some {
                Some(self.deskripsi->0@)
            } else {
                None
            },
            tanggal: self.tanggal,
        }
    }
}

/// The checked fields of a change to a ledger entry.
#[derive(Debug)]
pub struct Perubahan {
    pub kategori_id: Option<i32>,
    pub jumlah: Option<i32>,
    pub deskripsi: Option<String>,
    pub tanggal: Option<Tanggal>,
}

/// Why the fields of a change are rejected, if they are: the first of an
/// amount that is given and not above zero, a description that is given
/// and empty, and a date that is given and could not be read.
pub open spec fn update_rejection(fields: UpdateParsedView) -> Option<ApiError> {
    if fields.jumlah is Some && fields.jumlah->0 <= 0 {
        Some(ApiError::JumlahTidakValid)
    } else if fields.deskripsi is Some && fields.deskripsi->0.len() == 0 {
        Some(ApiError::DeskripsiKosong)
    } else if fields.tanggal is Some && fields.tanggal->0 is None {
        Some(ApiError::FormatTanggalTidakValid)
    } else {
        None
    }
}

/// Whether `changes` holds the fields given.
pub open spec fn is_checked(changes: Perubahan, fields: UpdateParsedView) -> bool {
    &&& changes.kategori_id == fields.kategori_id
    &&& changes.jumlah == fields.jumlah
    &&& changes.deskripsi is Some <==> fields.deskripsi is Some
    &&& fields.deskripsi is Some ==> changes.deskripsi->0@ == fields.deskripsi->0
    &&& changes.tanggal is Some <==> fields.tanggal is Some
    &&& fields.tanggal is Some ==> changes.tanggal == fields.tanggal->0
}

/// Checks the fields of a change to a ledger entry.
pub fn check_update(fields: UpdateParsed) -> (r: Result<Perubahan, ApiError>)
    ensures
        match r {
            Ok(changes) => update_rejection(fields@) is None && is_checked(changes, fields@),
            Err(e) => update_rejection(fields@) == Some(e),
        },
{
    if let Some(jumlah) = fields.jumlah {
        if jumlah <= 0 {
            return Err(ApiError::JumlahTidakValid);
        }
    }
    if let Some(deskripsi) = &fields.deskripsi {
        if deskripsi.as_str().is_empty() {
            return Err(ApiError::DeskripsiKosong);
        }
    }
    let tanggal = match fields.tanggal {
        Some(Some(t)) => Some(t),
        Some(None) => {
            return Err(ApiError::FormatTanggalTidakValid);
        },
        None => None,
    };
    Ok(
        Perubahan {
            kategori_id: fields.kategori_id,
            jumlah: fields.jumlah,
            deskripsi: fields.deskripsi,
            tanggal,
        },
    )
}

/// The category that an entry has after a change.
pub open spec fn merged_kategori(old: Transaksi, fields: UpdateParsedView) -> i32 {
    if fields.kategori_id is Some {
        fields.kategori_id->0
    } else {
        old.kategori_id
    }
}

/// The amount that an entry has after a change.
pub open spec fn merged_jumlah(old: Transaksi, fields: UpdateParsedView) -> i32 {
    if fields.jumlah is Some {
        fields.jumlah->0
    } else {
        old.jumlah
    }
}

/// Whether `new` is `old` with the fields given put in place of its own
/// at the time `now`: a field that is not given keeps its value, and the
/// identifier, the owner and the time of creation stay.
pub open spec fn is_merged(new: Transaksi, old: Transaksi, fields: UpdateParsedView, now: i64) -> bool {
    &&& new.id == old.id
    &&& new.user_id == old.user_id
    &&& new.kategori_id == merged_kategori(old, fields)
    &&& new.jumlah == merged_jumlah(old, fields)
    &&& new.deskripsi@ == if fields.deskripsi is Some {
        fields.deskripsi->0
    } else {
        old.deskripsi@
    }
    &&& Some(new.tanggal) == if fields.tanggal is Some {
        fields.tanggal->0
    } else {
        Some(old.tanggal)
    }
    &&& new.created_at == old.created_at
    &&& new.updated_at == Some(now)
}

/// The entry `old` with the checked fields of a change put in place of
/// its own at the time `now`.
pub fn merge(old: &Transaksi, changes: Perubahan, now: i64) -> (new: Transaksi)
    ensures
        new.id == old.id,
        new.user_id == old.user_id,
        new.kategori_id == if changes.kategori_id is Some {
            changes.kategori_id->0
        } else {
            old.kategori_id
        },
        new.jumlah == if changes.jumlah is Some {
            changes.jumlah->0
        } else {
            old.jumlah
        },
        new.deskripsi@ == if changes.deskripsi is Some {
            changes.deskripsi->0@
        } else {
            old.deskripsi@
        },
        new.tanggal == if changes.tanggal is Some {
            changes.tanggal->0
        } else {
            old.tanggal
        },
        new.created_at == old.created_at,
        new.updated_at == Some(now),
{
    Transaksi {
        id: old.id,
        user_id: old.user_id,
        kategori_id: match changes.kategori_id {
            Some(k) => k,
            None => old.kategori_id,
        },
        jumlah: match changes.jumlah {
            Some(j) => j,
            None => old.jumlah,
        },
        deskripsi: match changes.deskripsi {
            Some(d) => d,
            None => old.deskripsi.clone(),
        },
        tanggal: match changes.tanggal {
            Some(t) => t,
            None => old.tanggal,
        },
        created_at: old.created_at,
        updated_at: Some(now),
    }
}

/// A change to the running total of the budget of one category.
#[derive(Clone, Copy, Debug, PartialEq, Eq, Structural)]
pub struct BudgetAdjustment {
    pub kategori_id: i32,
    pub adjustment: Adjustment,
}

/// The changes to running totals that follow from a changed entry. Where
/// the category stays, its budget moves by the difference of the amounts,
/// and stops at zero where the amount has fallen. Where it changes, the
/// old amount leaves the budget of the old category, which stops at zero,
/// and the new amount enters that of the new one.
pub open spec fn spec_update_adjustments(
    old_kategori: i32,
    old_jumlah: i32,
    new_kategori: i32,
    new_jumlah: i32,
) -> Seq<BudgetAdjustment> {
    if new_kategori == old_kategori {
        seq![
            BudgetAdjustment {
                kategori_id: old_kategori,
                adjustment: Adjustment::spec_moved_by(new_jumlah - old_jumlah),
            },
        ]
    } else {
        seq![
            BudgetAdjustment {
                kategori_id: old_kategori,
                adjustment: Adjustment::Kurang(old_jumlah as i64),
            },
            BudgetAdjustment {
                kategori_id: new_kategori,
                adjustment: Adjustment::spec_moved_by(new_jumlah as int),
            },
        ]
    }
}

/// The changes to running totals that follow from a changed entry, in the
/// order in which they are made.
pub fn update_adjustments(
    old_kategori: i32,
    old_jumlah: i32,
    new_kategori: i32,
    new_jumlah: i32,
) -> (r: Vec<BudgetAdjustment>)
    ensures
        r@ == spec_update_adjustments(old_kategori, old_jumlah, new_kategori, new_jumlah),
{
    let mut plan: Vec<BudgetAdjustment> = Vec::new();
    if new_kategori == old_kategori {
        let delta: i64 = new_jumlah as i64 - old_jumlah as i64;
        plan.push(
            BudgetAdjustment { kategori_id: old_kategori, adjustment: Adjustment::moved_by(delta) },
        );
    } else {
        plan.push(
            BudgetAdjustment {
                kategori_id: old_kategori,
                adjustment: Adjustment::Kurang(old_jumlah as i64),
            },
        );
        plan.push(
            BudgetAdjustment {
                kategori_id: new_kategori,
                adjustment: Adjustment::moved_by(new_jumlah as i64),
            },
        );
    }
    assert(plan@ =~= spec_update_adjustments(old_kategori, old_jumlah, new_kategori, new_jumlah));
    plan
}

/// The budgets after the entry `old` became `new`: the changes of
/// [`spec_update_adjustments`], made one after the other. No running
/// total that was at zero or above falls below zero.
pub open spec fn budgets_after_update(
    budgets: Seq<Budget>,
    old: Transaksi,
    new: Transaksi,
    now: i64,
) -> Seq<Budget> {
    if new.kategori_id == old.kategori_id {
        adjust_all(
            budgets,
            old.user_id,
            old.kategori_id,
            Adjustment::spec_moved_by(new.jumlah - old.jumlah),
            now,
        )
    } else {
        adjust_all(
            adjust_all(
                budgets,
                old.user_id,
                old.kategori_id,
                Adjustment::Kurang(old.jumlah as i64),
                now,
            ),
            old.user_id,
            new.kategori_id,
            Adjustment::spec_moved_by(new.jumlah as int),
            now,
        )
    }
}

/// Whether the running totals can be stored after an entry of `user_id`
/// changed its category and amount as given. They always can where the
/// amount falls within its category, and where an entry with an amount
/// that is not below zero leaves a category.
pub open spec fn can_update_budgets(
    budgets: Seq<Budget>,
    user_id: u128,
    old_kategori: i32,
    old_jumlah: i32,
    new_kategori: i32,
    new_jumlah: i32,
) -> bool {
    if new_kategori == old_kategori {
        can_adjust_all(
            budgets,
            user_id,
            old_kategori,
            Adjustment::spec_moved_by(new_jumlah - old_jumlah),
        )
    } else {
        &&& can_adjust_all(budgets, user_id, old_kategori, Adjustment::Kurang(old_jumlah as i64))
        &&& can_adjust_all(
            budgets,
            user_id,
            new_kategori,
            Adjustment::spec_moved_by(new_jumlah as int),
        )
    }
}

/// Why changing a ledger entry fails, if it does: the user has no such
/// entry, the fields are rejected, the category given does not exist, or
/// the running total of a budget would leave the range that can be
/// stored.
pub open spec fn update_failure(db: Database, user_id: u128, id: i32, fields: UpdateParsedView) -> Option<
    ApiError,
> {
    if !owns_transaksi(db.transaksi@, id, user_id) {
        Some(ApiError::TransaksiTidakDitemukan)
    } else if update_rejection(fields) is Some {
        update_rejection(fields)
    } else if fields.kategori_id is Some && !has_kategori(db.kategori@, fields.kategori_id->0) {
        Some(ApiError::KategoriTidakDikenal)
    } else {
        let old = db.transaksi@[position(db.transaksi@, id, user_id)];
        if !can_update_budgets(
            db.budgets@,
            old.user_id,
            old.kategori_id,
            old.jumlah,
            merged_kategori(old, fields),
            merged_jumlah(old, fields),
        ) {
            Some(ApiError::GagalMengupdateBudget)
        } else {
            None
        }
    }
}

/// Whether `r` and the store `after` are what changing the entry `id` of
/// `user_id` by the fields given makes of the store `before` at the time
/// `now`. On failure the store is as it was. On success the entry holds
/// the fields given in place of its own, it stands at its old place in the
/// ledger, and the running totals have followed: see
/// [`budgets_after_update`].
pub open spec fn update_outcome(
    before: Database,
    after: Database,
    r: Result<Transaksi, ApiError>,
    user_id: u128,
    id: i32,
    fields: UpdateParsedView,
    now: i64,
) -> bool {
    match r {
        Ok(t) => {
            let at = position(before.transaksi@, id, user_id);
            &&& update_failure(before, user_id, id, fields) is None
            &&& 0 <= at < before.transaksi@.len()
            &&& t.id == id
            &&& t.user_id == user_id
            &&& is_merged(t, before.transaksi@[at], fields, now)
            &&& after.transaksi@ == before.transaksi@.update(at, t)
            &&& after.budgets@ == budgets_after_update(
                before.budgets@,
                before.transaksi@[at],
                t,
                now,
            )
            &&& after.kategori == before.kategori
            &&& after.users == before.users
            &&& after.last_transaksi_id == before.last_transaksi_id
            &&& after.last_budget_id == before.last_budget_id
            &&& after.last_kategori_id == before.last_kategori_id
        },
        Err(e) => update_failure(before, user_id, id, fields) == Some(e) && after == before,
    }
}

/// A change to the running totals of one category leaves it open whether
/// those of another can be changed.
pub proof fn lemma_can_adjust_other_kategori(
    budgets: Seq<Budget>,
    user_id: u128,
    first: i32,
    first_adjustment: Adjustment,
    second: i32,
    second_adjustment: Adjustment,
    now: i64,
)
    requires
        first != second,
    ensures
        can_adjust_all(
            adjust_all(budgets, user_id, first, first_adjustment, now),
            user_id,
            second,
            second_adjustment,
        ) == can_adjust_all(budgets, user_id, second, second_adjustment),
{
    let after = adjust_all(budgets, user_id, first, first_adjustment, now);
    if can_adjust_all(budgets, user_id, second, second_adjustment) {
        assert forall|i: int|
            0 <= i < after.len() && (#[trigger] after[i]).spec_is_for(
                user_id,
                second,
            ) implies second_adjustment.spec_fits(after[i].spent) by {
            assert(budgets[i].spec_is_for(user_id, second));
        }
    }
    if can_adjust_all(after, user_id, second, second_adjustment) {
        assert forall|i: int|
            0 <= i < budgets.len() && (#[trigger] budgets[i]).spec_is_for(
                user_id,
                second,
            ) implies second_adjustment.spec_fits(budgets[i].spent) by {
            assert(after[i].spec_is_for(user_id, second));
        }
    }
}

/// Where every budget's running total was the total of its ledger
/// entries, and no entry has an amount below zero, it still is after an
/// entry was changed.
pub proof fn lemma_update_keeps_consistency(
    budgets: Seq<Budget>,
    entries: Seq<Transaksi>,
    at: int,
    new: Transaksi,
    now: i64,
)
    requires
        budgets_follow_ledger(budgets, entries),
        all_nonnegative(entries),
        0 <= at < entries.len(),
        new.user_id == entries[at].user_id,
        new.jumlah >= 0,
        can_update_budgets(
            budgets,
            new.user_id,
            entries[at].kategori_id,
            entries[at].jumlah,
            new.kategori_id,
            new.jumlah,
        ),
    ensures
        budgets_follow_ledger(
            budgets_after_update(budgets, entries[at], new, now),
            entries.update(at, new),
        ),
{
    let old = entries[at];
    let after = budgets_after_update(budgets, old, new, now);
    let changed = entries.update(at, new);
    let first = adjust_all(
        budgets,
        old.user_id,
        old.kategori_id,
        Adjustment::Kurang(old.jumlah as i64),
        now,
    );
    assert(all_nonnegative(changed)) by {
        assert forall|i: int| 0 <= i < changed.len() implies (#[trigger] changed[i]).jumlah
            >= 0 by {
            if i != at {
                assert(changed[i] == entries[i]);
            }
        }
    }
    assert forall|i: int| 0 <= i < after.len() implies (#[trigger] after[i]).spec_spent_or_zero()
        == spent_total(changed, after[i].user_id, after[i].kategori_id) by {
        lemma_spent_total_update(entries, at, new, budgets[i].user_id, budgets[i].kategori_id);
        lemma_spent_total_nonnegative(changed, budgets[i].user_id, budgets[i].kategori_id);
        assert(budgets[i].spec_spent_or_zero() == spent_total(
            entries,
            budgets[i].user_id,
            budgets[i].kategori_id,
        ));
        assert(first[i].user_id == budgets[i].user_id && first[i].kategori_id
            == budgets[i].kategori_id);
    }
}

/// A change that leaves the category and the amount of an entry as they
/// are, such as one of the description alone, leaves every running total
/// as it is.
pub proof fn lemma_update_same_amount_keeps_spent(
    budgets: Seq<Budget>,
    old: Transaksi,
    new: Transaksi,
    now: i64,
    i: int,
)
    requires
        0 <= i < budgets.len(),
        new.kategori_id == old.kategori_id,
        new.jumlah == old.jumlah,
    ensures
        budgets_after_update(budgets, old, new, now).len() == budgets.len(),
        budgets_after_update(budgets, old, new, now)[i].spec_spent_or_zero()
            == budgets[i].spec_spent_or_zero(),
{
}

/// An entry that stays in its category moves the running total of the
/// budget of that category by the difference of its amounts: up where the
/// amount has grown, and down, but not below zero, where it has fallen.
/// Every other budget keeps its total.
pub proof fn lemma_update_within_kategori(
    budgets: Seq<Budget>,
    old: Transaksi,
    new: Transaksi,
    now: i64,
    i: int,
)
    requires
        0 <= i < budgets.len(),
        new.kategori_id == old.kategori_id,
        new.user_id == old.user_id,
        can_update_budgets(
            budgets,
            old.user_id,
            old.kategori_id,
            old.jumlah,
            new.kategori_id,
            new.jumlah,
        ),
    ensures
        budgets_after_update(budgets, old, new, now).len() == budgets.len(),
        budgets_after_update(budgets, old, new, now)[i].spec_spent_or_zero() == if !budgets[i].spec_is_for(
            old.user_id,
            old.kategori_id,
        ) {
            budgets[i].spec_spent_or_zero()
        } else if new.jumlah >= old.jumlah {
            budgets[i].spec_spent_or_zero() + (new.jumlah - old.jumlah)
        } else if budgets[i].spec_spent_or_zero() >= old.jumlah - new.jumlah {
            budgets[i].spec_spent_or_zero() - (old.jumlah - new.jumlah)
        } else {
            0
        },
        budgets[i].spec_spent_or_zero() >= 0 ==> budgets_after_update(
            budgets,
            old,
            new,
            now,
        )[i].spec_spent_or_zero() >= 0,
{
}

/// An entry that moves from one category to another takes its old amount
/// out of the running total of the budget of the old category, which
/// stops at zero, and puts its new amount into that of the new one. Every
/// other budget keeps its total.
pub proof fn lemma_update_moves_amount(
    budgets: Seq<Budget>,
    old: Transaksi,
    new: Transaksi,
    now: i64,
    i: int,
)
    requires
        0 <= i < budgets.len(),
        new.kategori_id != old.kategori_id,
        new.user_id == old.user_id,
        old.jumlah >= 0,
        new.jumlah >= 0,
        can_update_budgets(
            budgets,
            old.user_id,
            old.kategori_id,
            old.jumlah,
            new.kategori_id,
            new.jumlah,
        ),
    ensures
        budgets_after_update(budgets, old, new, now).len() == budgets.len(),
        budgets_after_update(budgets, old, new, now)[i].spec_spent_or_zero() == if budgets[i].spec_is_for(
            old.user_id,
            old.kategori_id,
        ) {
            if budgets[i].spec_spent_or_zero() >= old.jumlah {
                budgets[i].spec_spent_or_zero() - old.jumlah
            } else {
                0
            }
        } else if budgets[i].spec_is_for(old.user_id, new.kategori_id) {
            budgets[i].spec_spent_or_zero() + new.jumlah
        } else {
            budgets[i].spec_spent_or_zero()
        },
{
    let first = adjust_all(
        budgets,
        old.user_id,
        old.kategori_id,
        Adjustment::Kurang(old.jumlah as i64),
        now,
    );
    assert(first[i].kategori_id == budgets[i].kategori_id);
}

/// Replacing one entry by another with the same identifier leaves the
/// identifiers unique, and leaves the ledger without an amount below zero
/// where there was none and the new amount is not below zero.
proof fn lemma_update_keeps_ledger(entries: Seq<Transaksi>, last: i32, at: int, new: Transaksi)
    requires
        transaksi_ids_distinct(entries, last),
        0 <= at < entries.len(),
        new.id == entries[at].id,
    ensures
        transaksi_ids_distinct(entries.update(at, new), last),
        all_nonnegative(entries) && new.jumlah >= 0 ==> all_nonnegative(entries.update(at, new)),
{
    let changed = entries.update(at, new);
    assert forall|i: int| 0 <= i < changed.len() implies (#[trigger] changed[i]).id <= last
        && changed[i].id == entries[i].id && (all_nonnegative(entries) && new.jumlah >= 0
        ==> changed[i].jumlah >= 0) by {
        if i != at {
            assert(changed[i] == entries[i]);
        }
    }
    assert forall|i: int, j: int| 0 <= i < j < changed.len() implies (#[trigger] changed[i]).id
        != (#[trigger] changed[j]).id by {
        assert(changed[i].id == entries[i].id);
        assert(changed[j].id == entries[j].id);
        assert(entries[i].id != entries[j].id);
    }
}

/// Changes the entry `transaksi_id` of `user_id`: the fields given take
/// the place of its own. The running totals follow: see
/// [`budgets_after_update`]. Returns the entry as it is stored. On
/// failure the store is left as it was.
pub fn update_transaksi_for_user(
    db: &mut Database,
    user_id: u128,
    transaksi_id: i32,
    fields: UpdateParsed,
    now: i64,
) -> (r: Result<Transaksi, ApiError>)
    requires
        transaksi_ids_distinct(old(db).transaksi@, old(db).last_transaksi_id),
    ensures
        transaksi_ids_distinct(final(db).transaksi@, final(db).last_transaksi_id),
        old(db).wf() ==> final(db).wf(),
        old(db).amounts_nonnegative() ==> final(db).amounts_nonnegative(),
        old(db).budgets_valid() ==> final(db).budgets_valid(),
        old(db).consistent() && old(db).amounts_nonnegative() ==> final(db).consistent(),
        update_outcome(*old(db), *final(db), r, user_id, transaksi_id, fields@, now),
{
    let at = match db.find_transaksi(transaksi_id, user_id) {
        Some(i) => i,
        None => {
            return Err(ApiError::TransaksiTidakDitemukan);
        },
    };
    let ghost entries = db.transaksi@;
    proof {
        lemma_position(entries, db.last_transaksi_id, at as int);
    }
    let changes = match check_update(fields) {
        Ok(c) => c,
        Err(e) => {
            return Err(e);
        },
    };
    if let Some(k) = changes.kategori_id {
        if !db.kategori_exists(k) {
            return Err(ApiError::KategoriTidakDikenal);
        }
    }
    let new = merge(&db.transaksi[at], changes, now);
    let old_kategori = db.transaksi[at].kategori_id;
    let old_jumlah = db.transaksi[at].jumlah;
    let plan = update_adjustments(old_kategori, old_jumlah, new.kategori_id, new.jumlah);
    proof {
        if new.kategori_id != old_kategori {
            lemma_can_adjust_other_kategori(
                db.budgets@,
                user_id,
                old_kategori,
                Adjustment::Kurang(old_jumlah as i64),
                new.kategori_id,
                Adjustment::spec_moved_by(new.jumlah as int),
                now,
            );
        }
    }
    let first = match adjust_budgets(
        &db.budgets,
        user_id,
        plan[0].kategori_id,
        plan[0].adjustment,
        now,
    ) {
        Some(b) => b,
        None => {
            return Err(ApiError::GagalMengupdateBudget);
        },
    };
    let budgets = if plan.len() == 2 {
        match adjust_budgets(&first, user_id, plan[1].kategori_id, plan[1].adjustment, now) {
            Some(b) => b,
            None => {
                return Err(ApiError::GagalMengupdateBudget);
            },
        }
    } else {
        first
    };
    proof {
        if db.wf() {
            lemma_adjust_all_keeps_distinct(
                db.budgets@,
                db.last_budget_id,
                user_id,
                plan@[0].kategori_id,
                plan@[0].adjustment,
                now,
            );
            if plan@.len() == 2 {
                lemma_adjust_all_keeps_distinct(
                    first@,
                    db.last_budget_id,
                    user_id,
                    plan@[1].kategori_id,
                    plan@[1].adjustment,
                    now,
                );
            }
        }
        lemma_update_keeps_ledger(entries, db.last_transaksi_id, at as int, new);
        if db.amounts_nonnegative() {
            assert(entries[at as int].jumlah >= 0);
        }
        if db.consistent() && db.amounts_nonnegative() {
            lemma_update_keeps_consistency(db.budgets@, entries, at as int, new, now);
        }
        if db.budgets_valid() {
            lemma_adjust_all_keeps_range(
                db.budgets@,
                user_id,
                plan@[0].kategori_id,
                plan@[0].adjustment,
                now,
            );
            if plan@.len() == 2 {
                lemma_adjust_all_keeps_range(
                    first@,
                    user_id,
                    plan@[1].kategori_id,
                    plan@[1].adjustment,
                    now,
                );
            }
        }
    }
    let stored = new.clone();
    db.transaksi.set(at, stored);
    db.budgets = budgets;
    Ok(new)
}

} // verus!
