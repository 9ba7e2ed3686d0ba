//! Deleting a ledger entry.

use crate::database::{
    all_nonnegative, budgets_follow_ledger, lemma_adjust_all_keeps_distinct, lemma_adjust_all_keeps_range,
    lemma_position,
    lemma_spent_total_nonnegative, lemma_spent_total_remove, owns_transaksi, position,
    spent_total, transaksi_ids_distinct, Database,
};
use crate::error::ApiError;
use crate::models::budget::{
    adjust_all, adjust_budgets, can_adjust_all, lemma_kurang_fits, Adjustment, Budget,
};
use crate::models::transaksi::Transaksi;
use vstd::prelude::*;

verus! {

/// The budgets after `entry` was taken out of the ledger: the running
/// total of the budget of its user for its category falls by its amount,
/// and stops at zero.
pub open spec fn budgets_after_delete(budgets: Seq<Budget>, entry: Transaksi, now: i64) -> Seq<
    Budget,
> {
    adjust_all(
        budgets,
        entry.user_id,
        entry.kategori_id,
        Adjustment::Kurang(entry.jumlah as i64),
        now,
    )
}

/// Why deleting a ledger entry fails, if it does: the user has no such
/// entry, or the running total of a budget would leave the range that can
/// be stored. The second happens only for an entry with an amount below
/// zero: see [`lemma_delete_succeeds`].
pub open spec fn delete_failure(db: Database, user_id: u128, id: i32) -> Option<ApiError> {
    if !owns_transaksi(db.transaksi@, id, user_id) {
        Some(ApiError::TransaksiTidakDitemukan)
    } else {
        let entry = db.transaksi@[position(db.transaksi@, id, user_id)];
        if !can_adjust_all(
            db.budgets@,
            user_id,
            entry.kategori_id,
            Adjustment::Kurang(entry.jumlah as i64),
        ) {
            Some(ApiError::GagalMengupdateBudget)
        } else {
            None
        }
    }
}

/// Deleting an entry that the user has succeeds where its amount is not
/// below zero.
pub proof fn lemma_delete_succeeds(db: Database, user_id: u128, id: i32)
    requires
        owns_transaksi(db.transaksi@, id, user_id),
        db.transaksi@[position(db.transaksi@, id, user_id)].jumlah >= 0,
    ensures
        delete_failure(db, user_id, id) is None,
{
    let entry = db.transaksi@[position(db.transaksi@, id, user_id)];
    lemma_kurang_fits(db.budgets@, user_id, entry.kategori_id, entry.jumlah as i64);
}

/// Whether `r` and the store `after` are what deleting the entry `id` of
/// `user_id` makes of the store `before` at the time `now`. On failure
/// the store is as it was. On success the entry is returned, it has left
/// the ledger, and the running total of the budget of the user for its
/// category has fallen by its amount, and stopped at zero.
pub open spec fn delete_outcome(
    before: Database,
    after: Database,
    r: Result<Transaksi, ApiError>,
    user_id: u128,
    id: i32,
    now: i64,
) -> bool {
    match r {
        Ok(t) => {
            let at = position(before.transaksi@, id, user_id);
            &&& delete_failure(before, user_id, id) is None
            &&& 0 <= at < before.transaksi@.len()
            &&& t == before.transaksi@[at]
            &&& t.id == id
            &&& t.user_id == user_id
            &&& after.transaksi@ == before.transaksi@.remove(at)
            &&& after.budgets@ == budgets_after_delete(before.budgets@, t, now)
            &&& after.kategori == before.kategori
            &&& after.users == before.users
            &&& after.last_transaksi_id == before.last_transaksi_id
            &&& after.last_budget_id == before.last_budget_id
            &&& after.last_kategori_id == before.last_kategori_id
        },
        Err(e) => delete_failure(before, user_id, id) == Some(e) && after == before,
    }
}

/// Where every budget's running total was the total of its ledger
/// entries, and no entry has an amount below zero, it still is after an
/// entry was deleted.
pub proof fn lemma_delete_keeps_consistency(
    budgets: Seq<Budget>,
    entries: Seq<Transaksi>,
    at: int,
    now: i64,
)
    requires
        budgets_follow_ledger(budgets, entries),
        all_nonnegative(entries),
        0 <= at < entries.len(),
    ensures
        budgets_follow_ledger(
            budgets_after_delete(budgets, entries[at], now),
            entries.remove(at),
        ),
{
    let entry = entries[at];
    let after = budgets_after_delete(budgets, entry, now);
    let rest = entries.remove(at);
    assert(all_nonnegative(rest)) by {
        assert forall|i: int| 0 <= i < rest.len() implies (#[trigger] rest[i]).jumlah >= 0 by {
            if i < at {
                assert(rest[i] == entries[i]);
            } else {
                assert(rest[i] == entries[i + 1]);
            }
        }
    }
    assert forall|i: int| 0 <= i < after.len() implies (#[trigger] after[i]).spec_spent_or_zero()
        == spent_total(rest, after[i].user_id, after[i].kategori_id) by {
        lemma_spent_total_remove(entries, at, budgets[i].user_id, budgets[i].kategori_id);
        lemma_spent_total_nonnegative(rest, budgets[i].user_id, budgets[i].kategori_id);
        assert(budgets[i].spec_spent_or_zero() == spent_total(
            entries,
            budgets[i].user_id,
            budgets[i].kategori_id,
        ));
    }
}

/// A deleted entry of amount `A` lowers the running total of the budget of
/// its user for its category by `A`, but not below zero, and leaves every
/// other budget's total as it is.
pub proof fn lemma_delete_floors_at_zero(budgets: Seq<Budget>, entry: Transaksi, now: i64, i: int)
    requires
        0 <= i < budgets.len(),
        entry.jumlah >= 0,
    ensures
        budgets_after_delete(budgets, entry, now).len() == budgets.len(),
        budgets[i].spec_is_for(entry.user_id, entry.kategori_id) ==> budgets_after_delete(
            budgets,
            entry,
            now,
        )[i].spec_spent_or_zero() == if budgets[i].spec_spent_or_zero() >= entry.jumlah {
            budgets[i].spec_spent_or_zero() - entry.jumlah
        } else {
            0
        },
        !budgets[i].spec_is_for(entry.user_id, entry.kategori_id) ==> budgets_after_delete(
            budgets,
            entry,
            now,
        )[i] == budgets[i],
{
}

/// Removing one entry leaves the identifiers of the others unique, and
/// leaves them without an amount below zero where there was none.
proof fn lemma_remove_keeps_ledger(entries: Seq<Transaksi>, last: i32, at: int)
    requires
        transaksi_ids_distinct(entries, last),
        0 <= at < entries.len(),
    ensures
        transaksi_ids_distinct(entries.remove(at), last),
        all_nonnegative(entries) ==> all_nonnegative(entries.remove(at)),
{
    let rest = entries.remove(at);
    assert forall|i: int| 0 <= i < rest.len() implies (#[trigger] rest[i]).id <= last && (
    all_nonnegative(entries) ==> rest[i].jumlah >= 0) by {
        if i < at {
            assert(rest[i] == entries[i]);
        } else {
            assert(rest[i] == entries[i + 1]);
        }
    }
    assert forall|i: int, j: int| 0 <= i < j < rest.len() implies (#[trigger] rest[i]).id != (
    #[trigger] rest[j]).id by {
        let a = if i < at { i } else { i + 1 };
        let b = if j < at { j } else { j + 1 };
        assert(rest[i] == entries[a]);
        assert(rest[j] == entries[b]);
        assert(entries[a].id != entries[b].id);
    }
}

/// Takes the entry `transaksi_id` of `user_id` out of the ledger and its
/// amount out of the running total of the budget of the user for its
/// category, which stops at zero. Returns the entry. On failure the store
/// is left as it was.
pub fn delete_transaksi_for_user(db: &mut Database, user_id: u128, transaksi_id: i32, now: i64) -> (r:
    Result<Transaksi, ApiError>)
    requires
        transaksi_ids_distinct(old(db).transaksi@, old(db).last_transaksi_id),
    ensures
        transaksi_ids_distinct(final(db).transaksi@, final(db).last_transaksi_id),
        old(db).wf() ==> final(db).wf(),
        old(db).amounts_nonnegative() ==> final(db).amounts_nonnegative(),
        old(db).budgets_valid() ==> final(db).budgets_valid(),
        old(db).consistent() && old(db).amounts_nonnegative() ==> final(db).consistent(),
        delete_outcome(*old(db), *final(db), r, user_id, transaksi_id, now),
{
    let at = match db.find_transaksi(transaksi_id, user_id) {
        Some(i) => i,
        None => {
            return Err(ApiError::TransaksiTidakDitemukan);
        },
    };
    let ghost entries = db.transaksi@;
    proof {
        lemma_position(entries, db.last_transaksi_id, at as int);
        if db.wf() {
            lemma_adjust_all_keeps_distinct(
                db.budgets@,
                db.last_budget_id,
                user_id,
                entries[at as int].kategori_id,
                Adjustment::Kurang(entries[at as int].jumlah as i64),
                now,
            );
        }
        lemma_remove_keeps_ledger(entries, db.last_transaksi_id, at as int);
        if db.consistent() && db.amounts_nonnegative() {
            lemma_delete_keeps_consistency(db.budgets@, entries, at as int, now);
        }
    }
    let budgets = match adjust_budgets(
        &db.budgets,
        user_id,
        db.transaksi[at].kategori_id,
        Adjustment::Kurang(db.transaksi[at].jumlah as i64),
        now,
    ) {
        Some(b) => b,
        None => {
            return Err(ApiError::GagalMengupdateBudget);
        },
    };
    proof {
        if db.budgets_valid() {
            lemma_adjust_all_keeps_range(
                db.budgets@,
                user_id,
                entries[at as int].kategori_id,
                Adjustment::Kurang(entries[at as int].jumlah as i64),
                now,
            );
        }
    }
    let entry = db.transaksi.remove(at);
    db.budgets = budgets;
    Ok(entry)
}

} // verus!
