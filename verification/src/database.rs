//! The store: the accounts, the category directory, the budgets and the
//! ledger, held in memory.
//!
//! The operations of the other modules read and write a [`Database`]. Each
//! of them is one unit of work: it either fails and leaves the store as it
//! was, or succeeds with all of its writes.

use crate::models::auth::User;
use crate::models::budget::{adjust_all, can_adjust_all, Adjustment, Budget};
use crate::models::kategori::Kategori;
use crate::models::transaksi::Transaksi;
use vstd::prelude::*;

verus! {

/// The accounts, the categories, the budgets and the ledger entries, each
/// in the order in which they were stored, and the last identifier handed
/// out for a category, a budget and a ledger entry.
pub struct Database {
    pub users: Vec<User>,
    pub kategori: Vec<Kategori>,
    pub budgets: Vec<Budget>,
    pub transaksi: Vec<Transaksi>,
    pub last_kategori_id: i32,
    pub last_budget_id: i32,
    pub last_transaksi_id: i32,
}

/// What the entries of `user_id` in `kategori_id` amount to.
pub open spec fn spent_total(entries: Seq<Transaksi>, user_id: u128, kategori_id: i32) -> int
    decreases entries.len(),
{
    if entries.len() == 0 {
        0
    } else {
        spent_total(entries.drop_last(), user_id, kategori_id) + contribution(
            entries.last(),
            user_id,
            kategori_id,
        )
    }
}

/// What one entry adds to the total of `user_id` in `kategori_id`: its
/// amount where it is an entry of that user in that category, else zero.
pub open spec fn contribution(entry: Transaksi, user_id: u128, kategori_id: i32) -> int {
    if entry.user_id == user_id && entry.kategori_id == kategori_id {
        entry.jumlah as int
    } else {
        0
    }
}

/// Whether no entry has an amount below zero.
pub open spec fn all_nonnegative(entries: Seq<Transaksi>) -> bool {
    forall|i: int| 0 <= i < entries.len() ==> (#[trigger] entries[i]).jumlah >= 0
}

/// Whether every budget has a limit above zero and a running total that is
/// not below zero.
pub open spec fn budgets_in_range(budgets: Seq<Budget>) -> bool {
    forall|i: int|
        0 <= i < budgets.len() ==> (#[trigger] budgets[i]).amount > 0
            && budgets[i].spec_spent_or_zero() >= 0
}

/// Whether no two entries share an identifier, and none lies above `last`.
pub open spec fn transaksi_ids_distinct(entries: Seq<Transaksi>, last: i32) -> bool {
    &&& forall|i: int| 0 <= i < entries.len() ==> (#[trigger] entries[i]).id <= last
    &&& forall|i: int, j: int|
        0 <= i < j < entries.len() ==> (#[trigger] entries[i]).id != (#[trigger] entries[j]).id
}

/// Whether no two budgets share an identifier, none lies above `last`, and
/// no user has two budgets for one category.
pub open spec fn budgets_distinct(budgets: Seq<Budget>, last: i32) -> bool {
    &&& forall|i: int| 0 <= i < budgets.len() ==> (#[trigger] budgets[i]).id <= last
    &&& forall|i: int, j: int|
        0 <= i < j < budgets.len() ==> (#[trigger] budgets[i]).id != (#[trigger] budgets[j]).id
    &&& forall|i: int, j: int|
        0 <= i < j < budgets.len() ==> !(#[trigger] budgets[i]).spec_is_for(
            (#[trigger] budgets[j]).user_id,
            budgets[j].kategori_id,
        )
}

/// Whether no two categories share an identifier or a name, and no
/// identifier lies above `last`.
pub open spec fn kategori_distinct(kategori: Seq<Kategori>, last: i32) -> bool {
    &&& forall|i: int| 0 <= i < kategori.len() ==> (#[trigger] kategori[i]).id <= last
    &&& forall|i: int, j: int|
        0 <= i < j < kategori.len() ==> (#[trigger] kategori[i]).id != (#[trigger] kategori[j]).id
    &&& forall|i: int, j: int|
        0 <= i < j < kategori.len() ==> (#[trigger] kategori[i]).nama@ != (
        #[trigger] kategori[j]).nama@
}

/// Whether `kategori` holds a category with the identifier `id`.
pub open spec fn has_kategori(kategori: Seq<Kategori>, id: i32) -> bool {
    exists|i: int| 0 <= i < kategori.len() && (#[trigger] kategori[i]).id == id
}

/// Whether every budget's `spent` is the total of the ledger entries of its
/// user in its category.
pub open spec fn budgets_follow_ledger(budgets: Seq<Budget>, entries: Seq<Transaksi>) -> bool {
    forall|i: int|
        0 <= i < budgets.len() ==> (#[trigger] budgets[i]).spec_spent_or_zero() == spent_total(
            entries,
            budgets[i].user_id,
            budgets[i].kategori_id,
        )
}

impl Database {
    /// The invariant of the store: identifiers are unique, a user has at
    /// most one budget per category, and category names are unique.
    pub open spec fn wf(&self) -> bool {
        &&& kategori_distinct(self.kategori@, self.last_kategori_id)
        &&& budgets_distinct(self.budgets@, self.last_budget_id)
        &&& transaksi_ids_distinct(self.transaksi@, self.last_transaksi_id)
    }

    /// Whether no ledger entry has an amount below zero. The operations
    /// store amounts above zero only; an entry that came into the store
    /// another way may hold zero.
    pub open spec fn amounts_nonnegative(&self) -> bool {
        all_nonnegative(self.transaksi@)
    }

    /// Whether every budget has a limit above zero and a running total
    /// that is not below zero.
    pub open spec fn budgets_valid(&self) -> bool {
        budgets_in_range(self.budgets@)
    }

    /// Whether every budget's `spent` is the total of the ledger entries
    /// of its user in its category.
    pub open spec fn consistent(&self) -> bool {
        budgets_follow_ledger(self.budgets@, self.transaksi@)
    }

    /// An empty store.
    pub fn new() -> (db: Database)
        ensures
            db.wf(),
            db.amounts_nonnegative(),
            db.budgets_valid(),
            db.consistent(),
            db.users@.len() == 0,
            db.kategori@.len() == 0,
            db.budgets@.len() == 0,
            db.transaksi@.len() == 0,
            db.last_kategori_id == 0,
            db.last_budget_id == 0,
            db.last_transaksi_id == 0,
    {
        Database {
            users: Vec::new(),
            kategori: Vec::new(),
            budgets: Vec::new(),
            transaksi: Vec::new(),
            last_kategori_id: 0,
            last_budget_id: 0,
            last_transaksi_id: 0,
        }
    }

    /// Whether the invariant of the store holds.
    pub fn is_wf(&self) -> (r: bool)
        ensures
            r == self.wf(),
    {
        check_kategori(&self.kategori, self.last_kategori_id) && check_budgets(
            &self.budgets,
            self.last_budget_id,
        ) && check_transaksi(&self.transaksi, self.last_transaksi_id)
    }

    /// Whether a category with the identifier `id` exists.
    pub fn kategori_exists(&self, id: i32) -> (r: bool)
        ensures
            r == has_kategori(self.kategori@, id),
    {
        has_kategori_id(&self.kategori, id)
    }

    /// The place in the ledger of the entry `id` of `user_id`, if there is
    /// one.
    pub fn find_transaksi(&self, id: i32, user_id: u128) -> (r: Option<usize>)
        ensures
            match r {
                Some(i) => i < self.transaksi@.len() && self.transaksi@[i as int].id == id
                    && self.transaksi@[i as int].user_id == user_id,
                None => forall|k: int|
                    0 <= k < self.transaksi@.len() ==> !((#[trigger] self.transaksi@[k]).id == id
                        && self.transaksi@[k].user_id == user_id),
            },
    {
        let mut i: usize = 0;
        while i < self.transaksi.len()
            invariant
                i <= self.transaksi@.len(),
                forall|k: int|
                    0 <= k < i ==> !((#[trigger] self.transaksi@[k]).id == id
                        && self.transaksi@[k].user_id == user_id),
            decreases self.transaksi@.len() - i,
        {
            if self.transaksi[i].id == id && self.transaksi[i].user_id == user_id {
                return Some(i);
            }
            i += 1;
        }
        None
    }
}

/// Whether a category with the identifier `id` exists.
pub fn has_kategori_id(kategori: &Vec<Kategori>, id: i32) -> (r: bool)
    ensures
        r == has_kategori(kategori@, id),
{
    let mut i: usize = 0;
    while i < kategori.len()
        invariant
            i <= kategori@.len(),
            forall|k: int| 0 <= k < i ==> (#[trigger] kategori@[k]).id != id,
        decreases kategori@.len() - i,
    {
        if kategori[i].id == id {
            return true;
        }
        i += 1;
    }
    false
}

/// The name of the category `id`, or `Tanpa Kategori` where there is no
/// such category.
pub open spec fn spec_kategori_name(kategori: Seq<Kategori>, id: i32) -> Seq<char>
    decreases kategori.len(),
{
    if kategori.len() == 0 {
        "Tanpa Kategori"@
    } else if kategori[0].id == id {
        kategori[0].nama@
    } else {
        spec_kategori_name(kategori.drop_first(), id)
    }
}

/// The name of the category `id`, or `Tanpa Kategori` where there is no
/// such category.
pub fn kategori_name(kategori: &Vec<Kategori>, id: i32) -> (r: String)
    ensures
        r@ == spec_kategori_name(kategori@, id),
{
    let mut i: usize = 0;
    proof {
        assert(kategori@.skip(0) =~= kategori@);
    }
    while i < kategori.len()
        invariant
            i <= kategori@.len(),
            spec_kategori_name(kategori@, id) == spec_kategori_name(kategori@.skip(i as int), id),
        decreases kategori@.len() - i,
    {
        if kategori[i].id == id {
            return kategori[i].nama.clone();
        }
        proof {
            assert(kategori@.skip(i as int).drop_first() =~= kategori@.skip(i as int + 1));
        }
        i += 1;
    }
    "Tanpa Kategori".to_owned()
}

/// Whether no two categories share an identifier or a name, and no
/// identifier lies above `last`.
pub fn check_kategori(kategori: &Vec<Kategori>, last: i32) -> (r: bool)
    ensures
        r == kategori_distinct(kategori@, last),
{
    let mut i: usize = 0;
    while i < kategori.len()
        invariant
            i <= kategori@.len(),
            kategori_distinct(kategori@.take(i as int), last),
        decreases kategori@.len() - i,
    {
        if kategori[i].id > last {
            return false;
        }
        let mut j: usize = 0;
        while j < i
            invariant
                j <= i < kategori@.len(),
                forall|a: int|
                    0 <= a < j ==> (#[trigger] kategori@[a]).id != kategori@[i as int].id
                        && kategori@[a].nama@ != kategori@[i as int].nama@,
            decreases i - j,
        {
            if kategori[j].id == kategori[i].id || kategori[j].nama == kategori[i].nama {
                return false;
            }
            j += 1;
        }
        proof {
            let before = kategori@.take(i as int);
            let after = kategori@.take(i as int + 1);
            assert forall|a: int| 0 <= a < after.len() implies #[trigger] after[a]
                == kategori@[a] by {}
            assert forall|a: int| 0 <= a < before.len() implies #[trigger] before[a]
                == kategori@[a] by {}
            assert forall|a: int, b: int| 0 <= a < b < after.len() implies (#[trigger] after[a]).id
                != (#[trigger] after[b]).id && after[a].nama@ != after[b].nama@ by {
                if b < i {
                    assert(before[a].id != before[b].id && before[a].nama@ != before[b].nama@);
                }
            }
            assert forall|a: int| 0 <= a < after.len() implies (#[trigger] after[a]).id <= last by {
                if a < i {
                    assert(before[a].id <= last);
                }
            }
        }
        i += 1;
    }
    proof {
        assert(kategori@.take(i as int) =~= kategori@);
    }
    true
}

/// Whether no two budgets share an identifier, none lies above `last`, and
/// no user has two budgets for one category.
pub fn check_budgets(budgets: &Vec<Budget>, last: i32) -> (r: bool)
    ensures
        r == budgets_distinct(budgets@, last),
{
    let mut i: usize = 0;
    while i < budgets.len()
        invariant
            i <= budgets@.len(),
            budgets_distinct(budgets@.take(i as int), last),
        decreases budgets@.len() - i,
    {
        if budgets[i].id > last {
            return false;
        }
        let mut j: usize = 0;
        while j < i
            invariant
                j <= i < budgets@.len(),
                forall|a: int|
                    0 <= a < j ==> (#[trigger] budgets@[a]).id != budgets@[i as int].id
                        && !budgets@[a].spec_is_for(
                        budgets@[i as int].user_id,
                        budgets@[i as int].kategori_id,
                    ),
            decreases i - j,
        {
            if budgets[j].id == budgets[i].id || budgets[j].is_for(
                budgets[i].user_id,
                budgets[i].kategori_id,
            ) {
                return false;
            }
            j += 1;
        }
        proof {
            let before = budgets@.take(i as int);
            let after = budgets@.take(i as int + 1);
            assert forall|a: int| 0 <= a < after.len() implies #[trigger] after[a]
                == budgets@[a] by {}
            assert forall|a: int| 0 <= a < before.len() implies #[trigger] before[a]
                == budgets@[a] by {}
            assert forall|a: int, b: int| 0 <= a < b < after.len() implies (#[trigger] after[a]).id
                != (#[trigger] after[b]).id && !after[a].spec_is_for(
                after[b].user_id,
                after[b].kategori_id,
            ) by {
                if b < i {
                    assert(before[a].id != before[b].id && !before[a].spec_is_for(
                        before[b].user_id,
                        before[b].kategori_id,
                    ));
                }
            }
            assert forall|a: int| 0 <= a < after.len() implies (#[trigger] after[a]).id <= last by {
                if a < i {
                    assert(before[a].id <= last);
                }
            }
        }
        i += 1;
    }
    proof {
        assert(budgets@.take(i as int) =~= budgets@);
    }
    true
}

/// Whether no two entries share an identifier, and none lies above `last`.
pub fn check_transaksi(entries: &Vec<Transaksi>, last: i32) -> (r: bool)
    ensures
        r == transaksi_ids_distinct(entries@, last),
{
    let mut i: usize = 0;
    while i < entries.len()
        invariant
            i <= entries@.len(),
            transaksi_ids_distinct(entries@.take(i as int), last),
        decreases entries@.len() - i,
    {
        if entries[i].id > last {
            return false;
        }
        let mut j: usize = 0;
        while j < i
            invariant
                j <= i < entries@.len(),
                forall|a: int| 0 <= a < j ==> (#[trigger] entries@[a]).id != entries@[i as int].id,
            decreases i - j,
        {
            if entries[j].id == entries[i].id {
                return false;
            }
            j += 1;
        }
        proof {
            let before = entries@.take(i as int);
            let after = entries@.take(i as int + 1);
            assert forall|a: int| 0 <= a < after.len() implies #[trigger] after[a]
                == entries@[a] by {}
            assert forall|a: int| 0 <= a < before.len() implies #[trigger] before[a]
                == entries@[a] by {}
            assert forall|a: int, b: int| 0 <= a < b < after.len() implies (#[trigger] after[a]).id
                != (#[trigger] after[b]).id by {
                if b < i {
                    assert(before[a].id != before[b].id);
                }
            }
            assert forall|a: int| 0 <= a < after.len() implies (#[trigger] after[a]).id
                <= last by {
                if a < i {
                    assert(before[a].id <= last);
                }
            }
        }
        i += 1;
    }
    proof {
        assert(entries@.take(i as int) =~= entries@);
    }
    true
}

/// Whether the ledger holds an entry `id` of `user_id`.
pub open spec fn owns_transaksi(entries: Seq<Transaksi>, id: i32, user_id: u128) -> bool {
    exists|i: int|
        0 <= i < entries.len() && (#[trigger] entries[i]).id == id && entries[i].user_id == user_id
}

/// The place in the ledger of the entry `id` of `user_id`.
pub open spec fn position(entries: Seq<Transaksi>, id: i32, user_id: u128) -> int {
    choose|i: int|
        0 <= i < entries.len() && (#[trigger] entries[i]).id == id && entries[i].user_id == user_id
}

/// Where identifiers are unique, the place of an entry is the one place
/// that holds its identifier.
pub proof fn lemma_position(entries: Seq<Transaksi>, last: i32, at: int)
    requires
        transaksi_ids_distinct(entries, last),
        0 <= at < entries.len(),
    ensures
        owns_transaksi(entries, entries[at].id, entries[at].user_id),
        position(entries, entries[at].id, entries[at].user_id) == at,
{
    let p = position(entries, entries[at].id, entries[at].user_id);
    if p < at {
        assert(entries[p].id != entries[at].id);
    }
    if at < p {
        assert(entries[at].id != entries[p].id);
    }
}

/// A change to running totals leaves the identifiers and the owners of
/// the budgets as they are.
pub proof fn lemma_adjust_all_keeps_distinct(
    budgets: Seq<Budget>,
    last: i32,
    user_id: u128,
    kategori_id: i32,
    adjustment: Adjustment,
    now: i64,
)
    requires
        budgets_distinct(budgets, last),
    ensures
        budgets_distinct(adjust_all(budgets, user_id, kategori_id, adjustment, now), last),
{
    let after = adjust_all(budgets, user_id, kategori_id, adjustment, now);
    assert forall|i: int| 0 <= i < after.len() implies (#[trigger] after[i]).id <= last by {
        assert(budgets[i].id <= last);
    }
    assert forall|i: int, j: int| 0 <= i < j < after.len() implies (#[trigger] after[i]).id != (
    #[trigger] after[j]).id by {
        assert(budgets[i].id != budgets[j].id);
    }
    assert forall|i: int, j: int| 0 <= i < j < after.len() implies !(#[trigger] after[i]).spec_is_for(
        (#[trigger] after[j]).user_id,
        after[j].kategori_id,
    ) by {
        assert(!budgets[i].spec_is_for(budgets[j].user_id, budgets[j].kategori_id));
    }
}

/// A change to running totals that takes an amount away, or adds one that
/// is not below zero, leaves every limit above zero and every running
/// total at zero or above.
pub proof fn lemma_adjust_all_keeps_range(
    budgets: Seq<Budget>,
    user_id: u128,
    kategori_id: i32,
    adjustment: Adjustment,
    now: i64,
)
    requires
        budgets_in_range(budgets),
        adjustment.spec_never_lowers_below_zero(),
        can_adjust_all(budgets, user_id, kategori_id, adjustment),
    ensures
        budgets_in_range(adjust_all(budgets, user_id, kategori_id, adjustment, now)),
{
    let after = adjust_all(budgets, user_id, kategori_id, adjustment, now);
    assert forall|i: int| 0 <= i < after.len() implies (#[trigger] after[i]).amount > 0
        && after[i].spec_spent_or_zero() >= 0 by {
        assert(budgets[i].amount > 0 && budgets[i].spec_spent_or_zero() >= 0);
    }
}

/// An entry appended to the ledger adds its contribution to each total.
pub proof fn lemma_spent_total_push(
    entries: Seq<Transaksi>,
    entry: Transaksi,
    user_id: u128,
    kategori_id: i32,
)
    ensures
        spent_total(entries.push(entry), user_id, kategori_id) == spent_total(
            entries,
            user_id,
            kategori_id,
        ) + contribution(entry, user_id, kategori_id),
{
    assert(entries.push(entry).drop_last() =~= entries);
}

/// An entry replaced in the ledger takes its old contribution out of each
/// total and puts its new one in.
pub proof fn lemma_spent_total_update(
    entries: Seq<Transaksi>,
    at: int,
    entry: Transaksi,
    user_id: u128,
    kategori_id: i32,
)
    requires
        0 <= at < entries.len(),
    ensures
        spent_total(entries.update(at, entry), user_id, kategori_id) == spent_total(
            entries,
            user_id,
            kategori_id,
        ) - contribution(entries[at], user_id, kategori_id) + contribution(
            entry,
            user_id,
            kategori_id,
        ),
    decreases entries.len(),
{
    let updated = entries.update(at, entry);
    if at == entries.len() - 1 {
        assert(updated.drop_last() =~= entries.drop_last());
    } else {
        lemma_spent_total_update(entries.drop_last(), at, entry, user_id, kategori_id);
        assert(updated.drop_last() =~= entries.drop_last().update(at, entry));
    }
}

/// An entry removed from the ledger takes its contribution out of each
/// total.
pub proof fn lemma_spent_total_remove(
    entries: Seq<Transaksi>,
    at: int,
    user_id: u128,
    kategori_id: i32,
)
    requires
        0 <= at < entries.len(),
    ensures
        spent_total(entries.remove(at), user_id, kategori_id) == spent_total(
            entries,
            user_id,
            kategori_id,
        ) - contribution(entries[at], user_id, kategori_id),
    decreases entries.len(),
{
    let removed = entries.remove(at);
    if at == entries.len() - 1 {
        assert(removed =~= entries.drop_last());
    } else {
        lemma_spent_total_remove(entries.drop_last(), at, user_id, kategori_id);
        assert(removed.drop_last() =~= entries.drop_last().remove(at));
        assert(removed.last() == entries.last());
    }
}

/// Entries without an amount below zero never total less than zero.
pub proof fn lemma_spent_total_nonnegative(
    entries: Seq<Transaksi>,
    user_id: u128,
    kategori_id: i32,
)
    requires
        all_nonnegative(entries),
    ensures
        spent_total(entries, user_id, kategori_id) >= 0,
    decreases entries.len(),
{
    if entries.len() > 0 {
        lemma_spent_total_nonnegative(entries.drop_last(), user_id, kategori_id);
    }
}

} // verus!
