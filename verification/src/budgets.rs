//! Budgets: creating, changing, deleting and listing them. A user has at
//! most one budget for a category.

use crate::database::{
    budgets_distinct, budgets_follow_ledger, has_kategori, kategori_name, spec_kategori_name,
    spent_total, Database,
};
use crate::error::ApiError;
use crate::models::budget::{
    Budget, BudgetWithCategory, CreateBudgetRequest, UpdateBudgetRequest,
};
use crate::models::kategori::Kategori;
use crate::models::transaksi::Transaksi;
use crate::teks::{format_user_id, hyphenated_uuid};
use vstd::prelude::*;

verus! {

/// Whether `user_id` has a budget for `kategori_id`.
pub open spec fn has_budget_for(budgets: Seq<Budget>, user_id: u128, kategori_id: i32) -> bool {
    exists|i: int|
        0 <= i < budgets.len() && (#[trigger] budgets[i]).spec_is_for(user_id, kategori_id)
}

/// Whether `user_id` has a budget for `kategori_id`.
pub fn budget_exists_for(budgets: &Vec<Budget>, user_id: u128, kategori_id: i32) -> (r: bool)
    ensures
        r == has_budget_for(budgets@, user_id, kategori_id),
{
    let mut i: usize = 0;
    while i < budgets.len()
        invariant
            i <= budgets@.len(),
            forall|k: int|
                0 <= k < i ==> !(#[trigger] budgets@[k]).spec_is_for(user_id, kategori_id),
        decreases budgets@.len() - i,
    {
        if budgets[i].is_for(user_id, kategori_id) {
            return true;
        }
        i += 1;
    }
    false
}

/// Whether `user_id` owns a budget with the identifier `id`.
pub open spec fn owns_budget(budgets: Seq<Budget>, id: i32, user_id: u128) -> bool {
    exists|i: int|
        0 <= i < budgets.len() && (#[trigger] budgets[i]).id == id && budgets[i].user_id == user_id
}

/// The place of the budget `id` of `user_id`.
pub open spec fn budget_position(budgets: Seq<Budget>, id: i32, user_id: u128) -> int {
    choose|i: int|
        0 <= i < budgets.len() && (#[trigger] budgets[i]).id == id && budgets[i].user_id == user_id
}

/// The place of the budget `id` of `user_id`, if there is one.
pub fn find_budget(budgets: &Vec<Budget>, id: i32, user_id: u128) -> (r: Option<usize>)
    ensures
        r is Some <==> owns_budget(budgets@, id, user_id),
        r matches Some(i) ==> i < budgets@.len() && budgets@[i as int].id == id
            && budgets@[i as int].user_id == user_id,
{
    let mut i: usize = 0;
    while i < budgets.len()
        invariant
            i <= budgets@.len(),
            forall|k: int|
                0 <= k < i ==> !((#[trigger] budgets@[k]).id == id && budgets@[k].user_id
                    == user_id),
        decreases budgets@.len() - i,
    {
        if budgets[i].id == id && budgets[i].user_id == user_id {
            return Some(i);
        }
        i += 1;
    }
    None
}

/// Where identifiers are unique, the place of a budget is the one place
/// that holds its identifier.
pub proof fn lemma_budget_position(budgets: Seq<Budget>, last: i32, at: int)
    requires
        budgets_distinct(budgets, last),
        0 <= at < budgets.len(),
    ensures
        owns_budget(budgets, budgets[at].id, budgets[at].user_id),
        budget_position(budgets, budgets[at].id, budgets[at].user_id) == at,
{
    let p = budget_position(budgets, budgets[at].id, budgets[at].user_id);
    if p < at {
        assert(budgets[p].id != budgets[at].id);
    }
    if at < p {
        assert(budgets[at].id != budgets[p].id);
    }
}

/// Why creating a budget fails, if it does: the limit is not above zero, the category does not exist,
/// the user has a budget for the category already, or no identifier is
/// left.
pub open spec fn create_budget_failure(
    db: Database,
    user_id: u128,
    payload: CreateBudgetRequest,
) -> Option<ApiError> {
    if payload.amount <= 0 {
        Some(ApiError::AmountTidakValid)
    } else if !has_kategori(db.kategori@, payload.kategori_id) {
        Some(ApiError::KategoriTidakDikenal)
    } else if has_budget_for(db.budgets@, user_id, payload.kategori_id) {
        Some(ApiError::BudgetSudahAda)
    } else if db.last_budget_id == i32::MAX {
        Some(ApiError::GagalMembuatBudget)
    } else {
        None
    }
}

/// A budget that starts at zero is in step with the ledger where the
/// ledger holds nothing of its user in its category.
pub proof fn lemma_create_budget_keeps_consistency(
    budgets: Seq<Budget>,
    entries: Seq<Transaksi>,
    budget: Budget,
)
    requires
        budgets_follow_ledger(budgets, entries),
        budget.spec_spent_or_zero() == spent_total(entries, budget.user_id, budget.kategori_id),
    ensures
        budgets_follow_ledger(budgets.push(budget), entries),
{
    let after = budgets.push(budget);
    assert forall|i: int| 0 <= i < after.len() implies (#[trigger] after[i]).spec_spent_or_zero()
        == spent_total(entries, after[i].user_id, after[i].kategori_id) by {
        if i < budgets.len() {
            assert(after[i] == budgets[i]);
        }
    }
}

/// Whether `r` and the store `after` are what creating a budget of
/// `user_id` makes of the store `before` at the time `now`. On failure
/// the store is as it was. On success the budget has the next identifier,
/// the limit given and nothing spent, and it stands after the other
/// budgets.
pub open spec fn create_budget_outcome(
    before: Database,
    after: Database,
    r: Result<Budget, ApiError>,
    user_id: u128,
    payload: CreateBudgetRequest,
    now: i64,
) -> bool {
    match r {
        Ok(b) => {
            &&& create_budget_failure(before, user_id, payload) is None
            &&& b.id == before.last_budget_id + 1
            &&& b.user_id == user_id
            &&& b.kategori_id == payload.kategori_id
            &&& b.amount == payload.amount
            &&& b.spent == Some(0i32)
            &&& b.created_at == Some(now)
            &&& b.updated_at == Some(now)
            &&& after.budgets@ == before.budgets@.push(b)
            &&& after.last_budget_id == b.id
            &&& after.transaksi == before.transaksi
            &&& after.kategori == before.kategori
            &&& after.users == before.users
            &&& after.last_transaksi_id == before.last_transaksi_id
            &&& after.last_kategori_id == before.last_kategori_id
            &&& before.consistent() && spent_total(
                before.transaksi@,
                b.user_id,
                b.kategori_id,
            ) == 0 ==> after.consistent()
        },
        Err(e) => create_budget_failure(before, user_id, payload) == Some(e) && after
            == before,
    }
}

/// Gives `user_id` a budget for a category, with nothing spent. On failure
/// the store is left as it was.
pub fn create_budget_for_user(db: &mut Database, user_id: u128, payload: &CreateBudgetRequest, now: i64) -> (r:
    Result<Budget, ApiError>)
    requires
        old(db).wf(),
    ensures
        final(db).wf(),
        old(db).budgets_valid() ==> final(db).budgets_valid(),
        create_budget_outcome(*old(db), *final(db), r, user_id, *payload, now),
{
    if payload.amount <= 0 {
        return Err(ApiError::AmountTidakValid);
    }
    if !db.kategori_exists(payload.kategori_id) {
        return Err(ApiError::KategoriTidakDikenal);
    }
    if budget_exists_for(&db.budgets, user_id, payload.kategori_id) {
        return Err(ApiError::BudgetSudahAda);
    }
    if db.last_budget_id == i32::MAX {
        return Err(ApiError::GagalMembuatBudget);
    }
    let id: i32 = db.last_budget_id + 1;
    let budget = Budget {
        id,
        user_id,
        kategori_id: payload.kategori_id,
        amount: payload.amount,
        spent: Some(0),
        created_at: Some(now),
        updated_at: Some(now),
    };
    proof {
        let before = db.budgets@;
        let after = before.push(budget);
        assert forall|i: int, j: int| 0 <= i < j < after.len() implies (#[trigger] after[i]).id
            != (#[trigger] after[j]).id && !after[i].spec_is_for(
            after[j].user_id,
            after[j].kategori_id,
        ) by {
            assert(after[i] == before[i]);
            if j < before.len() {
                assert(after[j] == before[j]);
            }
        }
        assert forall|i: int| 0 <= i < after.len() implies (#[trigger] after[i]).id <= id by {
            if i < before.len() {
                assert(after[i] == before[i]);
            }
        }
        if db.consistent() && spent_total(db.transaksi@, user_id, payload.kategori_id) == 0 {
            lemma_create_budget_keeps_consistency(before, db.transaksi@, budget);
        }
        if db.budgets_valid() {
            assert forall|i: int| 0 <= i < after.len() implies (#[trigger] after[i]).amount > 0
                && after[i].spec_spent_or_zero() >= 0 by {
                if i < before.len() {
                    assert(after[i] == before[i]);
                    assert(before[i].amount > 0 && before[i].spec_spent_or_zero() >= 0);
                }
            }
        }
    }
    db.budgets.push(budget);
    db.last_budget_id = id;
    Ok(budget)
}

/// Why deleting a budget fails, if it does: the user has no such budget.
pub open spec fn budget_failure(db: Database, user_id: u128, id: i32) -> Option<ApiError> {
    if !owns_budget(db.budgets@, id, user_id) {
        Some(ApiError::BudgetTidakDitemukan)
    } else {
        None
    }
}

/// Why changing a budget fails, if it does: the user has no such budget,
/// the limit given is not above zero, or the running total given is below
/// zero.
pub open spec fn update_budget_failure(
    db: Database,
    user_id: u128,
    id: i32,
    payload: UpdateBudgetRequest,
) -> Option<ApiError> {
    if !owns_budget(db.budgets@, id, user_id) {
        Some(ApiError::BudgetTidakDitemukan)
    } else if payload.amount is Some && payload.amount->0 <= 0 {
        Some(ApiError::AmountTidakValid)
    } else if payload.spent is Some && payload.spent->0 < 0 {
        Some(ApiError::SpentTidakValid)
    } else {
        None
    }
}

/// The budget `old` with the fields that `payload` gives put in place of
/// its own at the time `now`.
pub open spec fn spec_changed_budget(old: Budget, payload: UpdateBudgetRequest, now: i64) -> Budget {
    Budget {
        amount: if payload.amount is Some { payload.amount->0 } else { old.amount },
        spent: if payload.spent is Some { payload.spent } else { old.spent },
        updated_at: Some(now),
        ..old
    }
}

/// Whether `r` and the store `after` are what changing the budget
/// `budget_id` of `user_id` makes of the store `before` at the time `now`.
/// On failure the store is as it was. On success the budget holds the
/// fields given in place of its own: a limit above zero, a running total
/// that is not below zero.
pub open spec fn update_budget_outcome(
    before: Database,
    after: Database,
    r: Result<Budget, ApiError>,
    user_id: u128,
    budget_id: i32,
    payload: UpdateBudgetRequest,
    now: i64,
) -> bool {
    match r {
        Ok(b) => {
            let at = budget_position(before.budgets@, budget_id, b.user_id);
            &&& update_budget_failure(before, user_id, budget_id, payload) is None
            &&& b.user_id == user_id
            &&& 0 <= at < before.budgets@.len()
            &&& b == spec_changed_budget(before.budgets@[at], payload, now)
            &&& after.budgets@ == before.budgets@.update(at, b)
            &&& after.transaksi == before.transaksi
            &&& after.kategori == before.kategori
            &&& after.users == before.users
            &&& after.last_budget_id == before.last_budget_id
            &&& after.last_transaksi_id == before.last_transaksi_id
            &&& after.last_kategori_id == before.last_kategori_id
        },
        Err(e) => update_budget_failure(before, user_id, budget_id, payload) == Some(e) && after
            == before,
    }
}

/// Changes the limit of the budget `budget_id` of `user_id`, its running
/// total, or both; a field that is not given keeps its value. A limit
/// must be above zero and a running total must not be below zero. A
/// running total set here no longer follows the ledger. On failure the
/// store is left as it was.
pub fn update_budget_for_user(
    db: &mut Database,
    user_id: u128,
    budget_id: i32,
    payload: &UpdateBudgetRequest,
    now: i64,
) -> (r: Result<Budget, ApiError>)
    requires
        old(db).wf(),
    ensures
        final(db).wf(),
        old(db).budgets_valid() ==> final(db).budgets_valid(),
        update_budget_outcome(*old(db), *final(db), r, user_id, budget_id, *payload, now),
{
    let at = match find_budget(&db.budgets, budget_id, user_id) {
        Some(i) => i,
        None => {
            return Err(ApiError::BudgetTidakDitemukan);
        },
    };
    proof {
        lemma_budget_position(db.budgets@, db.last_budget_id, at as int);
    }
    if let Some(amount) = payload.amount {
        if amount <= 0 {
            return Err(ApiError::AmountTidakValid);
        }
    }
    if let Some(spent) = payload.spent {
        if spent < 0 {
            return Err(ApiError::SpentTidakValid);
        }
    }
    let old_budget = db.budgets[at];
    let changed = Budget {
        amount: match payload.amount {
            Some(a) => a,
            None => old_budget.amount,
        },
        spent: match payload.spent {
            Some(s) => Some(s),
            None => old_budget.spent,
        },
        updated_at: Some(now),
        ..old_budget
    };
    proof {
        let before = db.budgets@;
        let after = before.update(at as int, changed);
        assert forall|i: int| 0 <= i < after.len() implies (#[trigger] after[i]).id
            == before[i].id && after[i].user_id == before[i].user_id && after[i].kategori_id
            == before[i].kategori_id by {}
        assert forall|i: int, j: int| 0 <= i < j < after.len() implies (#[trigger] after[i]).id
            != (#[trigger] after[j]).id && !after[i].spec_is_for(
            after[j].user_id,
            after[j].kategori_id,
        ) by {
            assert(before[i].id != before[j].id);
            assert(!before[i].spec_is_for(before[j].user_id, before[j].kategori_id));
        }
        assert forall|i: int| 0 <= i < after.len() implies (#[trigger] after[i]).id
            <= db.last_budget_id by {
            assert(before[i].id <= db.last_budget_id);
        }
        if db.budgets_valid() {
            assert forall|i: int| 0 <= i < after.len() implies (#[trigger] after[i]).amount > 0
                && after[i].spec_spent_or_zero() >= 0 by {
                assert(before[i].amount > 0 && before[i].spec_spent_or_zero() >= 0);
            }
        }
    }
    db.budgets.set(at, changed);
    Ok(changed)
}

/// Whether `r` and the store `after` are what deleting the budget
/// `budget_id` of `user_id` makes of the store `before`. On failure the
/// store is as it was. On success the budget is returned and has left the
/// store.
pub open spec fn delete_budget_outcome(
    before: Database,
    after: Database,
    r: Result<Budget, ApiError>,
    user_id: u128,
    budget_id: i32,
) -> bool {
    match r {
        Ok(b) => {
            let at = budget_position(before.budgets@, budget_id, b.user_id);
            &&& budget_failure(before, user_id, budget_id) is None
            &&& b.user_id == user_id
            &&& 0 <= at < before.budgets@.len()
            &&& b == before.budgets@[at]
            &&& after.budgets@ == before.budgets@.remove(at)
            &&& after.transaksi == before.transaksi
            &&& after.kategori == before.kategori
            &&& after.users == before.users
            &&& after.last_budget_id == before.last_budget_id
            &&& after.last_transaksi_id == before.last_transaksi_id
            &&& after.last_kategori_id == before.last_kategori_id
        },
        Err(e) => budget_failure(before, user_id, budget_id) == Some(e) && after
            == before,
    }
}

/// Deletes the budget `budget_id` of `user_id` and returns it. The ledger
/// stays as it is. On failure the store is left as it was.
pub fn delete_budget_for_user(db: &mut Database, user_id: u128, budget_id: i32) -> (r: Result<
    Budget,
    ApiError,
>)
    requires
        old(db).wf(),
    ensures
        final(db).wf(),
        old(db).budgets_valid() ==> final(db).budgets_valid(),
        old(db).consistent() ==> final(db).consistent(),
        delete_budget_outcome(*old(db), *final(db), r, user_id, budget_id),
{
    let at = match find_budget(&db.budgets, budget_id, user_id) {
        Some(i) => i,
        None => {
            return Err(ApiError::BudgetTidakDitemukan);
        },
    };
    proof {
        lemma_budget_position(db.budgets@, db.last_budget_id, at as int);
    }
    proof {
        let before = db.budgets@;
        let after = before.remove(at as int);
        assert forall|i: int| 0 <= i < after.len() implies #[trigger] after[i] == before[if i
            < at {
            i
        } else {
            i + 1
        }] by {}
        assert forall|i: int, j: int| 0 <= i < j < after.len() implies (#[trigger] after[i]).id
            != (#[trigger] after[j]).id && !after[i].spec_is_for(
            after[j].user_id,
            after[j].kategori_id,
        ) by {
            let a = if i < at { i } else { i + 1 };
            let b = if j < at { j } else { j + 1 };
            assert(after[i] == before[a] && after[j] == before[b]);
            assert(before[a].id != before[b].id);
            assert(!before[a].spec_is_for(before[b].user_id, before[b].kategori_id));
        }
        assert forall|i: int| 0 <= i < after.len() implies (#[trigger] after[i]).id
            <= db.last_budget_id by {
            let a = if i < at { i } else { i + 1 };
            assert(after[i] == before[a]);
            assert(before[a].id <= db.last_budget_id);
        }
        if db.budgets_valid() {
            assert forall|i: int| 0 <= i < after.len() implies (#[trigger] after[i]).amount > 0
                && after[i].spec_spent_or_zero() >= 0 by {
                let a = if i < at { i } else { i + 1 };
                assert(after[i] == before[a]);
                assert(before[a].amount > 0 && before[a].spec_spent_or_zero() >= 0);
            }
        }
        if db.consistent() {
            assert forall|i: int| 0 <= i < after.len() implies (
            #[trigger] after[i]).spec_spent_or_zero() == spent_total(
                db.transaksi@,
                after[i].user_id,
                after[i].kategori_id,
            ) by {
                let a = if i < at { i } else { i + 1 };
                assert(after[i] == before[a]);
                assert(before[a].spec_spent_or_zero() == spent_total(
                    db.transaksi@,
                    before[a].user_id,
                    before[a].kategori_id,
                ));
            }
        }
    }
    let budget = db.budgets.remove(at);
    Ok(budget)
}

/// Whether the budget `a` may be listed before the budget `b`: it was
/// created no earlier. A budget without a time of creation counts as
/// created last.
pub open spec fn budget_before(a: Budget, b: Budget) -> bool {
    a.created_at is None || (b.created_at is Some && a.created_at->0 >= b.created_at->0)
}

/// Whether the budget `a` may be listed before the budget `b`.
fn is_budget_before(a: &Budget, b: &Budget) -> (r: bool)
    ensures
        r == budget_before(*a, *b),
{
    match a.created_at {
        None => true,
        Some(x) => match b.created_at {
            None => false,
            Some(y) => x >= y,
        },
    }
}

/// Whether a budget is listed for `user_id`: it is a budget of that user
/// and its category exists.
pub open spec fn is_listed(budget: Budget, kategori: Seq<Kategori>, user_id: u128) -> bool {
    budget.user_id == user_id && has_kategori(kategori, budget.kategori_id)
}

/// Whether `order` lists the places of the first `upto` budgets that are
/// listed for `user_id`, each once, the one created last first.
pub open spec fn is_budget_order(
    order: Seq<usize>,
    budgets: Seq<Budget>,
    kategori: Seq<Kategori>,
    user_id: u128,
    upto: int,
) -> bool {
    &&& forall|k: int|
        0 <= k < order.len() ==> (#[trigger] order[k]) < upto && is_listed(
            budgets[order[k] as int],
            kategori,
            user_id,
        )
    &&& forall|a: int, b: int| 0 <= a < b < order.len() ==> order[a] != order[b]
    &&& forall|i: int|
        0 <= i < upto && is_listed(#[trigger] budgets[i], kategori, user_id) ==> order.contains(
            i as usize,
        )
    &&& forall|a: int, b: int|
        0 <= a < b < order.len() ==> budget_before(
            budgets[order[a] as int],
            budgets[order[b] as int],
        )
}

/// Puts the place `index` into the ordered places `order`.
fn insert_budget_place(
    order: &mut Vec<usize>,
    budgets: &Vec<Budget>,
    kategori: Ghost<Seq<Kategori>>,
    user_id: u128,
    index: usize,
)
    requires
        index < budgets@.len(),
        is_listed(budgets@[index as int], kategori@, user_id),
        is_budget_order(old(order)@, budgets@, kategori@, user_id, index as int),
    ensures
        is_budget_order(final(order)@, budgets@, kategori@, user_id, index as int + 1),
        final(order)@.len() == old(order)@.len() + 1,
{
    let ghost before = order@;
    let mut at: usize = 0;
    while at < order.len() && is_budget_before(&budgets[order[at]], &budgets[index])
        invariant
            at <= order@.len(),
            order@ == before,
            index < budgets@.len(),
            is_budget_order(before, budgets@, kategori@, user_id, index as int),
            forall|k: int|
                0 <= k < at ==> budget_before(
                    budgets@[(#[trigger] before[k]) as int],
                    budgets@[index as int],
                ),
        decreases order@.len() - at,
    {
        at += 1;
    }
    order.insert(at, index);
    proof {
        let after = order@;
        let new = budgets@[index as int];
        assert(after =~= before.insert(at as int, index));
        assert forall|k: int| at <= k < before.len() implies budget_before(
            new,
            budgets@[(#[trigger] before[k]) as int],
        ) by {
            assert(!budget_before(budgets@[before[at as int] as int], new));
            if k > at {
                assert(budget_before(
                    budgets@[before[at as int] as int],
                    budgets@[before[k] as int],
                ));
            }
        }
        assert forall|k: int| 0 <= k < after.len() implies (#[trigger] after[k]) < index + 1
            && is_listed(budgets@[after[k] as int], kategori@, user_id) by {
            if k < at {
                assert(after[k] == before[k]);
            } else if k > at {
                assert(after[k] == before[k - 1]);
            }
        }
        assert forall|a: int, b: int| 0 <= a < b < after.len() implies after[a] != after[b]
            && budget_before(budgets@[after[a] as int], budgets@[after[b] as int]) by {
            let pa = if a < at { a } else { a - 1 };
            let pb = if b < at { b } else { b - 1 };
            if a != at {
                assert(after[a] == before[pa]);
            }
            if b != at {
                assert(after[b] == before[pb]);
            }
        }
        assert forall|i: int|
            0 <= i < index + 1 && is_listed(
                #[trigger] budgets@[i],
                kategori@,
                user_id,
            ) implies after.contains(i as usize) by {
            if i == index {
                assert(after[at as int] == index);
            } else {
                assert(before.contains(i as usize));
                let k = choose|k: int| 0 <= k < before.len() && before[k] == i as usize;
                if k < at {
                    assert(after[k] == before[k]);
                } else {
                    assert(after[k + 1] == before[k]);
                }
            }
        }
    }
}

/// Whether `row` shows `budget`: its fields, the user identifier in its
/// text form, the name of its category, and what was spent with a
/// missing value read as zero.
pub open spec fn shows_budget(row: BudgetWithCategory, budget: Budget, kategori: Seq<Kategori>) -> bool {
    &&& row.id == budget.id
    &&& row.user_id@ == hyphenated_uuid(budget.user_id)
    &&& row.kategori_id == budget.kategori_id
    &&& row.kategori_nama@ == spec_kategori_name(kategori, budget.kategori_id)
    &&& row.amount == budget.amount
    &&& row.spent == budget.spec_spent_or_zero()
}

/// The row that shows `budget`.
fn budget_row(budget: &Budget, kategori: &Vec<Kategori>) -> (row: BudgetWithCategory)
    ensures
        shows_budget(row, *budget, kategori@),
{
    BudgetWithCategory {
        id: budget.id,
        user_id: format_user_id(budget.user_id),
        kategori_id: budget.kategori_id,
        kategori_nama: kategori_name(kategori, budget.kategori_id),
        amount: budget.amount,
        spent: budget.spent_or_zero(),
    }
}

/// Whether `rows` list the budgets of `user_id` whose category exists,
/// the one created last first.
pub open spec fn is_budget_list(
    rows: Seq<BudgetWithCategory>,
    budgets: Seq<Budget>,
    kategori: Seq<Kategori>,
    user_id: u128,
) -> bool {
    exists|order: Seq<usize>|
        {
            &&& #[trigger] is_budget_order(order, budgets, kategori, user_id, budgets.len() as int)
            &&& rows.len() == order.len()
            &&& forall|k: int|
                0 <= k < rows.len() ==> shows_budget(
                    #[trigger] rows[k],
                    budgets[order[k] as int],
                    kategori,
                )
        }
}

/// The budgets of `user_id`, each with the name of its category, the one
/// created last first. A budget whose category does not exist is left
/// out.
pub fn get_budgets_for_user(db: &Database, user_id: u128) -> (rows: Vec<BudgetWithCategory>)
    ensures
        is_budget_list(rows@, db.budgets@, db.kategori@, user_id),
{
    let mut order: Vec<usize> = Vec::new();
    let mut i: usize = 0;
    while i < db.budgets.len()
        invariant
            i <= db.budgets@.len(),
            is_budget_order(order@, db.budgets@, db.kategori@, user_id, i as int),
        decreases db.budgets@.len() - i,
    {
        if db.budgets[i].user_id == user_id && db.kategori_exists(db.budgets[i].kategori_id) {
            insert_budget_place(&mut order, &db.budgets, Ghost(db.kategori@), user_id, i);
        } else {
            assert forall|k: int|
                0 <= k < i + 1 && is_listed(
                    #[trigger] db.budgets@[k],
                    db.kategori@,
                    user_id,
                ) implies order@.contains(k as usize) by {}
        }
        i += 1;
    }
    let mut rows: Vec<BudgetWithCategory> = Vec::new();
    let mut k: usize = 0;
    while k < order.len()
        invariant
            k <= order@.len(),
            rows@.len() == k,
            is_budget_order(order@, db.budgets@, db.kategori@, user_id, db.budgets@.len() as int),
            forall|j: int|
                0 <= j < k ==> shows_budget(
                    #[trigger] rows@[j],
                    db.budgets@[order@[j] as int],
                    db.kategori@,
                ),
        decreases order@.len() - k,
    {
        rows.push(budget_row(&db.budgets[order[k]], &db.kategori));
        k += 1;
    }
    rows
}

/// Why showing a budget fails, if it does: or the user has no such budget with a category that
/// exists.
pub open spec fn get_budget_failure(db: Database, user_id: u128, id: i32) -> Option<ApiError> {
    if !owns_budget(db.budgets@, id, user_id) {
        Some(ApiError::BudgetTidakDitemukan)
    } else if !has_kategori(
        db.kategori@,
        db.budgets@[budget_position(db.budgets@, id, user_id)].kategori_id,
    ) {
        Some(ApiError::BudgetTidakDitemukan)
    } else {
        None
    }
}

/// Whether `r` shows the budget `budget_id` of `user_id` with the name of
/// its category, or the failure.
pub open spec fn show_budget_outcome(
    db: Database,
    r: Result<BudgetWithCategory, ApiError>,
    user_id: u128,
    budget_id: i32,
) -> bool {
    match r {
        Ok(row) => get_budget_failure(db, user_id, budget_id) is None && shows_budget(
            row,
            db.budgets@[budget_position(db.budgets@, budget_id, user_id)],
            db.kategori@,
        ),
        Err(e) => get_budget_failure(db, user_id, budget_id) == Some(e),
    }
}

/// The budget `budget_id` of `user_id` with the name of its category.
pub fn get_budget_of_user(db: &Database, user_id: u128, budget_id: i32) -> (r: Result<
    BudgetWithCategory,
    ApiError,
>)
    requires
        budgets_distinct(db.budgets@, db.last_budget_id),
    ensures
        show_budget_outcome(*db, r, user_id, budget_id),
{
    let at = match find_budget(&db.budgets, budget_id, user_id) {
        Some(i) => i,
        None => {
            return Err(ApiError::BudgetTidakDitemukan);
        },
    };
    proof {
        lemma_budget_position(db.budgets@, db.last_budget_id, at as int);
    }
    if !db.kategori_exists(db.budgets[at].kategori_id) {
        return Err(ApiError::BudgetTidakDitemukan);
    }
    Ok(budget_row(&db.budgets[at], &db.kategori))
}

} // verus!
