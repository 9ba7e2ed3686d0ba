//! Budgets as requests name them: the user by the text of an identifier.

use crate::budgets::{
    create_budget_for_user, create_budget_outcome, delete_budget_for_user,
    delete_budget_outcome, get_budget_of_user, get_budgets_for_user, is_budget_list,
    show_budget_outcome, update_budget_for_user, update_budget_outcome,
};
use crate::database::{budgets_distinct, Database};
use crate::error::ApiError;
use crate::models::budget::{
    Budget, BudgetWithCategory, CreateBudgetRequest, UpdateBudgetRequest,
};
use crate::teks::{parse_user_id, parsed_uuid};
use vstd::prelude::*;

verus! {

/// Gives the user a budget for a category, with nothing spent. Fails with
/// [`ApiError::InvalidUserId`] where the user identifier is unreadable,
/// and else as [`create_budget_for_user`] does. On failure the store is
/// left as it was.
pub fn create_budget(db: &mut Database, user_id: &str, payload: &CreateBudgetRequest, now: i64) -> (r:
    Result<Budget, ApiError>)
    requires
        old(db).wf(),
    ensures
        final(db).wf(),
        old(db).budgets_valid() ==> final(db).budgets_valid(),
        match parsed_uuid(user_id@) {
            Some(user) => create_budget_outcome(*old(db), *final(db), r, user, *payload, now),
            None => r == Err::<Budget, ApiError>(ApiError::InvalidUserId) && *final(db) == *old(
                db,
            ),
        },
{
    match parse_user_id(user_id) {
        Ok(user) => create_budget_for_user(db, user, payload, now),
        Err(e) => Err(e),
    }
}

/// Changes the limit of the budget `budget_id` of the user, its running
/// total, or both; a limit must be above zero and a running total must
/// not be below zero. Fails with [`ApiError::InvalidUserId`] where the user
/// identifier is unreadable, and else as [`update_budget_for_user`] does.
/// On failure the store is left as it was.
pub fn update_budget(
    db: &mut Database,
    user_id: &str,
    budget_id: i32,
    payload: &UpdateBudgetRequest,
    now: i64,
) -> (r: Result<Budget, ApiError>)
    requires
        old(db).wf(),
    ensures
        final(db).wf(),
        old(db).budgets_valid() ==> final(db).budgets_valid(),
        match parsed_uuid(user_id@) {
            Some(user) => update_budget_outcome(
                *old(db),
                *final(db),
                r,
                user,
                budget_id,
                *payload,
                now,
            ),
            None => r == Err::<Budget, ApiError>(ApiError::InvalidUserId) && *final(db) == *old(
                db,
            ),
        },
{
    match parse_user_id(user_id) {
        Ok(user) => update_budget_for_user(db, user, budget_id, payload, now),
        Err(e) => Err(e),
    }
}

/// Deletes the budget `budget_id` of the user and returns it. Fails with
/// [`ApiError::InvalidUserId`] where the user identifier is unreadable,
/// and else as [`delete_budget_for_user`] does. On failure the store is
/// left as it was.
pub fn delete_budget(db: &mut Database, user_id: &str, budget_id: i32) -> (r: Result<
    Budget,
    ApiError,
>)
    requires
        old(db).wf(),
    ensures
        final(db).wf(),
        old(db).budgets_valid() ==> final(db).budgets_valid(),
        old(db).consistent() ==> final(db).consistent(),
        match parsed_uuid(user_id@) {
            Some(user) => delete_budget_outcome(*old(db), *final(db), r, user, budget_id),
            None => r == Err::<Budget, ApiError>(ApiError::InvalidUserId) && *final(db) == *old(
                db,
            ),
        },
{
    match parse_user_id(user_id) {
        Ok(user) => delete_budget_for_user(db, user, budget_id),
        Err(e) => Err(e),
    }
}

/// The budgets of the user, each with the name of its category, the one
/// created last first. A budget whose category does not exist is left
/// out. Fails with [`ApiError::InvalidUserId`] where the user identifier
/// is unreadable.
pub fn get_user_budgets(db: &Database, user_id: &str) -> (r: Result<
    Vec<BudgetWithCategory>,
    ApiError,
>)
    ensures
        match r {
            Ok(rows) => parsed_uuid(user_id@) is Some && is_budget_list(
                rows@,
                db.budgets@,
                db.kategori@,
                parsed_uuid(user_id@)->0,
            ),
            Err(e) => parsed_uuid(user_id@) is None && e == ApiError::InvalidUserId,
        },
{
    match parse_user_id(user_id) {
        Ok(user) => Ok(get_budgets_for_user(db, user)),
        Err(e) => Err(e),
    }
}

/// The budget `budget_id` of the user with the name of its category.
/// Fails with [`ApiError::InvalidUserId`] where the user identifier is
/// unreadable, and with [`ApiError::BudgetTidakDitemukan`] where the user
/// has no such budget with a category that exists.
pub fn get_budget_by_id(db: &Database, user_id: &str, budget_id: i32) -> (r: Result<
    BudgetWithCategory,
    ApiError,
>)
    requires
        budgets_distinct(db.budgets@, db.last_budget_id),
    ensures
        match parsed_uuid(user_id@) {
            Some(user) => show_budget_outcome(*db, r, user, budget_id),
            None => r matches Err(e) && e == ApiError::InvalidUserId,
        },
{
    match parse_user_id(user_id) {
        Ok(user) => get_budget_of_user(db, user, budget_id),
        Err(e) => Err(e),
    }
}

} // verus!
