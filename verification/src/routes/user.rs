//! Accounts as records: looking them up, storing one as given, changing
//! and deleting one.

use crate::database::Database;
use crate::error::ApiError;
use crate::models::auth::{CreateUser, UpdateUser, User};
use vstd::prelude::*;

verus! {

/// Whether an account has the identifier `id`.
pub open spec fn has_user(users: Seq<User>, id: u128) -> bool {
    exists|i: int| 0 <= i < users.len() && (#[trigger] users[i]).id == id
}

/// Whether the account at `i` is the first with the identifier `id`.
pub open spec fn is_first_with_id(users: Seq<User>, id: u128, i: int) -> bool {
    &&& 0 <= i < users.len()
    &&& users[i].id == id
    &&& forall|k: int| 0 <= k < i ==> (#[trigger] users[k]).id != id
}

/// The place of the first account with the identifier `id`.
pub open spec fn user_position(users: Seq<User>, id: u128) -> int {
    choose|i: int| is_first_with_id(users, id, i)
}

/// Whether an account has the address `email`.
pub open spec fn has_email(users: Seq<User>, email: Seq<char>) -> bool {
    exists|i: int| 0 <= i < users.len() && (#[trigger] users[i]).email@ == email
}

/// Whether the account at `i` is the first with the address `email`.
pub open spec fn is_first_with_email(users: Seq<User>, email: Seq<char>, i: int) -> bool {
    &&& 0 <= i < users.len()
    &&& users[i].email@ == email
    &&& forall|k: int| 0 <= k < i ==> (#[trigger] users[k]).email@ != email
}

/// The place of the first account with the address `email`.
pub open spec fn email_position(users: Seq<User>, email: Seq<char>) -> int {
    choose|i: int| is_first_with_email(users, email, i)
}

/// Whether an account other than `id` has the address `email`.
pub open spec fn other_has_email(users: Seq<User>, email: Seq<char>, id: u128) -> bool {
    exists|i: int|
        0 <= i < users.len() && (#[trigger] users[i]).email@ == email && users[i].id != id
}

/// The place of the first account with the identifier `id`, if there is
/// one.
pub fn find_user(users: &Vec<User>, id: u128) -> (r: Option<usize>)
    ensures
        r is Some <==> has_user(users@, id),
        r matches Some(i) ==> i == user_position(users@, id) && is_first_with_id(
            users@,
            id,
            i as int,
        ),
{
    let mut i: usize = 0;
    while i < users.len()
        invariant
            i <= users@.len(),
            forall|k: int| 0 <= k < i ==> (#[trigger] users@[k]).id != id,
        decreases users@.len() - i,
    {
        if users[i].id == id {
            proof {
                assert(is_first_with_id(users@, id, i as int));
                let p = user_position(users@, id);
                if p < i {
                    assert(users@[p].id != id);
                }
            }
            return Some(i);
        }
        i += 1;
    }
    None
}

/// The place of the first account with the address `email`, if there is
/// one.
pub fn find_user_by_email(users: &Vec<User>, email: &String) -> (r: Option<usize>)
    ensures
        r is Some <==> has_email(users@, email@),
        r matches Some(i) ==> i == email_position(users@, email@) && is_first_with_email(
            users@,
            email@,
            i as int,
        ),
{
    let mut i: usize = 0;
    while i < users.len()
        invariant
            i <= users@.len(),
            forall|k: int| 0 <= k < i ==> (#[trigger] users@[k]).email@ != email@,
        decreases users@.len() - i,
    {
        if users[i].email == *email {
            proof {
                assert(is_first_with_email(users@, email@, i as int));
                let p = email_position(users@, email@);
                if p < i {
                    assert(users@[p].email@ != email@);
                }
            }
            return Some(i);
        }
        i += 1;
    }
    None
}

/// Whether an account other than `id` has the address `email`.
pub fn email_used_by_other(users: &Vec<User>, email: &String, id: u128) -> (r: bool)
    ensures
        r == other_has_email(users@, email@, id),
{
    let mut i: usize = 0;
    while i < users.len()
        invariant
            i <= users@.len(),
            forall|k: int|
                0 <= k < i ==> !((#[trigger] users@[k]).email@ == email@ && users@[k].id != id),
        decreases users@.len() - i,
    {
        if users[i].id != id && users[i].email == *email {
            return true;
        }
        i += 1;
    }
    false
}

/// Whether the account `a` may be listed before the account `b`: it was
/// created no earlier.
pub open spec fn user_before(a: User, b: User) -> bool {
    a.created_at >= b.created_at
}

/// Whether the accounts are listed with the one created last first.
pub open spec fn users_sorted(list: Seq<User>) -> bool {
    forall|i: int, j: int| 0 <= i < j < list.len() ==> user_before(list[i], list[j])
}

/// Puts `user` into the ordered list `out` at its place.
fn insert_user(out: &mut Vec<User>, user: User)
    requires
        users_sorted(old(out)@),
    ensures
        users_sorted(final(out)@),
        final(out)@.to_multiset() == old(out)@.to_multiset().insert(user),
{
    let ghost before = out@;
    let mut at: usize = 0;
    while at < out.len() && out[at].created_at >= user.created_at
        invariant
            at <= out@.len(),
            out@ == before,
            forall|k: int| 0 <= k < at ==> user_before(#[trigger] before[k], user),
        decreases out@.len() - at,
    {
        at += 1;
    }
    out.insert(at, user);
    proof {
        let after = out@;
        assert(after =~= before.insert(at as int, user));
        vstd::seq_lib::to_multiset_insert(before, at as int, user);
        assert forall|i: int, j: int| 0 <= i < j < after.len() implies user_before(
            after[i],
            after[j],
        ) by {
            let a = if i < at { i } else { i - 1 };
            let b = if j < at { j } else { j - 1 };
            if i != at {
                assert(after[i] == before[a]);
            }
            if j != at {
                assert(after[j] == before[b]);
            }
            if i == at && b > at {
                assert(user_before(before[at as int], before[b]));
            }
        }
    }
}

/// All accounts, the one created last first.
pub fn get_users(db: &Database) -> (list: Vec<User>)
    ensures
        users_sorted(list@),
        list@.to_multiset() == db.users@.to_multiset(),
{
    let mut list: Vec<User> = Vec::new();
    let mut i: usize = 0;
    proof {
        assert(db.users@.take(0) =~= list@);
    }
    while i < db.users.len()
        invariant
            i <= db.users@.len(),
            users_sorted(list@),
            list@.to_multiset() == db.users@.take(i as int).to_multiset(),
        decreases db.users@.len() - i,
    {
        proof {
            assert(db.users@.take(i as int + 1) =~= db.users@.take(i as int).push(
                db.users@[i as int],
            ));
            vstd::seq_lib::to_multiset_build(db.users@.take(i as int), db.users@[i as int]);
        }
        insert_user(&mut list, db.users[i].clone());
        i += 1;
    }
    proof {
        assert(db.users@.take(i as int) =~= db.users@);
    }
    list
}

/// The account `id`. Fails with [`ApiError::UserTidakDitemukan`] where
/// there is none.
pub fn get_user_by_id(db: &Database, id: u128) -> (r: Result<User, ApiError>)
    ensures
        match r {
            Ok(u) => has_user(db.users@, id) && u == db.users@[user_position(db.users@, id)],
            Err(e) => !has_user(db.users@, id) && e == ApiError::UserTidakDitemukan,
        },
{
    match find_user(&db.users, id) {
        Some(i) => Ok(db.users[i].clone()),
        None => Err(ApiError::UserTidakDitemukan),
    }
}

/// Stores an account as given, under the identifier `id`. Fails with
/// [`ApiError::KesalahanServer`] where an account has the identifier
/// already, and then leaves the store as it was.
pub fn create_user(db: &mut Database, payload: &CreateUser, id: u128, now: i64) -> (r: Result<
    User,
    ApiError,
>)
    ensures
        match r {
            Ok(u) => {
                &&& !has_user(old(db).users@, id)
                &&& u.id == id
                &&& u.username@ == payload.username@
                &&& u.email@ == payload.email@
                &&& u.password_hash@ == payload.password@
                &&& u.created_at == now
                &&& u.updated_at == now
                &&& *final(db) == (Database { users: final(db).users, ..*old(db) })
                &&& final(db).users@ == old(db).users@.push(u)
            },
            Err(e) => has_user(old(db).users@, id) && e == ApiError::KesalahanServer && *final(db)
                == *old(db),
        },
{
    if find_user(&db.users, id).is_some() {
        return Err(ApiError::KesalahanServer);
    }
    let user = User {
        id,
        username: payload.username.clone(),
        email: payload.email.clone(),
        password_hash: payload.password.clone(),
        created_at: now,
        updated_at: now,
    };
    db.users.push(user.clone());
    Ok(user)
}

/// Changes the name of the account `id`, its address, or both; a field
/// that is not given keeps its value. Fails with
/// [`ApiError::UserTidakDitemukan`] where there is no such account, and
/// then leaves the store as it was.
pub fn update_user(db: &mut Database, id: u128, payload: &UpdateUser, now: i64) -> (r: Result<
    User,
    ApiError,
>)
    ensures
        match r {
            Ok(u) => {
                let at = user_position(old(db).users@, id);
                let before = old(db).users@[at];
                &&& has_user(old(db).users@, id)
                &&& u.id == id
                &&& u.username@ == if payload.username is Some {
                    payload.username->0@
                } else {
                    before.username@
                }
                &&& u.email@ == if payload.email is Some {
                    payload.email->0@
                } else {
                    before.email@
                }
                &&& u.password_hash@ == before.password_hash@
                &&& u.created_at == before.created_at
                &&& u.updated_at == now
                &&& *final(db) == (Database { users: final(db).users, ..*old(db) })
                &&& final(db).users@ == old(db).users@.update(at, u)
            },
            Err(e) => !has_user(old(db).users@, id) && e == ApiError::UserTidakDitemukan
                && *final(db) == *old(db),
        },
{
    let at = match find_user(&db.users, id) {
        Some(i) => i,
        None => {
            return Err(ApiError::UserTidakDitemukan);
        },
    };
    let user = User {
        id,
        username: match &payload.username {
            Some(name) => name.clone(),
            None => db.users[at].username.clone(),
        },
        email: match &payload.email {
            Some(email) => email.clone(),
            None => db.users[at].email.clone(),
        },
        password_hash: db.users[at].password_hash.clone(),
        created_at: db.users[at].created_at,
        updated_at: now,
    };
    db.users.set(at, user.clone());
    Ok(user)
}

/// The accounts without those that have the identifier `id`.
pub open spec fn without_user(users: Seq<User>, id: u128) -> Seq<User>
    decreases users.len(),
{
    if users.len() == 0 {
        users
    } else if users.last().id == id {
        without_user(users.drop_last(), id)
    } else {
        without_user(users.drop_last(), id).push(users.last())
    }
}

/// Deletes every account with the identifier `id`. Fails with
/// [`ApiError::UserTidakDitemukan`] where there is none, and then leaves
/// the store as it was.
pub fn delete_user(db: &mut Database, id: u128) -> (r: Result<(), ApiError>)
    ensures
        match r {
            Ok(_) => {
                &&& has_user(old(db).users@, id)
                &&& *final(db) == (Database { users: final(db).users, ..*old(db) })
                &&& final(db).users@ == without_user(old(db).users@, id)
            },
            Err(e) => !has_user(old(db).users@, id) && e == ApiError::UserTidakDitemukan
                && *final(db) == *old(db),
        },
{
    if find_user(&db.users, id).is_none() {
        return Err(ApiError::UserTidakDitemukan);
    }
    let mut kept: Vec<User> = Vec::new();
    let mut i: usize = 0;
    proof {
        assert(db.users@.take(0) =~= kept@);
    }
    while i < db.users.len()
        invariant
            i <= db.users@.len(),
            kept@ == without_user(db.users@.take(i as int), id),
        decreases db.users@.len() - i,
    {
        proof {
            assert(db.users@.take(i as int + 1).drop_last() =~= db.users@.take(i as int));
        }
        if db.users[i].id != id {
            kept.push(db.users[i].clone());
        }
        i += 1;
    }
    proof {
        assert(db.users@.take(i as int) =~= db.users@);
    }
    db.users = kept;
    Ok(())
}

} // verus!
