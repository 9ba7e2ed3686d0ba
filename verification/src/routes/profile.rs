//! The profile of an account: its name in two parts, its address and its
//! password.

use crate::database::Database;
use crate::error::ApiError;
use crate::models::auth::User;
use crate::models::profile::{
    Profile, UpdateEmailRequest, UpdatePasswordRequest, UpdateProfileRequest,
};
use crate::routes::auth::{byte_len, MIN_PASSWORD_BYTES};
use crate::routes::user::{
    email_used_by_other, find_user, has_user, other_has_email, user_position,
};
use crate::teks::{join_words, joined, split_words, str_trim, trimmed, words};
use vstd::prelude::*;
use vstd::string::StringExecFns;

verus! {

/// The first part of a name: its first word, or nothing where it has no
/// word.
pub open spec fn spec_first_name(username: Seq<char>) -> Seq<char> {
    if words(username).len() > 0 {
        words(username)[0]
    } else {
        Seq::empty()
    }
}

/// The second part of a name: its words after the first, with one space
/// between two.
pub open spec fn spec_last_name(username: Seq<char>) -> Seq<char> {
    let all = words(username);
    if all.len() > 0 {
        joined(all.skip(1))
    } else {
        Seq::empty()
    }
}

/// The profile of the account `user_id`: its name split at the first
/// white space, and its address. Fails with
/// [`ApiError::UserTidakDitemukan`] where there is no such account.
pub fn get_profile(db: &Database, user_id: u128) -> (r: Result<Profile, ApiError>)
    ensures
        match r {
            Ok(p) => {
                let user = db.users@[user_position(db.users@, user_id)];
                &&& has_user(db.users@, user_id)
                &&& p.id == user_id
                &&& p.first_name is Some
                &&& p.first_name->0@ == spec_first_name(user.username@)
                &&& p.last_name is Some
                &&& p.last_name->0@ == spec_last_name(user.username@)
                &&& p.email@ == user.email@
                &&& p.created_at == user.created_at
                &&& p.updated_at == user.updated_at
            },
            Err(e) => !has_user(db.users@, user_id) && e == ApiError::UserTidakDitemukan,
        },
{
    let at = match find_user(&db.users, user_id) {
        Some(i) => i,
        None => {
            return Err(ApiError::UserTidakDitemukan);
        },
    };
    let user = &db.users[at];
    let parts = split_words(user.username.as_str());
    let first = if parts.len() > 0 {
        parts[0].clone()
    } else {
        String::new()
    };
    let last = if parts.len() > 0 {
        proof {
            let all = words(user.username@);
            assert(Seq::new((parts@.len() - 1) as nat, |k: int| parts@[1 + k]@) =~= all.skip(1));
        }
        join_words(&parts, 1)
    } else {
        String::new()
    };
    Ok(
        Profile {
            id: user.id,
            first_name: Some(first),
            last_name: Some(last),
            email: user.email.clone(),
            created_at: user.created_at,
            updated_at: user.updated_at,
        },
    )
}

/// The text of an optional part of a name: nothing where it is not
/// given.
pub open spec fn part_or_empty(part: Option<String>) -> Seq<char> {
    if part is Some {
        part->0@
    } else {
        Seq::empty()
    }
}

/// The name that the two parts make: the first, a space and the second,
/// trimmed.
pub open spec fn spec_full_name(payload: UpdateProfileRequest) -> Seq<char> {
    trimmed(part_or_empty(payload.first_name) + seq![' '] + part_or_empty(payload.last_name))
}

/// The name that the two parts make.
pub fn full_name(payload: &UpdateProfileRequest) -> (r: String)
    ensures
        r@ == spec_full_name(*payload),
{
    let mut name = match &payload.first_name {
        Some(first) => first.clone(),
        None => String::new(),
    };
    proof {
        reveal_strlit(" ");
        assert(" "@ =~= seq![' ']);
    }
    name.append(" ");
    match &payload.last_name {
        Some(last) => {
            name.append(last.as_str());
        },
        None => {
            assert(name@ + Seq::<char>::empty() =~= name@);
        },
    }
    str_trim(name.as_str()).to_owned()
}

/// Whether `r` and the store `after` are what giving the account
/// `user_id` the name `username` makes of the store `before` at the time
/// `now`. The failure is that there is no such account, and then the
/// store is as it was.
pub open spec fn set_username_outcome(
    before: Database,
    after: Database,
    r: Result<User, ApiError>,
    user_id: u128,
    username: Seq<char>,
    now: i64,
) -> bool {
    match r {
        Ok(u) => {
            let at = user_position(before.users@, user_id);
            let old = before.users@[at];
            &&& has_user(before.users@, user_id)
            &&& u.id == user_id
            &&& u.username@ == username
            &&& u.email@ == old.email@
            &&& u.password_hash@ == old.password_hash@
            &&& u.created_at == old.created_at
            &&& u.updated_at == now
            &&& after == (Database { users: after.users, ..before })
            &&& after.users@ == before.users@.update(at, u)
        },
        Err(e) => !has_user(before.users@, user_id) && e == ApiError::UserTidakDitemukan && after
            == before,
    }
}

/// Gives the account `user_id` the name `username`. Returns the account as
/// it is stored.
pub fn set_username(db: &mut Database, user_id: u128, username: String, now: i64) -> (r: Result<
    User,
    ApiError,
>)
    ensures
        set_username_outcome(*old(db), *final(db), r, user_id, username@, now),
{
    let at = match find_user(&db.users, user_id) {
        Some(i) => i,
        None => {
            return Err(ApiError::UserTidakDitemukan);
        },
    };
    let user = User {
        id: user_id,
        username,
        email: db.users[at].email.clone(),
        password_hash: db.users[at].password_hash.clone(),
        created_at: db.users[at].created_at,
        updated_at: now,
    };
    db.users.set(at, user.clone());
    Ok(user)
}

/// Gives the account `user_id` the name that the two parts make. Returns
/// the account as it is stored. Fails with [`ApiError::TidakAdaData`]
/// where neither part is given, and else as [`set_username`] does. On
/// failure the store is left as it was.
pub fn update_profile(db: &mut Database, user_id: u128, payload: &UpdateProfileRequest, now: i64) -> (r:
    Result<User, ApiError>)
    ensures
        if payload.first_name is None && payload.last_name is None {
            r matches Err(e) && e == ApiError::TidakAdaData && *final(db) == *old(db)
        } else {
            set_username_outcome(*old(db), *final(db), r, user_id, spec_full_name(*payload), now)
        },
{
    if payload.first_name.is_none() && payload.last_name.is_none() {
        return Err(ApiError::TidakAdaData);
    }
    set_username(db, user_id, full_name(payload), now)
}

/// Why changing an address fails, if it does: the address or the
/// password is empty, there is no such account, the password is not its
/// password, or another account has the address already.
pub open spec fn update_email_failure(
    db: Database,
    user_id: u128,
    payload: UpdateEmailRequest,
) -> Option<ApiError> {
    if payload.new_email@.len() == 0 || payload.password@.len() == 0 {
        Some(ApiError::EmailPasswordKosong)
    } else if !has_user(db.users@, user_id) {
        Some(ApiError::UserTidakDitemukan)
    } else if db.users@[user_position(db.users@, user_id)].password_hash@ != payload.password@ {
        Some(ApiError::PasswordSalah)
    } else if other_has_email(db.users@, payload.new_email@, user_id) {
        Some(ApiError::EmailSudahDigunakan)
    } else {
        None
    }
}

/// Gives the account `user_id` a new address. Returns the account as it
/// is stored. On failure the store is left as it was.
pub fn update_email(db: &mut Database, user_id: u128, payload: &UpdateEmailRequest, now: i64) -> (r:
    Result<User, ApiError>)
    ensures
        match r {
            Ok(u) => {
                let at = user_position(old(db).users@, user_id);
                let before = old(db).users@[at];
                &&& update_email_failure(*old(db), user_id, *payload) is None
                &&& u.id == user_id
                &&& u.username@ == before.username@
                &&& u.email@ == payload.new_email@
                &&& u.password_hash@ == before.password_hash@
                &&& u.created_at == before.created_at
                &&& u.updated_at == now
                &&& *final(db) == (Database { users: final(db).users, ..*old(db) })
                &&& final(db).users@ == old(db).users@.update(at, u)
            },
            Err(e) => update_email_failure(*old(db), user_id, *payload) == Some(e) && *final(db)
                == *old(db),
        },
{
    if payload.new_email.as_str().is_empty() || payload.password.as_str().is_empty() {
        return Err(ApiError::EmailPasswordKosong);
    }
    let at = match find_user(&db.users, user_id) {
        Some(i) => i,
        None => {
            return Err(ApiError::UserTidakDitemukan);
        },
    };
    if db.users[at].password_hash != payload.password {
        return Err(ApiError::PasswordSalah);
    }
    if email_used_by_other(&db.users, &payload.new_email, user_id) {
        return Err(ApiError::EmailSudahDigunakan);
    }
    let user = User {
        id: user_id,
        username: db.users[at].username.clone(),
        email: payload.new_email.clone(),
        password_hash: db.users[at].password_hash.clone(),
        created_at: db.users[at].created_at,
        updated_at: now,
    };
    db.users.set(at, user.clone());
    Ok(user)
}

/// Why changing a password fails, if it does: the current or the new
/// password is empty, the new one has fewer than six bytes, there is no
/// such account, or the current password is not its password.
pub open spec fn update_password_failure(
    db: Database,
    user_id: u128,
    payload: UpdatePasswordRequest,
) -> Option<ApiError> {
    if payload.current_password@.len() == 0 || payload.new_password@.len() == 0 {
        Some(ApiError::PasswordLamaBaruKosong)
    } else if byte_len(payload.new_password@) < MIN_PASSWORD_BYTES {
        Some(ApiError::PasswordBaruTerlaluPendek)
    } else if !has_user(db.users@, user_id) {
        Some(ApiError::UserTidakDitemukan)
    } else if db.users@[user_position(db.users@, user_id)].password_hash@
        != payload.current_password@ {
        Some(ApiError::PasswordLamaSalah)
    } else {
        None
    }
}

/// Gives the account `user_id` a new password. Returns the account as it
/// is stored. On failure the store is left as it was.
pub fn update_password(
    db: &mut Database,
    user_id: u128,
    payload: &UpdatePasswordRequest,
    now: i64,
) -> (r: Result<User, ApiError>)
    ensures
        match r {
            Ok(u) => {
                let at = user_position(old(db).users@, user_id);
                let before = old(db).users@[at];
                &&& update_password_failure(*old(db), user_id, *payload) is None
                &&& u.id == user_id
                &&& u.username@ == before.username@
                &&& u.email@ == before.email@
                &&& u.password_hash@ == payload.new_password@
                &&& u.created_at == before.created_at
                &&& u.updated_at == now
                &&& *final(db) == (Database { users: final(db).users, ..*old(db) })
                &&& final(db).users@ == old(db).users@.update(at, u)
            },
            Err(e) => update_password_failure(*old(db), user_id, *payload) == Some(e)
                && *final(db) == *old(db),
        },
{
    if payload.current_password.as_str().is_empty() || payload.new_password.as_str().is_empty() {
        return Err(ApiError::PasswordLamaBaruKosong);
    }
    if payload.new_password.as_str().as_bytes().len() < MIN_PASSWORD_BYTES {
        return Err(ApiError::PasswordBaruTerlaluPendek);
    }
    let at = match find_user(&db.users, user_id) {
        Some(i) => i,
        None => {
            return Err(ApiError::UserTidakDitemukan);
        },
    };
    if db.users[at].password_hash != payload.current_password {
        return Err(ApiError::PasswordLamaSalah);
    }
    let user = User {
        id: user_id,
        username: db.users[at].username.clone(),
        email: db.users[at].email.clone(),
        password_hash: payload.new_password.clone(),
        created_at: db.users[at].created_at,
        updated_at: now,
    };
    db.users.set(at, user.clone());
    Ok(user)
}

} // verus!
