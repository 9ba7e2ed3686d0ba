//! Accounts: signing up, signing in, and setting a new password for a
//! forgotten one. Passwords are stored as they are given.

use crate::database::Database;
use crate::error::ApiError;
use crate::models::auth::{ForgotPasswordRequest, SigninRequest, SignupRequest, User};
use crate::routes::user::{email_position, find_user, find_user_by_email, has_email, has_user};
use vstd::prelude::*;

verus! {

/// The least number of bytes of a new password.
pub const MIN_PASSWORD_BYTES: usize = 6;

/// The number of bytes of a text.
pub open spec fn byte_len(text: Seq<char>) -> nat {
    vstd::utf8::encode_utf8(text).len()
}

/// Why signing up fails, if it does: the address or the password is
/// empty, an account has the address already, or an account has the
/// identifier already.
pub open spec fn signup_failure(db: Database, payload: SignupRequest, id: u128) -> Option<ApiError> {
    if payload.email@.len() == 0 || payload.password@.len() == 0 {
        Some(ApiError::EmailPasswordKosong)
    } else if has_email(db.users@, payload.email@) {
        Some(ApiError::EmailSudahTerdaftar)
    } else if has_user(db.users@, id) {
        Some(ApiError::GagalMembuatAkun)
    } else {
        None
    }
}

/// Stores a new account under the identifier `id`, with the address as
/// its name. On failure the store is left as it was.
pub fn signup(db: &mut Database, payload: &SignupRequest, id: u128, now: i64) -> (r: Result<
    User,
    ApiError,
>)
    ensures
        match r {
            Ok(u) => {
                &&& signup_failure(*old(db), *payload, id) is None
                &&& u.id == id
                &&& u.username@ == payload.email@
                &&& u.email@ == payload.email@
                &&& u.password_hash@ == payload.password@
                &&& u.created_at == now
                &&& u.updated_at == now
                &&& *final(db) == (Database { users: final(db).users, ..*old(db) })
                &&& final(db).users@ == old(db).users@.push(u)
            },
            Err(e) => signup_failure(*old(db), *payload, id) == Some(e) && *final(db) == *old(db),
        },
{
    if payload.email.as_str().is_empty() || payload.password.as_str().is_empty() {
        return Err(ApiError::EmailPasswordKosong);
    }
    if find_user_by_email(&db.users, &payload.email).is_some() {
        return Err(ApiError::EmailSudahTerdaftar);
    }
    if find_user(&db.users, id).is_some() {
        return Err(ApiError::GagalMembuatAkun);
    }
    let user = User {
        id,
        username: payload.email.clone(),
        email: payload.email.clone(),
        password_hash: payload.password.clone(),
        created_at: now,
        updated_at: now,
    };
    db.users.push(user.clone());
    Ok(user)
}

/// Why signing in fails, if it does: the address or the password is
/// empty, no account has the address, or the password is not that of the
/// first account with the address.
pub open spec fn signin_failure(db: Database, payload: SigninRequest) -> Option<ApiError> {
    if payload.email@.len() == 0 || payload.password@.len() == 0 {
        Some(ApiError::EmailPasswordKosong)
    } else if !has_email(db.users@, payload.email@) {
        Some(ApiError::KredensialSalah)
    } else if db.users@[email_position(db.users@, payload.email@)].password_hash@
        != payload.password@ {
        Some(ApiError::KredensialSalah)
    } else {
        None
    }
}

/// The account that the credentials belong to.
pub fn signin(db: &Database, payload: &SigninRequest) -> (r: Result<User, ApiError>)
    ensures
        match r {
            Ok(u) => signin_failure(*db, *payload) is None && u == db.users@[email_position(
                db.users@,
                payload.email@,
            )],
            Err(e) => signin_failure(*db, *payload) == Some(e),
        },
{
    if payload.email.as_str().is_empty() || payload.password.as_str().is_empty() {
        return Err(ApiError::EmailPasswordKosong);
    }
    let at = match find_user_by_email(&db.users, &payload.email) {
        Some(i) => i,
        None => {
            return Err(ApiError::KredensialSalah);
        },
    };
    if db.users[at].password_hash != payload.password {
        return Err(ApiError::KredensialSalah);
    }
    Ok(db.users[at].clone())
}

/// Why setting a new password fails, if it does: a field is empty, the
/// password and its repetition differ, the password has fewer than six
/// bytes, or no account has the address.
pub open spec fn forgot_password_failure(db: Database, payload: ForgotPasswordRequest) -> Option<
    ApiError,
> {
    if payload.email@.len() == 0 || payload.new_password@.len() == 0
        || payload.confirm_password@.len() == 0 {
        Some(ApiError::EmailPasswordKosong)
    } else if payload.new_password@ != payload.confirm_password@ {
        Some(ApiError::PasswordTidakCocok)
    } else if byte_len(payload.new_password@) < MIN_PASSWORD_BYTES {
        Some(ApiError::PasswordTerlaluPendek)
    } else if !has_email(db.users@, payload.email@) {
        Some(ApiError::EmailTidakDitemukan)
    } else {
        None
    }
}

/// Gives the first account with the address a new password. On failure
/// the store is left as it was.
pub fn forgot_password(db: &mut Database, payload: &ForgotPasswordRequest, now: i64) -> (r: Result<
    User,
    ApiError,
>)
    ensures
        match r {
            Ok(u) => {
                let at = email_position(old(db).users@, payload.email@);
                let before = old(db).users@[at];
                &&& forgot_password_failure(*old(db), *payload) is None
                &&& u.id == before.id
                &&& u.username@ == before.username@
                &&& u.email@ == before.email@
                &&& u.password_hash@ == payload.new_password@
                &&& u.created_at == before.created_at
                &&& u.updated_at == now
                &&& *final(db) == (Database { users: final(db).users, ..*old(db) })
                &&& final(db).users@ == old(db).users@.update(at, u)
            },
            Err(e) => forgot_password_failure(*old(db), *payload) == Some(e) && *final(db) == *old(
                db,
            ),
        },
{
    if payload.email.as_str().is_empty() || payload.new_password.as_str().is_empty()
        || payload.confirm_password.as_str().is_empty() {
        return Err(ApiError::EmailPasswordKosong);
    }
    if payload.new_password != payload.confirm_password {
        return Err(ApiError::PasswordTidakCocok);
    }
    if payload.new_password.as_str().as_bytes().len() < MIN_PASSWORD_BYTES {
        return Err(ApiError::PasswordTerlaluPendek);
    }
    let at = match find_user_by_email(&db.users, &payload.email) {
        Some(i) => i,
        None => {
            return Err(ApiError::EmailTidakDitemukan);
        },
    };
    let user = User {
        id: db.users[at].id,
        username: db.users[at].username.clone(),
        email: db.users[at].email.clone(),
        password_hash: payload.new_password.clone(),
        created_at: db.users[at].created_at,
        updated_at: now,
    };
    db.users.set(at, user.clone());
    Ok(user)
}

} // verus!
