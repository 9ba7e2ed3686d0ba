//! Accounts and the requests that create one or sign in to one.

use vstd::prelude::*;

verus! {

/// An account.
#[derive(Debug)]
pub struct User {
    pub id: u128,
    pub username: String,
    pub email: String,
    pub password_hash: String,
    pub created_at: i64,
    pub updated_at: i64,
}

impl Clone for User {
    fn clone(&self) -> (r: Self)
        ensures
            r == *self,
    {
        User {
            id: self.id,
            username: self.username.clone(),
            email: self.email.clone(),
            password_hash: self.password_hash.clone(),
            created_at: self.created_at,
            updated_at: self.updated_at,
        }
    }
}

/// The fields of a new account.
#[derive(Debug)]
pub struct SignupRequest {
    pub email: String,
    pub password: String,
}

/// The credentials of a sign-in.
#[derive(Debug)]
pub struct SigninRequest {
    pub email: String,
    pub password: String,
}

/// A new password for the account with the given address, written twice.
#[derive(Debug)]
pub struct ForgotPasswordRequest {
    pub email: String,
    pub new_password: String,
    pub confirm_password: String,
}

/// The fields of an account that is stored as given.
#[derive(Debug)]
pub struct CreateUser {
    pub username: String,
    pub email: String,
    pub password: String,
}

/// The fields of an account to change; a field that is `None` keeps its
/// value.
#[derive(Debug)]
pub struct UpdateUser {
    pub username: Option<String>,
    pub email: Option<String>,
}

/// What a client is shown of an account.
#[derive(Debug)]
pub struct UserResponse {
    pub id: u128,
    pub email: String,
    pub created_at: i64,
}

/// The answer to a request on an account.
#[derive(Debug)]
pub struct AuthResponse {
    pub status: String,
    pub message: String,
    pub user: Option<UserResponse>,
}

} // verus!
