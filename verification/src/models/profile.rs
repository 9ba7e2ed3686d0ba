//! The profile of an account and the requests that change it.

use vstd::prelude::*;

verus! {

/// The profile of an account: its name in two parts, and its address.
#[derive(Debug)]
pub struct Profile {
    pub id: u128,
    pub first_name: Option<String>,
    pub last_name: Option<String>,
    pub email: String,
    pub created_at: i64,
    pub updated_at: i64,
}

/// The parts of the name to change.
#[derive(Debug)]
pub struct UpdateProfileRequest {
    pub first_name: Option<String>,
    pub last_name: Option<String>,
}

/// A new address, confirmed by the password.
#[derive(Debug)]
pub struct UpdateEmailRequest {
    pub new_email: String,
    pub password: String,
}

/// A new password, confirmed by the current one.
#[derive(Debug)]
pub struct UpdatePasswordRequest {
    pub current_password: String,
    pub new_password: String,
}

} // verus!
