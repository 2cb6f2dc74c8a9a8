//! Login and registration requests, and the decisions made on them.
//!
//! The password-hashing routine itself is an external collaborator; the
//! decisions here take its verdict as a plain value.

use vstd::prelude::*;

use crate::user::User;

verus! {

/// A submitted login form.
#[derive(Debug)]
pub struct LoginRequest {
    pub username: String,
    pub password: String,
}

/// A submitted registration form.
#[derive(Debug)]
pub struct RegisterRequest {
    pub username: String,
    pub password: String,
}

/// The key under which a successful login stores its session: the
/// requested username.
pub fn session_key(request: &LoginRequest) -> (k: String)
    ensures
        k@ == request.username@,
{
    request.username.clone()
}

/// Decide a login attempt from the fetched user row and the verdict of the
/// password check: the session is established exactly when the user exists
/// and the password matched; anything else is unauthorized.
pub fn login_decision(found: Option<User>, password_matches: bool) -> (r: Option<User>)
    ensures
        r is Some <==> found is Some && password_matches,
        found matches Some(u) ==> (password_matches ==> (r matches Some(v) && v@ == u@)),
{
    match found {
        Some(u) => if password_matches {
            Some(u)
        } else {
            None
        },
        None => None,
    }
}

/// Build the insert operation a registration submits, from the requested
/// username and the password hash computed by the hashing routine.
pub fn register_insert(username: String, password_hash: String) -> (op: crate::user::Insert)
    ensures
        op.username@ == username@,
        op.password@ == password_hash@,
{
    crate::user::Insert { username, password: password_hash }
}

} // verus!
