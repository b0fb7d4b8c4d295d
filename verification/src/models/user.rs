//! User accounts and login sessions.

use vstd::prelude::*;

verus! {

/// A user account as the current store holds it.
#[allow(non_snake_case)]
#[derive(Debug, Clone)]
pub struct User {
    pub id: String,
    pub name: String,
    pub email: String,
    pub passwordHash: String,
    pub role: String,
    pub institution: String,
    pub isActive: bool,
    pub created_at: String,
    pub updated_at: String,
}

/// A logged-in user together with the session token.
#[derive(Debug, Clone)]
pub struct UserSession {
    pub user: User,
    pub token: String,
}

/// The credentials a caller presents to log in.
#[derive(Debug, Clone)]
pub struct LoginRequest {
    pub email: String,
    pub password: String,
}

} // verus!
