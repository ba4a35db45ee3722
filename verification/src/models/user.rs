//! Users about to be stored or edited.

use vstd::prelude::*;

verus! {

/// A user about to be stored.
#[derive(Debug)]
pub struct NewUser {
    pub name: String,
    pub email: String,
}

/// An edit of a stored user.
#[derive(Debug)]
pub struct UpdateUser {
    pub id: Option<u32>,
    pub name: Option<String>,
    pub email: Option<String>,
    pub password: Option<String>,
}

} // verus!
