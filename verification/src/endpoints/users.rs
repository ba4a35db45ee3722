//! Requests about users and their sessions.

use vstd::prelude::*;

verus! {

/// A request to log in.
#[derive(Debug)]
pub struct CreateSession {
    pub email: String,
    pub password: String,
}

} // verus!
