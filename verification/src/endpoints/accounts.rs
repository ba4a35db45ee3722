//! Requests about accounts.

use vstd::prelude::*;

verus! {

/// A request to store the accounts that a requisition covers.
#[derive(Debug)]
pub struct CreateAccounts {
    pub requisition_id: String,
}

/// A request to link a stored account to a new requisition.
#[derive(Debug)]
pub struct RelinkAccount {
    pub requisition_id: String,
}

} // verus!
