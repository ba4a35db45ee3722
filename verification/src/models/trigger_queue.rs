//! The queue of triggers that have fired and wait to be run.

use crate::models::Timestamp;
use vstd::prelude::*;

verus! {

/// A trigger that has fired: which one, for whom, and the JSON payload
/// that its function is to be run on.
#[derive(Debug)]
pub struct TriggerQueue {
    pub id: u32,
    pub payload: String,
    pub user_id: u32,
    pub trigger_id: u32,
    pub created_at: Timestamp,
    pub updated_at: Timestamp,
}

/// A fired trigger about to be queued.
#[derive(Debug)]
pub struct NewTriggerQueue {
    pub payload: String,
    pub user_id: u32,
    pub trigger_id: u32,
}

} // verus!
