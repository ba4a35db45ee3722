//! What the HTTP API takes in, and what it makes of it before anything is
//! stored.

pub mod accounts;
pub mod functions;
pub mod requisitions;
pub mod transactions;
pub mod triggers;
pub mod users;
