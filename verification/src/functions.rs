//! The functions that come bundled with the backend.

pub mod lunchmoney;
