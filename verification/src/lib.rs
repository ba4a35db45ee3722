//! The pure core of a personal-finance backend: the records it keeps, the
//! rules that decide when a trigger fires, and the host side of the sandbox
//! that runs user-written functions against a transaction.

pub mod accounts;
pub mod deno;
pub mod endpoints;
pub mod entries;
pub mod functions;
pub mod invoker;
pub mod json;
pub mod models;
pub mod nordigen;
pub mod server;
pub mod ultrafinance;
pub mod utils;
