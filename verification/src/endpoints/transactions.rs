//! Requests about transactions.

use vstd::prelude::*;

verus! {

/// The query of a listing of transactions.
#[derive(Debug)]
pub struct PaginationArgs {
    pub page: Option<u64>,
    pub per_page: Option<u64>,
    pub search: Option<String>,
}

impl PaginationArgs {
    /// What is searched for: the query's search text, and everything where
    /// it has none.
    pub fn search_text(&self) -> (text: String)
        ensures
            text@ == match self.search {
                Some(search) => search@,
                None => Seq::<char>::empty(),
            },
    {
        match &self.search {
            Some(search) => search.clone(),
            None => String::new(),
        }
    }
}

} // verus!
