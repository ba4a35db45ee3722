//! Requests about requisitions.

use vstd::prelude::*;
use vstd::string::*;

verus! {

/// A request for a requisition: for a bank, to link new accounts, or for a
/// stored account, to link it anew.
#[derive(Debug)]
pub struct CreateRequisition {
    pub institution_id: Option<String>,
    pub account_id: Option<u32>,
}

/// What a requisition is asked for.
#[derive(Debug)]
pub enum RequisitionTarget {
    /// New accounts with this bank.
    Institution(String),
    /// This stored account.
    Account(u32),
}

impl CreateRequisition {
    /// What the requisition is asked for: the bank where the request names
    /// one, else the account where it names one, else nothing.
    pub fn target(&self) -> (target: Option<RequisitionTarget>)
        ensures
            target == match (self.institution_id, self.account_id) {
                (Some(institution_id), _) => Some(RequisitionTarget::Institution(institution_id)),
                (None, Some(account_id)) => Some(RequisitionTarget::Account(account_id)),
                (None, None) => None,
            },
    {
        match (&self.institution_id, self.account_id) {
            (Some(institution_id), _) => Some(RequisitionTarget::Institution(institution_id.clone())),
            (None, Some(account_id)) => Some(RequisitionTarget::Account(account_id)),
            (None, None) => None,
        }
    }
}

/// What is said of a request that names neither a bank nor an account.
pub open spec fn no_target_text() -> Seq<char> {
    "No institution_id or account_id provided."@
}

impl RequisitionTarget {
    /// Where the bank sends the user back to, on the site at `site`: the
    /// page that resumes the linking of new accounts, or of the one
    /// account, whose id is written as `Display` writes it.
    pub fn redirect(&self, site: &str) -> (url: String)
        ensures
            match self {
                RequisitionTarget::Institution(_) => url@ == site@ + "/accounts/resume"@,
                RequisitionTarget::Account(account_id) => exists|id: String|
                    {
                        &&& #[trigger] to_string_from_display_ensures::<u32>(account_id, id)
                        &&& url@ == site@ + "/accounts/"@ + id@ + "/resume"@
                    },
            },
    {
        let mut url = site.to_owned();
        match self {
            RequisitionTarget::Institution(_) => {
                url.append("/accounts/resume");
            },
            RequisitionTarget::Account(account_id) => {
                let id = account_id.to_string();
                url.append("/accounts/");
                url.append(id.as_str());
                url.append("/resume");
                assert(to_string_from_display_ensures::<u32>(account_id, id));
                assert(url@ =~= site@ + "/accounts/"@ + id@ + "/resume"@);
            },
        }
        url
    }
}

} // verus!
