//! Bank accounts about to be stored or edited.

use crate::accounts::SourceAccountDetails;
use vstd::prelude::*;
use vstd::std_specs::convert::FromSpecImpl;

verus! {

/// An account about to be stored.
#[derive(Debug)]
pub struct NewAccount {
    pub name: String,
    pub number: Option<String>,
    pub account_type: String,
    pub nordigen_id: String,
    pub currency: String,
    pub product: Option<String>,
    pub cash_account_type: Option<String>,
    pub details: String,
    pub owner_name: Option<String>,
    pub status: String,
    pub icon: String,
    pub institution_name: String,
    pub config: Option<String>,
    pub user_id: u32,
}

/// An edit of a stored account: what is `None` stays as it is.
#[derive(Debug)]
pub struct UpdateAccount {
    pub id: Option<u32>,
    pub number: Option<String>,
    pub name: Option<String>,
    pub account_type: Option<String>,
    pub currency: Option<String>,
    pub product: Option<String>,
    pub cash_account_type: Option<String>,
    pub details: Option<String>,
    pub owner_name: Option<String>,
    pub status: Option<String>,
    pub icon: Option<String>,
    pub institution_name: Option<String>,
}

/// The icon of a new account: the source's, or none.
pub open spec fn icon_text(icon: Option<String>) -> Seq<char> {
    match icon {
        Some(text) => text@,
        None => Seq::empty(),
    }
}

/// Whether `account` is the account that a source's details make: active,
/// with the source's number, currency, details, owner, icon and institution,
/// and with nothing else filled in.
pub open spec fn is_new_account_of(account: NewAccount, details: SourceAccountDetails) -> bool {
    &&& account.name@ == Seq::<char>::empty()
    &&& account.number == Some(details.number)
    &&& account.account_type@ == Seq::<char>::empty()
    &&& account.nordigen_id@ == Seq::<char>::empty()
    &&& account.currency == details.currency
    &&& account.product is None
    &&& account.cash_account_type is None
    &&& account.details == details.details
    &&& account.owner_name == details.owner_name
    &&& account.status@ == "active"@
    &&& account.icon@ == icon_text(details.icon)
    &&& account.institution_name == details.institution_name
    &&& account.config is None
    &&& account.user_id == 0
}

impl From<SourceAccountDetails> for NewAccount {
    /// The account that a source's details make. Whose it is, how it is
    /// linked and what it is called are left for the caller to fill in.
    fn from(details: SourceAccountDetails) -> (account: NewAccount)
        ensures
            is_new_account_of(account, details),
    {
        let icon = match details.icon {
            Some(text) => text,
            None => String::new(),
        };
        NewAccount {
            name: String::new(),
            number: Some(details.number),
            account_type: String::new(),
            currency: details.currency,
            product: None,
            cash_account_type: None,
            details: details.details,
            owner_name: details.owner_name,
            status: "active".to_owned(),
            icon,
            institution_name: details.institution_name,
            nordigen_id: String::new(),
            user_id: 0,
            config: None,
        }
    }
}

/// What the conversion makes is laid down by the `ensures` of `from`: the
/// texts it fills in are new, so no spec function can hold them.
impl FromSpecImpl<SourceAccountDetails> for NewAccount {
    open spec fn obeys_from_spec() -> bool {
        false
    }

    open spec fn from_spec(details: SourceAccountDetails) -> NewAccount {
        arbitrary()
    }
}

/// The edit that brings a stored account up to a source's details: number,
/// currency, details, owner, icon and institution are set, and nothing
/// else is touched.
pub open spec fn update_of(details: SourceAccountDetails) -> UpdateAccount {
    UpdateAccount {
        id: None,
        name: None,
        number: Some(details.number),
        account_type: None,
        currency: Some(details.currency),
        product: None,
        cash_account_type: None,
        details: Some(details.details),
        owner_name: details.owner_name,
        status: None,
        icon: details.icon,
        institution_name: Some(details.institution_name),
    }
}

impl From<SourceAccountDetails> for UpdateAccount {
    fn from(details: SourceAccountDetails) -> (update: UpdateAccount) {
        UpdateAccount {
            id: None,
            name: None,
            number: Some(details.number),
            account_type: None,
            currency: Some(details.currency),
            product: None,
            cash_account_type: None,
            details: Some(details.details),
            owner_name: details.owner_name,
            status: None,
            icon: details.icon,
            institution_name: Some(details.institution_name),
        }
    }
}

impl FromSpecImpl<SourceAccountDetails> for UpdateAccount {
    open spec fn obeys_from_spec() -> bool {
        true
    }

    open spec fn from_spec(details: SourceAccountDetails) -> UpdateAccount {
        update_of(details)
    }
}

} // verus!
