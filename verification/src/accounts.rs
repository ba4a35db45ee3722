//! What a source of bank data hands over: account details and transactions,
//! whichever aggregator they come from.

use crate::models::{Date, Timestamp};
use crate::utils::str_eq;
use vstd::prelude::*;
use vstd::string::*;

verus! {

/// An amount of money: the number as decimal text, never as a float, and
/// the currency it is in.
#[derive(Debug)]
pub struct Amount {
    pub amount: String,
    pub currency: String,
}

impl Amount {
    /// The amount as it is shown: the number, then the currency.
    pub fn to_text(&self) -> (text: String)
        ensures
            text@ == self.amount@ + self.currency@,
    {
        let mut text = self.amount.clone();
        text.append(self.currency.as_str());
        text
    }
}

/// What a source tells of an account.
#[derive(Debug)]
pub struct SourceAccountDetails {
    pub id: String,
    pub number: String,
    pub currency: String,
    pub details: String,
    pub owner_name: Option<String>,
    pub icon: Option<String>,
    pub institution_name: String,
}

/// One booked transaction as a source tells it.
#[derive(Debug)]
pub struct SourceTransaction {
    pub id: String,
    pub creditor_name: Option<String>,
    pub debtor_name: Option<String>,
    pub remittance_information: Option<String>,
    pub booking_date: Date,
    pub booking_datetime: Option<Timestamp>,
    pub transaction_amount: Amount,
    pub currency_exchange_rate: Option<String>,
    pub proprietary_bank_transaction_code: Option<String>,
    pub currency_exchange_source_currency: Option<String>,
    pub currency_exchange_target_currency: Option<String>,
}

/// The aggregators that accounts can be read from.
#[derive(Clone, Copy, Debug, PartialEq, Eq, Structural)]
pub enum SourceKind {
    Nordigen,
}

/// An account's link to its source: which aggregator, and the account's
/// configuration with it, as the JSON text that was stored.
#[derive(Debug)]
pub struct SourceAccount {
    pub kind: SourceKind,
    pub config: String,
}

/// The aggregator that goes by a type name.
pub open spec fn kind_of_type(type_: Seq<char>) -> Option<SourceKind> {
    if type_ == "nordigen"@ {
        Some(SourceKind::Nordigen)
    } else {
        None
    }
}

/// The source of an account of the given type with the given configuration;
/// `None` for a type that no aggregator goes by.
pub fn get_source_account(type_: &str, config: &str) -> (source: Option<SourceAccount>)
    ensures
        match source {
            Some(account) => kind_of_type(type_@) == Some(account.kind) && account.config@
                == config@,
            None => kind_of_type(type_@) is None,
        },
{
    if str_eq(type_, "nordigen") {
        Some(SourceAccount { kind: SourceKind::Nordigen, config: config.to_owned() })
    } else {
        None
    }
}

/// Why an account has no source to read from.
#[derive(Clone, Copy, Debug, PartialEq, Eq, Structural)]
pub enum SourceError {
    /// The account has no configuration.
    NoConfig,
    /// No aggregator goes by the account's type.
    NoSource,
}

impl SourceError {
    /// What the error says of itself.
    pub fn message(&self) -> (text: &'static str)
        ensures
            text@ == match self {
                SourceError::NoConfig => "No config found"@,
                SourceError::NoSource => "No source found"@,
            },
    {
        match self {
            SourceError::NoConfig => "No config found",
            SourceError::NoSource => "No source found",
        }
    }
}

/// The source of an account, from its type and its stored configuration. An
/// account without configuration has none, whatever its type.
pub fn source_of(account_type: &str, config: &Option<String>) -> (source: Result<
    SourceAccount,
    SourceError,
>)
    ensures
        match source {
            Ok(account) => {
                &&& *config matches Some(text)
                &&& account.config@ == text@
                &&& kind_of_type(account_type@) == Some(account.kind)
            },
            Err(SourceError::NoConfig) => *config is None,
            Err(SourceError::NoSource) => *config is Some && kind_of_type(account_type@) is None,
        },
{
    match config {
        None => Err(SourceError::NoConfig),
        Some(text) => match get_source_account(account_type, text.as_str()) {
            Some(account) => Ok(account),
            None => Err(SourceError::NoSource),
        },
    }
}

} // verus!
