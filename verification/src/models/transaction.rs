//! Transactions, stored and about to be stored.

use crate::accounts::SourceTransaction;
use crate::models::{Date, Timestamp};
use vstd::prelude::*;
use vstd::std_specs::convert::FromSpecImpl;

verus! {

/// A stored transaction. Amounts are decimal text, never floats.
#[derive(Debug)]
pub struct Transaction {
    pub id: u32,
    pub external_id: String,
    pub creditor_name: Option<String>,
    pub debtor_name: Option<String>,
    pub remittance_information: Option<String>,
    pub booking_date: Date,
    pub booking_datetime: Option<Timestamp>,
    pub transaction_amount: String,
    pub transaction_amount_currency: String,
    pub proprietary_bank_transaction_code: Option<String>,
    pub currency_exchange_rate: Option<String>,
    pub currency_exchange_source_currency: Option<String>,
    pub currency_exchange_target_currency: Option<String>,
    pub merchant_id: Option<u32>,
    pub account_id: u32,
    pub user_id: u32,
    pub created_at: Timestamp,
    pub updated_at: Timestamp,
}

/// A transaction about to be stored.
#[derive(Debug)]
pub struct NewTransaction {
    pub external_id: String,
    pub creditor_name: Option<String>,
    pub debtor_name: Option<String>,
    pub remittance_information: Option<String>,
    pub booking_date: Date,
    pub booking_datetime: Option<Timestamp>,
    pub transaction_amount: String,
    pub transaction_amount_currency: String,
    pub proprietary_bank_transaction_code: Option<String>,
    pub currency_exchange_rate: Option<String>,
    pub currency_exchange_source_currency: Option<String>,
    pub currency_exchange_target_currency: Option<String>,
    pub account_id: u32,
    pub user_id: u32,
}

/// The transaction that a source's transaction makes: the source's id as
/// the external id, every other field as the source has it, and no account
/// and no user yet.
pub open spec fn new_transaction_of(transaction: SourceTransaction) -> NewTransaction {
    NewTransaction {
        external_id: transaction.id,
        creditor_name: transaction.creditor_name,
        debtor_name: transaction.debtor_name,
        remittance_information: transaction.remittance_information,
        booking_date: transaction.booking_date,
        booking_datetime: transaction.booking_datetime,
        transaction_amount: transaction.transaction_amount.amount,
        transaction_amount_currency: transaction.transaction_amount.currency,
        proprietary_bank_transaction_code: transaction.proprietary_bank_transaction_code,
        currency_exchange_rate: transaction.currency_exchange_rate,
        currency_exchange_source_currency: transaction.currency_exchange_source_currency,
        currency_exchange_target_currency: transaction.currency_exchange_target_currency,
        account_id: 0,
        user_id: 0,
    }
}

impl From<SourceTransaction> for NewTransaction {
    fn from(transaction: SourceTransaction) -> (new: NewTransaction) {
        NewTransaction {
            external_id: transaction.id,
            creditor_name: transaction.creditor_name,
            debtor_name: transaction.debtor_name,
            remittance_information: transaction.remittance_information,
            booking_date: transaction.booking_date,
            booking_datetime: transaction.booking_datetime,
            transaction_amount: transaction.transaction_amount.amount,
            transaction_amount_currency: transaction.transaction_amount.currency,
            proprietary_bank_transaction_code: transaction.proprietary_bank_transaction_code,
            currency_exchange_rate: transaction.currency_exchange_rate,
            currency_exchange_source_currency: transaction.currency_exchange_source_currency,
            currency_exchange_target_currency: transaction.currency_exchange_target_currency,
            account_id: 0,
            user_id: 0,
        }
    }
}

impl FromSpecImpl<SourceTransaction> for NewTransaction {
    open spec fn obeys_from_spec() -> bool {
        true
    }

    open spec fn from_spec(transaction: SourceTransaction) -> NewTransaction {
        new_transaction_of(transaction)
    }
}

} // verus!
