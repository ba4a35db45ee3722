//! What the Nordigen aggregator tells of institutions, accounts and
//! transactions, and what the backend makes of it.

use crate::accounts::{Amount, SourceAccountDetails, SourceTransaction};
use crate::models::{date_text, Date, Timestamp};
use crate::utils::text_or_empty;
use sha2::Digest;
use vstd::prelude::*;
use vstd::string::*;

verus! {

/// A bank.
#[derive(Debug)]
pub struct Institution {
    pub id: String,
    pub name: String,
    pub bic: String,
    pub transaction_total_days: String,
    pub countries: Vec<String>,
    pub logo: String,
}

/// A user's consent to have accounts read, and the accounts it covers.
#[derive(Debug)]
pub struct Requisition {
    pub id: String,
    pub status: String,
    pub redirect: String,
    pub accounts: Vec<String>,
    pub link: String,
}

/// How the other side of a transaction names its account.
#[derive(Debug)]
pub enum BankAccount {
    Iban { iban: String },
    Bban { bban: String },
    MaskedPan { masked_pan: String },
    Empty {  },
}

impl BankAccount {
    /// The account as it is shown: its number, whatever kind of number it
    /// is, and nothing where it has none.
    pub fn to_text(&self) -> (text: String)
        ensures
            text@ == match self {
                BankAccount::Iban { iban } => iban@,
                BankAccount::Bban { bban } => bban@,
                BankAccount::MaskedPan { masked_pan } => masked_pan@,
                BankAccount::Empty {  } => Seq::<char>::empty(),
            },
    {
        match self {
            BankAccount::Iban { iban } => iban.clone(),
            BankAccount::Bban { bban } => bban.clone(),
            BankAccount::MaskedPan { masked_pan } => masked_pan.clone(),
            BankAccount::Empty {  } => String::new(),
        }
    }
}

/// A currency exchange that a transaction went through.
#[allow(non_snake_case)]
#[derive(Debug)]
pub struct CurrencyExchange {
    pub exchangeRate: String,
    pub sourceCurrency: String,
    pub targetCurrency: Option<String>,
}

impl CurrencyExchange {
    /// The exchange as it is shown: from which currency to which, and at
    /// what rate.
    pub fn to_text(&self) -> (text: String)
        ensures
            text@ == self.sourceCurrency@ + " -> "@ + text_or_empty(self.targetCurrency) + " "@
                + self.exchangeRate@,
    {
        let mut text = self.sourceCurrency.clone();
        text.append(" -> ");
        match &self.targetCurrency {
            Some(target) => text.append(target.as_str()),
            None => {},
        }
        text.append(" ");
        text.append(self.exchangeRate.as_str());
        text
    }
}

/// A booked transaction as the aggregator tells it.
#[allow(non_snake_case)]
#[derive(Debug)]
pub struct Transaction {
    pub transactionId: Option<String>,
    pub debtorName: Option<String>,
    pub debtorAccount: Option<BankAccount>,
    pub creditorAccount: Option<BankAccount>,
    pub transactionAmount: Option<Amount>,
    pub bankTransactionCode: Option<String>,
    pub bookingDate: Option<Date>,
    pub bookingDateTime: Option<Timestamp>,
    pub valueDate: Option<Date>,
    pub remittanceInformationUnstructured: Option<String>,
    pub proprietaryBankTransactionCode: Option<String>,
    pub creditorName: Option<String>,
    pub currencyExchange: Option<CurrencyExchange>,
}

/// An account with the aggregator.
#[derive(Debug)]
pub struct Account {
    pub id: String,
    pub institution_id: String,
}

/// What the aggregator tells of an account.
#[allow(non_snake_case)]
#[derive(Debug)]
pub struct AccountDetails {
    pub resourceId: String,
    pub displayName: Option<String>,
    pub iban: Option<String>,
    pub maskedPan: Option<String>,
    pub pan: Option<String>,
    pub bic: Option<String>,
    pub bban: Option<String>,
    pub currency: String,
    pub product: Option<String>,
    pub cashAccountType: Option<String>,
    pub ownerName: Option<String>,
    pub status: Option<String>,
    pub details: Option<String>,
}

/// The first of a list of optional texts that is there.
pub open spec fn first_some(texts: Seq<Option<String>>) -> Option<String>
    decreases texts.len(),
{
    if texts.len() == 0 {
        None
    } else if texts.first() is Some {
        texts.first()
    } else {
        first_some(texts.drop_first())
    }
}

/// The number that an account goes by: its IBAN, or else its BBAN, its
/// BIC, its PAN, its masked PAN, in this order; nothing where it has none
/// of them.
pub open spec fn spec_account_number(details: AccountDetails) -> Seq<char> {
    text_or_empty(
        first_some(seq![details.iban, details.bban, details.bic, details.pan, details.maskedPan]),
    )
}

/// The number that an account goes by.
pub fn account_number(details: &AccountDetails) -> (number: String)
    ensures
        number@ == spec_account_number(*details),
{
    proof {
        let all = seq![details.iban, details.bban, details.bic, details.pan, details.maskedPan];
        reveal_with_fuel(first_some, 6);
        assert(all.drop_first() =~= seq![details.bban, details.bic, details.pan, details.maskedPan]);
        assert(all.drop_first().drop_first() =~= seq![details.bic, details.pan, details.maskedPan]);
        assert(all.drop_first().drop_first().drop_first() =~= seq![details.pan, details.maskedPan]);
        assert(all.drop_first().drop_first().drop_first().drop_first() =~= seq![details.maskedPan]);
        assert(all.drop_first().drop_first().drop_first().drop_first().drop_first().len() == 0);
    }
    match (&details.iban, &details.bban, &details.bic, &details.pan, &details.maskedPan) {
        (Some(number), _, _, _, _) => number.clone(),
        (None, Some(number), _, _, _) => number.clone(),
        (None, None, Some(number), _, _) => number.clone(),
        (None, None, None, Some(number), _) => number.clone(),
        (None, None, None, None, Some(number)) => number.clone(),
        (None, None, None, None, None) => String::new(),
    }
}

/// What the backend keeps of an account: the id it is read under, the
/// number it goes by, its currency, owner and description, and the name
/// and the logo of its bank.
pub fn source_details(account: &Account, details: AccountDetails, institution: Institution) -> (kept:
    SourceAccountDetails)
    ensures
        kept.id == account.id,
        kept.number@ == spec_account_number(details),
        kept.currency == details.currency,
        kept.details@ == text_or_empty(details.details),
        kept.owner_name == details.ownerName,
        kept.icon == Some(institution.logo),
        kept.institution_name == institution.name,
{
    let number = account_number(&details);
    let description = match details.details {
        Some(text) => text,
        None => String::new(),
    };
    SourceAccountDetails {
        id: account.id.clone(),
        number,
        currency: details.currency,
        details: description,
        owner_name: details.ownerName,
        icon: Some(institution.logo),
        institution_name: institution.name,
    }
}

/// The parts of an exchange, where a transaction went through one.
pub open spec fn exchange_rate(exchange: Option<CurrencyExchange>) -> Option<String> {
    match exchange {
        Some(e) => Some(e.exchangeRate),
        None => None,
    }
}

/// The currency that was exchanged, where a transaction went through an
/// exchange.
pub open spec fn exchange_source(exchange: Option<CurrencyExchange>) -> Option<String> {
    match exchange {
        Some(e) => Some(e.sourceCurrency),
        None => None,
    }
}

/// The currency that was exchanged into, where that is told.
pub open spec fn exchange_target(exchange: Option<CurrencyExchange>) -> Option<String> {
    match exchange {
        Some(e) => e.targetCurrency,
        None => None,
    }
}

impl Transaction {
    /// Whether the transaction has what the backend cannot do without: an
    /// id, a booking date and an amount.
    pub open spec fn complete(&self) -> bool {
        self.transactionId is Some && self.bookingDate is Some && self.transactionAmount is Some
    }

    /// The transaction as the backend takes it from any source; `None`
    /// where it lacks an id, a booking date or an amount.
    pub fn into_source(self) -> (taken: Option<SourceTransaction>)
        ensures
            taken is Some <==> self.complete(),
            taken matches Some(source) ==> source == (SourceTransaction {
                id: self.transactionId->0,
                creditor_name: self.creditorName,
                debtor_name: self.debtorName,
                remittance_information: self.remittanceInformationUnstructured,
                booking_date: self.bookingDate->0,
                booking_datetime: self.bookingDateTime,
                transaction_amount: self.transactionAmount->0,
                currency_exchange_rate: exchange_rate(self.currencyExchange),
                proprietary_bank_transaction_code: self.proprietaryBankTransactionCode,
                currency_exchange_source_currency: exchange_source(self.currencyExchange),
                currency_exchange_target_currency: exchange_target(self.currencyExchange),
            }),
    {
        let (rate, source, target) = match self.currencyExchange {
            Some(exchange) => (
                Some(exchange.exchangeRate),
                Some(exchange.sourceCurrency),
                exchange.targetCurrency,
            ),
            None => (None, None, None),
        };
        match (self.transactionId, self.bookingDate, self.transactionAmount) {
            (Some(id), Some(booking_date), Some(amount)) => Some(
                SourceTransaction {
                    id,
                    creditor_name: self.creditorName,
                    debtor_name: self.debtorName,
                    remittance_information: self.remittanceInformationUnstructured,
                    booking_date,
                    booking_datetime: self.bookingDateTime,
                    transaction_amount: amount,
                    currency_exchange_rate: rate,
                    proprietary_bank_transaction_code: self.proprietaryBankTransactionCode,
                    currency_exchange_source_currency: source,
                    currency_exchange_target_currency: target,
                },
            ),
            _ => None,
        }
    }
}

/// The SHA-256 digest of a text's UTF-8 bytes, in lower-case hexadecimal,
/// as `sha2` computes it.
pub uninterp spec fn sha256_hex(text: Seq<char>) -> Seq<char>;

/// Feeds the text to `sha2::Sha256` (`new`, `update`, `finalize`) and writes
/// the digest in lower-case hexadecimal.
#[verifier::external_body]
fn digest_hex(text: &str) -> (hex: String)
    ensures
        hex@ == sha256_hex(text@),
{
    let mut hasher = sha2::Sha256::new();
    hasher.update(text);
    format!("{:x}", hasher.finalize())
}

/// How a booking date is written into a fingerprint: as `chrono` writes
/// the day, and as nothing where there is no date or no such day.
pub open spec fn booking_text(date: Option<Date>) -> Seq<char> {
    match date {
        Some(day) => match date_text(day.year, day.month, day.day) {
            Some(text) => text,
            None => Seq::empty(),
        },
        None => Seq::empty(),
    }
}

/// What is hashed for the fingerprint of a transaction: the booking date
/// twice and the remittance information, with colons between, and a fixed
/// tail.
pub open spec fn fingerprint_input(date: Option<Date>, remittance: Option<String>) -> Seq<char> {
    booking_text(date) + ":"@ + booking_text(date) + ":"@ + text_or_empty(remittance)
        + ":[object Object]"@
}

/// The id that stands in for the one that a transaction lacks: a digest of
/// its booking date and its remittance information, so that the same
/// transaction gets the same id whenever it is read.
pub fn fingerprint(date: &Option<Date>, remittance: &Option<String>) -> (id: String)
    ensures
        id@ == sha256_hex(fingerprint_input(*date, *remittance)),
{
    let day = match date {
        Some(day) => match day.to_text() {
            Some(text) => text,
            None => String::new(),
        },
        None => String::new(),
    };
    let mut input = day.clone();
    input.append(":");
    input.append(day.as_str());
    input.append(":");
    match remittance {
        Some(text) => input.append(text.as_str()),
        None => {},
    }
    input.append(":[object Object]");
    digest_hex(input.as_str())
}

/// Whether `filled` is `read` with an id: `read` itself where it has one,
/// and `read` with its fingerprint for an id where it has none.
pub open spec fn is_filled(filled: Transaction, read: Transaction) -> bool {
    if read.transactionId is Some {
        filled == read
    } else {
        &&& filled.transactionId matches Some(id)
        &&& id@ == sha256_hex(
            fingerprint_input(read.bookingDate, read.remittanceInformationUnstructured),
        )
        &&& filled == Transaction { transactionId: filled.transactionId, ..read }
    }
}

/// Gives every transaction that came without an id its fingerprint for
/// one. The others, and the order, stay as they are.
pub fn with_fingerprints(transactions: Vec<Transaction>) -> (filled: Vec<Transaction>)
    ensures
        filled@.len() == transactions@.len(),
        forall|i: int|
            0 <= i < filled@.len() ==> is_filled(#[trigger] filled@[i], transactions@[i]),
{
    let ghost all = transactions@;
    let mut filled: Vec<Transaction> = Vec::new();
    for transaction in it: transactions
        invariant
            it.seq() == all,
            filled@.len() == it.index(),
            forall|i: int| 0 <= i < filled@.len() ==> is_filled(#[trigger] filled@[i], all[i]),
    {
        if transaction.transactionId.is_none() {
            let id = fingerprint(
                &transaction.bookingDate,
                &transaction.remittanceInformationUnstructured,
            );
            let mut with_id = transaction;
            with_id.transactionId = Some(id);
            filled.push(with_id);
        } else {
            filled.push(transaction);
        }
    }
    filled
}

/// The status code of a turned-down request; 0 where none was told.
pub open spec fn code_or_zero(status_code: Option<i64>) -> i64 {
    match status_code {
        Some(code) => code,
        None => 0,
    }
}

/// What is said of a request that the aggregator turned down: its summary,
/// its detail and its status code as `Display` writes it, with `No
/// summary`, nothing and 0 for what it did not tell.
pub fn error_message(summary: Option<String>, detail: Option<String>, status_code: Option<i64>) -> (message:
    String)
    ensures
        exists|code: String|
            {
                &&& #[trigger] to_string_from_display_ensures::<i64>(
                    &code_or_zero(status_code),
                    code,
                )
                &&& message@ == (match summary {
                    Some(text) => text@,
                    None => "No summary"@,
                }) + ". "@ + text_or_empty(detail) + " "@ + code@
            },
{
    let mut message = match summary {
        Some(text) => text,
        None => "No summary".to_owned(),
    };
    message.append(". ");
    match &detail {
        Some(text) => message.append(text.as_str()),
        None => {},
    }
    message.append(" ");
    let number: i64 = match status_code {
        Some(code) => code,
        None => 0,
    };
    let code = number.to_string();
    message.append(code.as_str());
    assert(number == code_or_zero(status_code));
    assert(to_string_from_display_ensures::<i64>(&code_or_zero(status_code), code));
    assert(message@ =~= (match summary {
        Some(text) => text@,
        None => "No summary"@,
    }) + ". "@ + text_or_empty(detail) + " "@ + code@);
    message
}

/// What the aggregator lets a client in with, and for how long.
#[derive(Debug)]
pub struct AccessToken {
    pub access: String,
    pub access_expires: i64,
    pub refresh: String,
    pub refresh_expires: i64,
}

/// A client of the aggregator: its credentials, the token it was let in
/// with, and where the aggregator is.
#[derive(Debug)]
pub struct Nordigen {
    key: String,
    secret: String,
    token: Option<AccessToken>,
    base_url: String,
}

/// Where the aggregator is.
pub open spec fn base_url() -> Seq<char> {
    "https://ob.gocardless.com/api/v2"@
}

impl Nordigen {
    /// The key that the client was made with.
    pub closed spec fn spec_key(&self) -> Seq<char> {
        self.key@
    }

    /// The secret that the client was made with.
    pub closed spec fn spec_secret(&self) -> Seq<char> {
        self.secret@
    }

    /// The token that the client holds.
    pub closed spec fn spec_token(&self) -> Option<AccessToken> {
        self.token
    }

    /// Where the client takes the aggregator to be.
    pub closed spec fn spec_base_url(&self) -> Seq<char> {
        self.base_url@
    }

    /// A client with these credentials and no token yet.
    pub fn with_credentials(key: &str, secret: &str) -> (client: Nordigen)
        ensures
            client.spec_key() == key@,
            client.spec_secret() == secret@,
            client.spec_token() is None,
            client.spec_base_url() == base_url(),
    {
        Nordigen {
            key: key.to_owned(),
            secret: secret.to_owned(),
            token: None,
            base_url: "https://ob.gocardless.com/api/v2".to_owned(),
        }
    }

    /// What the client asks a token with: its key as `secret_id` and its
    /// secret as `secret_key`.
    pub fn credentials(&self) -> (args: Vec<(String, String)>)
        ensures
            crate::json::pairs_view(args@) == seq![
                ("secret_id"@, self.spec_key()),
                ("secret_key"@, self.spec_secret()),
            ],
    {
        let mut args: Vec<(String, String)> = Vec::new();
        args.push(("secret_id".to_owned(), self.key.clone()));
        args.push(("secret_key".to_owned(), self.secret.clone()));
        assert(crate::json::pairs_view(args@) =~= seq![
            ("secret_id"@, self.spec_key()),
            ("secret_key"@, self.spec_secret()),
        ]);
        args
    }

    /// Keeps the token that the aggregator gave.
    pub fn set_token(&mut self, token: AccessToken)
        ensures
            final(self).spec_token() == Some(token),
            final(self).spec_key() == old(self).spec_key(),
            final(self).spec_secret() == old(self).spec_secret(),
            final(self).spec_base_url() == old(self).spec_base_url(),
    {
        self.token = Some(token);
    }

    /// The address of a path with the aggregator.
    pub fn url(&self, path: &str) -> (url: String)
        ensures
            url@ == self.spec_base_url() + path@,
    {
        let mut url = self.base_url.clone();
        url.append(path);
        url
    }

    /// The `Authorization` header that the client sends, once it holds a
    /// token.
    pub fn authorization(&self) -> (header: Option<String>)
        ensures
            match header {
                Some(text) => self.spec_token() matches Some(token) && text@ == "Bearer "@
                    + token.access@,
                None => self.spec_token() is None,
            },
    {
        match &self.token {
            Some(token) => {
                let mut header = "Bearer ".to_owned();
                header.append(token.access.as_str());
                Some(header)
            },
            None => None,
        }
    }
}

} // verus!
