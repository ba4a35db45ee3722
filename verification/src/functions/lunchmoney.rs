//! The Lunch Money integration: a bundled function that files each new
//! transaction with a Lunch Money account.

use crate::entries::has_key;
use crate::json::{json_string_map, lookup, read_string_map, spec_lookup};
use crate::models::function::{FunctionParamView, FunctionParams};
use crate::models::transaction::Transaction;
use crate::models::date_text;
use crate::utils::{
    decimal_u32, lowercase, parse_u32, str_eq, text_or_empty, to_lowercase,
};
use vstd::prelude::*;

verus! {

/// The parameters that the integration asks for.
pub open spec fn spec_params() -> Seq<(Seq<char>, FunctionParamView)> {
    seq![
        ("api_key"@, FunctionParamView { name: "Lunchmoney API Key"@, param_type: "string"@ }),
        ("account_id"@, FunctionParamView { name: "Lunchmoney Account Id"@, param_type: "string"@ }),
        ("openai_api_key"@, FunctionParamView { name: "OpenAI API Key"@, param_type: "string"@ }),
    ]
}

/// The parameters that the integration asks for: the key of the Lunch Money
/// API, the account to file under, and the key of the OpenAI API.
pub fn get_params() -> (params: FunctionParams)
    ensures
        params@ == spec_params(),
{
    proof {
        // The three keys differ, so each is declared behind the others.
        reveal_strlit("api_key");
        reveal_strlit("account_id");
        reveal_strlit("openai_api_key");
    }
    let mut params = FunctionParams::new();
    params.declare("api_key", "Lunchmoney API Key", "string");
    assert(params@ =~= spec_params().take(1));
    params.declare("account_id", "Lunchmoney Account Id", "string");
    assert(params@ =~= spec_params().take(2)) by {
        assert(!has_key(spec_params().take(1), "account_id"@)) by {
            assert(spec_params().take(1)[0].0.len() != "account_id"@.len());
        }
    }
    params.declare("openai_api_key", "OpenAI API Key", "string");
    assert(params@ =~= spec_params()) by {
        assert(!has_key(spec_params().take(2), "openai_api_key"@)) by {
            assert(spec_params().take(2)[0].0.len() != "openai_api_key"@.len());
            assert(spec_params().take(2)[1].0.len() != "openai_api_key"@.len());
        }
    }
    params
}

/// The text of the bundled script.
pub open spec fn spec_source() -> Seq<char> {
    SOURCE@
}

/// The bundled script: TypeScript that declares its parameters and, called
/// with them and a transaction, files the transaction with Lunch Money.
pub fn source() -> (text: &'static str)
    ensures
        text@ == spec_source(),
{
    SOURCE
}

pub const SOURCE: &'static str = "\
type Params = {
  apiKey: string;
  accountId: string;
  openaiApiKey?: string;
};

type Transaction = {
  id: number;
  externalId?: string;
  bookingDate: string;
  transactionAmount: string;
  transactionAmountCurrency: string;
  creditorName?: string | null;
  debtorName?: string | null;
  remittanceInformation?: string | null;
};

type Category = { id: number; name: string };

export const params = {
  apiKey: { name: \"Lunchmoney API Key\", type: \"string\" },
  accountId: { name: \"Lunchmoney Account Id\", type: \"string\" },
  openaiApiKey: { name: \"OpenAI API Key\", type: \"string\" },
};

const LUNCHMONEY = \"https://dev.lunchmoney.app/v1\";
const OPENAI = \"https://api.openai.com/v1/chat/completions\";

async function categories(apiKey: string): Promise<Category[]> {
  const response = await fetch(LUNCHMONEY + \"/categories\", {
    headers: { Authorization: \"Bearer \" + apiKey },
  });
  const body = await response.json();
  return body.categories ?? [];
}

async function categorize(
  openaiApiKey: string | undefined,
  known: Category[],
  transaction: Transaction,
): Promise<number | null> {
  if (!openaiApiKey || known.length === 0) {
    return null;
  }
  const response = await fetch(OPENAI, {
    method: \"POST\",
    headers: {
      Authorization: \"Bearer \" + openaiApiKey,
      \"Content-Type\": \"application/json\",
    },
    body: JSON.stringify({
      model: \"gpt-4o\",
      max_tokens: 512,
      messages: [
        {
          role: \"system\",
          content:
            \"You are an assistant to categorize financial transactions. \" +
            \"You only respond with the exact category name and nothing else. \" +
            \"The available categories are:\\n\\n\" +
            known.map((category) => category.name).join(\"\\n\"),
        },
        { role: \"user\", content: JSON.stringify(transaction) },
      ],
    }),
  });
  const body = await response.json();
  const answer = body.choices?.[0]?.message?.content;
  const match = known.find((category) => category.name === answer);
  return match ? match.id : null;
}

export default async function (params: Params, transaction: Transaction) {
  const known = await categories(params.apiKey);
  const categoryId = await categorize(params.openaiApiKey, known, transaction);
  const draft = {
    asset_id: Number(params.accountId),
    date: transaction.bookingDate,
    amount: transaction.transactionAmount,
    currency: transaction.transactionAmountCurrency.toLowerCase(),
    payee: transaction.creditorName ?? transaction.debtorName ?? \"\",
    notes: transaction.remittanceInformation ?? \"\",
    status: \"cleared\",
    external_id: transaction.externalId ?? String(transaction.id),
    category_id: categoryId,
  };
  const response = await fetch(LUNCHMONEY + \"/transactions\", {
    method: \"POST\",
    headers: {
      Authorization: \"Bearer \" + params.apiKey,
      \"Content-Type\": \"application/json\",
    },
    body: JSON.stringify({
      transactions: [draft],
      apply_rules: true,
      check_for_recurring: true,
      debit_as_negative: true,
      skip_balance_update: false,
    }),
  });
  const inserted = await response.json();
  if (inserted.error) {
    throw new Error(
      \"Lunchmoney transactions failed to insert: \" + [].concat(inserted.error).join(\", \"),
    );
  }
  return inserted;
}
";

/// What the integration is configured with.
#[derive(Debug)]
pub struct Config {
    /// The key of the Lunch Money API.
    pub api_key: String,
    /// The Lunch Money asset that transactions are filed under.
    pub account_id: String,
    /// The key of the OpenAI API.
    pub openai_api_key: String,
}

/// The integration, configured.
#[derive(Debug)]
pub struct Lunchmoney {
    pub config: Config,
}

/// Why a configuration cannot be used.
#[derive(Clone, Copy, Debug, PartialEq, Eq, Structural)]
pub enum ConfigError {
    /// The text is no JSON object of strings.
    NotAnObject,
    /// The object has no `apiKey`.
    NoApiKey,
    /// The object has no `accountId`.
    NoAccountId,
    /// The object has no `openaiApiKey`.
    NoOpenaiApiKey,
}

impl ConfigError {
    /// What the error says of itself.
    pub fn message(&self) -> (text: &'static str)
        ensures
            text@ == match self {
                ConfigError::NotAnObject => "expected a JSON object of strings"@,
                ConfigError::NoApiKey => "missing field `apiKey`"@,
                ConfigError::NoAccountId => "missing field `accountId`"@,
                ConfigError::NoOpenaiApiKey => "missing field `openaiApiKey`"@,
            },
    {
        match self {
            ConfigError::NotAnObject => "expected a JSON object of strings",
            ConfigError::NoApiKey => "missing field `apiKey`",
            ConfigError::NoAccountId => "missing field `accountId`",
            ConfigError::NoOpenaiApiKey => "missing field `openaiApiKey`",
        }
    }
}

/// What a configuration text comes to: the three fields of the JSON object
/// it holds, as `(apiKey, accountId, openaiApiKey)`, or what is wrong with
/// it, the first missing field first.
pub open spec fn spec_config(text: Seq<char>) -> Result<
    (Seq<char>, Seq<char>, Seq<char>),
    ConfigError,
> {
    match json_string_map(text) {
        None => Err(ConfigError::NotAnObject),
        Some(entries) => match spec_lookup(entries, "apiKey"@) {
            None => Err(ConfigError::NoApiKey),
            Some(api_key) => match spec_lookup(entries, "accountId"@) {
                None => Err(ConfigError::NoAccountId),
                Some(account_id) => match spec_lookup(entries, "openaiApiKey"@) {
                    None => Err(ConfigError::NoOpenaiApiKey),
                    Some(openai_api_key) => Ok((api_key, account_id, openai_api_key)),
                },
            },
        },
    }
}

impl Lunchmoney {
    /// The integration with the configuration that a JSON text holds.
    pub fn new(config: &str) -> (made: Result<Lunchmoney, ConfigError>)
        ensures
            match made {
                Ok(lunchmoney) => spec_config(config@) == Ok::<
                    (Seq<char>, Seq<char>, Seq<char>),
                    ConfigError,
                >(
                    (
                        lunchmoney.config.api_key@,
                        lunchmoney.config.account_id@,
                        lunchmoney.config.openai_api_key@,
                    ),
                ),
                Err(error) => spec_config(config@) == Err::<
                    (Seq<char>, Seq<char>, Seq<char>),
                    ConfigError,
                >(error),
            },
    {
        let entries = match read_string_map(config) {
            Some(entries) => entries,
            None => { return Err(ConfigError::NotAnObject); },
        };
        let api_key = match lookup(&entries, "apiKey") {
            Some(text) => text.clone(),
            None => { return Err(ConfigError::NoApiKey); },
        };
        let account_id = match lookup(&entries, "accountId") {
            Some(text) => text.clone(),
            None => { return Err(ConfigError::NoAccountId); },
        };
        let openai_api_key = match lookup(&entries, "openaiApiKey") {
            Some(text) => text.clone(),
            None => { return Err(ConfigError::NoOpenaiApiKey); },
        };
        Ok(Lunchmoney { config: Config { api_key, account_id, openai_api_key } })
    }
}

/// A category of Lunch Money.
#[derive(Debug)]
pub struct Category {
    pub name: String,
    pub id: u32,
}

/// The id of the first category of a name, where there is one.
pub open spec fn spec_category_named(categories: Seq<Category>, name: Seq<char>) -> Option<u32>
    decreases categories.len(),
{
    if categories.len() == 0 {
        None
    } else if categories.first().name@ == name {
        Some(categories.first().id)
    } else {
        spec_category_named(categories.drop_first(), name)
    }
}

/// The id of the first category that goes by `name`, where there is one.
pub fn category_named(categories: &Vec<Category>, name: &str) -> (id: Option<u32>)
    ensures
        id == spec_category_named(categories@, name@),
{
    let ghost all = categories@;
    let mut i: usize = 0;
    assert(all.skip(0) =~= all);
    while i < categories.len()
        invariant
            i <= categories.len(),
            all == categories@,
            spec_category_named(all, name@) == spec_category_named(all.skip(i as int), name@),
        decreases categories.len() - i,
    {
        let ghost rest = all.skip(i as int);
        assert(rest.first() == all[i as int]);
        assert(rest.drop_first() =~= all.skip(i + 1));
        if str_eq(categories[i].name.as_str(), name) {
            return Some(categories[i].id);
        }
        i = i + 1;
    }
    assert(all.skip(i as int).len() == 0);
    None
}

/// A transaction as Lunch Money takes it.
#[derive(Debug)]
pub struct DraftTransaction {
    pub asset_id: u32,
    pub date: String,
    pub amount: String,
    pub currency: String,
    pub payee: String,
    pub notes: String,
    pub status: String,
    pub external_id: String,
    pub category_id: Option<u32>,
}

/// Why a transaction cannot be drafted.
#[derive(Clone, Copy, Debug, PartialEq, Eq, Structural)]
pub enum DraftError {
    /// The configured account id is no number.
    AccountId,
    /// The booking date is no day of the calendar.
    BookingDate,
}

/// Who a transaction was with: the creditor where one is named, else the
/// debtor, else nobody.
pub open spec fn spec_payee(transaction: Transaction) -> Seq<char> {
    match transaction.creditor_name {
        Some(name) => name@,
        None => text_or_empty(transaction.debtor_name),
    }
}

/// Whether `draft` is the draft of a transaction for the asset that
/// `account_id` names: cleared, on the booking date, over the amount as it
/// is, in the currency in lower case, with the payee and the remittance
/// information as notes, and in the category given.
pub open spec fn is_draft_of(
    draft: DraftTransaction,
    account_id: Seq<char>,
    transaction: Transaction,
    category_id: Option<u32>,
) -> bool {
    &&& decimal_u32(account_id) == Some(draft.asset_id)
    &&& date_text(
        transaction.booking_date.year,
        transaction.booking_date.month,
        transaction.booking_date.day,
    ) == Some(draft.date@)
    &&& draft.amount@ == transaction.transaction_amount@
    &&& draft.currency@ == lowercase(transaction.transaction_amount_currency@)
    &&& draft.payee@ == spec_payee(transaction)
    &&& draft.notes@ == text_or_empty(transaction.remittance_information)
    &&& draft.status@ == "cleared"@
    &&& draft.external_id@ == transaction.external_id@
    &&& draft.category_id == category_id
}

impl Lunchmoney {
    /// Drafts a transaction for Lunch Money, filed under the configured
    /// account and the given category. Fails where the configured account
    /// id is no number, and then where the booking date is no day.
    pub fn draft(&self, transaction: &Transaction, category_id: Option<u32>) -> (drafted: Result<
        DraftTransaction,
        DraftError,
    >)
        ensures
            match drafted {
                Ok(draft) => is_draft_of(draft, self.config.account_id@, *transaction, category_id),
                Err(DraftError::AccountId) => decimal_u32(self.config.account_id@) is None,
                Err(DraftError::BookingDate) => decimal_u32(self.config.account_id@) is Some
                    && date_text(
                    transaction.booking_date.year,
                    transaction.booking_date.month,
                    transaction.booking_date.day,
                ) is None,
            },
    {
        let asset_id = match parse_u32(self.config.account_id.as_str()) {
            Some(id) => id,
            None => { return Err(DraftError::AccountId); },
        };
        let date = match transaction.booking_date.to_text() {
            Some(text) => text,
            None => { return Err(DraftError::BookingDate); },
        };
        let payee = match &transaction.creditor_name {
            Some(name) => name.clone(),
            None => match &transaction.debtor_name {
                Some(name) => name.clone(),
                None => String::new(),
            },
        };
        let notes = match &transaction.remittance_information {
            Some(text) => text.clone(),
            None => String::new(),
        };
        Ok(
            DraftTransaction {
                asset_id,
                date,
                amount: transaction.transaction_amount.clone(),
                currency: to_lowercase(transaction.transaction_amount_currency.as_str()),
                payee,
                notes,
                status: "cleared".to_owned(),
                external_id: transaction.external_id.clone(),
                category_id,
            },
        )
    }
}

} // verus!
