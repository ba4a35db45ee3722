//! The rest of the backend's rules: destinations, the aggregator, batches
//! and what the API lets in.

use std::collections::HashMap;
use ultrafinance::accounts::Amount;
use ultrafinance::endpoints::requisitions::{CreateRequisition, RequisitionTarget};
use ultrafinance::endpoints::transactions::PaginationArgs;
use ultrafinance::functions::lunchmoney::{
    category_named, Category, ConfigError, DraftError, Lunchmoney,
};
use ultrafinance::entries::position;
use ultrafinance::json::lookup;
use ultrafinance::utils::parse_u32;
use ultrafinance::models::function::FunctionError;
use ultrafinance::models::{Date, Function, Timestamp, Transaction};
use ultrafinance::nordigen::{
    account_number, error_message, fingerprint, source_details, with_fingerprints,
    AccessToken, Account, AccountDetails, BankAccount, CurrencyExchange, Institution, Nordigen,
    Transaction as NordigenTransaction,
};
use ultrafinance::server::{bearer_token, AuthError};
use ultrafinance::accounts::SourceTransaction;
use ultrafinance::ultrafinance::{
    description, import_from, key_by_id, new_transaction_for, not_enriched,
    TransactionDestination, IMPORT_OVERLAP_DAYS,
};

fn function(function_type: &str) -> Function {
    Function {
        id: 1,
        name: "Test".into(),
        function_type: function_type.into(),
        source: "".into(),
        user_id: 1,
        created_at: Timestamp::from_timestamp(0, 0),
        updated_at: Timestamp::from_timestamp(0, 0),
    }
}

fn transaction() -> Transaction {
    Transaction {
        id: 1,
        external_id: "ext-1".into(),
        creditor_name: Some("Joe Test".into()),
        debtor_name: Some("Debtor".into()),
        remittance_information: Some("Test transaction".into()),
        booking_date: Date { year: 2024, month: 1, day: 15 },
        booking_datetime: None,
        transaction_amount: "-100.50".into(),
        transaction_amount_currency: "EUR".into(),
        proprietary_bank_transaction_code: None,
        currency_exchange_rate: None,
        currency_exchange_source_currency: None,
        currency_exchange_target_currency: None,
        merchant_id: None,
        account_id: 4,
        user_id: 1,
        created_at: Timestamp::from_timestamp(0, 0),
        updated_at: Timestamp::from_timestamp(0, 0),
    }
}

fn read(id: Option<&str>, date: Option<Date>, remittance: Option<&str>) -> NordigenTransaction {
    NordigenTransaction {
        transactionId: id.map(|s| s.to_string()),
        debtorName: Some("Debtor".into()),
        debtorAccount: Some(BankAccount::Iban { iban: "DE00".into() }),
        creditorAccount: None,
        transactionAmount: Some(Amount { amount: "1.00".into(), currency: "EUR".into() }),
        bankTransactionCode: None,
        bookingDate: date,
        bookingDateTime: Some(Timestamp::from_timestamp(1_705_312_200, 0)),
        valueDate: None,
        remittanceInformationUnstructured: remittance.map(|s| s.to_string()),
        proprietaryBankTransactionCode: Some("PMNT".into()),
        creditorName: Some("Creditor".into()),
        currencyExchange: Some(CurrencyExchange {
            exchangeRate: "1.17".into(),
            sourceCurrency: "GBP".into(),
            targetCurrency: None,
        }),
    }
}

fn details() -> AccountDetails {
    AccountDetails {
        resourceId: "r".into(),
        displayName: None,
        iban: None,
        maskedPan: Some("masked".into()),
        pan: Some("pan".into()),
        bic: Some("bic".into()),
        bban: Some("bban".into()),
        currency: "EUR".into(),
        product: None,
        cashAccountType: None,
        ownerName: Some("Owner".into()),
        status: None,
        details: None,
    }
}

#[test]
fn batch_results_stand_under_their_ids() {
    let by_id: HashMap<u32, Result<&str, &str>> =
        key_by_id(vec![(3, Ok("three")), (1, Err("one failed")), (2, Ok("two"))]);
    assert_eq!(by_id.len(), 3);
    assert_eq!(by_id[&3], Ok("three"));
    assert_eq!(by_id[&1], Err("one failed"));
    assert_eq!(by_id[&2], Ok("two"));
    let twice = key_by_id(vec![(7, "first"), (7, "last")]);
    assert_eq!(twice.len(), 1);
    assert_eq!(twice[&7], "last");
    assert!(key_by_id::<u8>(vec![]).is_empty());
}

#[test]
fn lunchmoney_is_configured_from_a_json_object() {
    let made = Lunchmoney::new(
        "{\"apiKey\": \"k\", \"accountId\": \"41112\", \"openaiApiKey\": \"o\", \"more\": \"x\"}",
    )
    .unwrap();
    assert_eq!(made.config.api_key, "k");
    assert_eq!(made.config.account_id, "41112");
    assert_eq!(made.config.openai_api_key, "o");
    assert_eq!(Lunchmoney::new("[]").unwrap_err(), ConfigError::NotAnObject);
    assert_eq!(Lunchmoney::new("{").unwrap_err(), ConfigError::NotAnObject);
    assert_eq!(Lunchmoney::new("{}").unwrap_err(), ConfigError::NoApiKey);
    assert_eq!(Lunchmoney::new("{\"apiKey\": \"k\"}").unwrap_err(), ConfigError::NoAccountId);
    assert_eq!(
        Lunchmoney::new("{\"apiKey\": \"k\", \"accountId\": \"1\"}").unwrap_err(),
        ConfigError::NoOpenaiApiKey
    );
    assert_eq!(ConfigError::NoApiKey.message(), "missing field `apiKey`");
    assert_eq!(ConfigError::NoAccountId.message(), "missing field `accountId`");
    assert_eq!(ConfigError::NoOpenaiApiKey.message(), "missing field `openaiApiKey`");
    assert_eq!(ConfigError::NotAnObject.message(), "expected a JSON object of strings");
}

#[test]
fn lookup_finds_the_first_entry_of_a_key() {
    let entries = vec![
        ("a".to_string(), "1".to_string()),
        ("b".to_string(), "2".to_string()),
        ("a".to_string(), "3".to_string()),
    ];
    assert_eq!(lookup(&entries, "a").map(|s| s.as_str()), Some("1"));
    assert_eq!(lookup(&entries, "b").map(|s| s.as_str()), Some("2"));
    assert_eq!(lookup(&entries, "c"), None);
    assert_eq!(lookup(&vec![], "a"), None);
}

#[test]
fn categories_are_found_by_their_exact_name() {
    let categories = vec![
        Category { name: "Food".into(), id: 10 },
        Category { name: "Rent".into(), id: 20 },
        Category { name: "Food".into(), id: 30 },
    ];
    assert_eq!(category_named(&categories, "Food"), Some(10));
    assert_eq!(category_named(&categories, "Rent"), Some(20));
    assert_eq!(category_named(&categories, "food"), None);
    assert_eq!(category_named(&vec![], "Food"), None);
}

#[test]
fn draft_takes_over_the_transaction() {
    let config = "{\"apiKey\": \"k\", \"accountId\": \"41112\", \"openaiApiKey\": \"o\"}";
    let lunchmoney = Lunchmoney::new(config).unwrap();
    let draft = lunchmoney.draft(&transaction(), Some(10)).unwrap();
    assert_eq!(draft.asset_id, 41112);
    assert_eq!(draft.date, "2024-01-15");
    assert_eq!(draft.amount, "-100.50");
    assert_eq!(draft.currency, "eur");
    assert_eq!(draft.payee, "Joe Test");
    assert_eq!(draft.notes, "Test transaction");
    assert_eq!(draft.status, "cleared");
    assert_eq!(draft.external_id, "ext-1");
    assert_eq!(draft.category_id, Some(10));

    let by_debtor = Transaction { creditor_name: None, remittance_information: None, ..transaction() };
    let draft = lunchmoney.draft(&by_debtor, None).unwrap();
    assert_eq!(draft.payee, "Debtor");
    assert_eq!(draft.notes, "");
    assert_eq!(draft.category_id, None);
    let by_nobody = Transaction { creditor_name: None, debtor_name: None, ..transaction() };
    assert_eq!(lunchmoney.draft(&by_nobody, None).unwrap().payee, "");
}

#[test]
fn draft_needs_a_numbered_account_and_a_day() {
    let odd = "{\"apiKey\": \"k\", \"accountId\": \"forty\", \"openaiApiKey\": \"o\"}";
    let lunchmoney = Lunchmoney::new(odd).unwrap();
    assert_eq!(lunchmoney.draft(&transaction(), None).unwrap_err(), DraftError::AccountId);
    let no_day = Transaction { booking_date: Date { year: 2023, month: 2, day: 29 }, ..transaction() };
    assert_eq!(lunchmoney.draft(&no_day, None).unwrap_err(), DraftError::AccountId);
    let fine = "{\"apiKey\": \"k\", \"accountId\": \"4\", \"openaiApiKey\": \"o\"}";
    let lunchmoney = Lunchmoney::new(fine).unwrap();
    assert_eq!(lunchmoney.draft(&no_day, None).unwrap_err(), DraftError::BookingDate);
}

#[test]
fn dates_are_written_year_first() {
    assert_eq!(Date { year: 2024, month: 1, day: 5 }.to_text().as_deref(), Some("2024-01-05"));
    assert_eq!(Date { year: 2024, month: 2, day: 29 }.to_text().as_deref(), Some("2024-02-29"));
    assert_eq!(Date { year: 987, month: 12, day: 31 }.to_text().as_deref(), Some("0987-12-31"));
    assert_eq!(Date { year: 2023, month: 2, day: 29 }.to_text(), None);
    assert_eq!(Date { year: 2024, month: 13, day: 1 }.to_text(), None);
    assert_eq!(Date { year: 2024, month: 0, day: 1 }.to_text(), None);
}

#[test]
fn only_lunchmoney_functions_have_a_destination() {
    let params = function("lunchmoney").get_params().unwrap();
    assert_eq!(params.entries().len(), 3);
    match function("user").get_params() {
        Err(error @ FunctionError::NoDestination(_)) => {
            assert_eq!(error.message(), "No destination found for function type user")
        }
        other => panic!("unexpected: {:?}", other),
    }
    let config = "{\"apiKey\": \"k\", \"accountId\": \"1\", \"openaiApiKey\": \"o\"}";
    match function("lunchmoney").get_destination(config).unwrap() {
        TransactionDestination::Lunchmoney(made) => assert_eq!(made.config.api_key, "k"),
    }
    match function("lunchmoney").get_destination("{}") {
        Err(error @ FunctionError::Config(ConfigError::NoApiKey)) => {
            assert_eq!(error.message(), "missing field `apiKey`")
        }
        other => panic!("unexpected: {:?}", other),
    }
    assert!(matches!(
        function("built-in").get_destination(config),
        Err(FunctionError::NoDestination(_))
    ));
}

#[test]
fn api_keys_come_behind_bearer() {
    assert_eq!(bearer_token(Some("Bearer abc123")).unwrap(), "abc123");
    assert_eq!(bearer_token(Some("Bearer a b c")).unwrap(), "a b c");
    assert_eq!(bearer_token(Some("Bearer ")).unwrap(), "");
    assert_eq!(bearer_token(Some("Bearer é")).unwrap(), "é");
    assert_eq!(bearer_token(None).unwrap_err(), AuthError::Unauthorized);
    assert_eq!(bearer_token(Some("Bearer")).unwrap_err(), AuthError::MissingScheme);
    assert_eq!(bearer_token(Some("bearer abc")).unwrap_err(), AuthError::MissingScheme);
    assert_eq!(bearer_token(Some("Basic abc")).unwrap_err(), AuthError::MissingScheme);
    assert_eq!(bearer_token(Some("")).unwrap_err(), AuthError::MissingScheme);
    assert_eq!(bearer_token(Some(" Bearer abc")).unwrap_err(), AuthError::MissingScheme);
    assert_eq!(AuthError::Unauthorized.message(), "unauthorized");
    assert_eq!(AuthError::MissingScheme.message(), "Missing scheme in Authorization header.");
}

#[test]
fn account_number_is_the_first_that_is_there() {
    assert_eq!(account_number(&details()), "bban");
    assert_eq!(account_number(&AccountDetails { iban: Some("iban".into()), ..details() }), "iban");
    assert_eq!(account_number(&AccountDetails { bban: None, ..details() }), "bic");
    assert_eq!(account_number(&AccountDetails { bban: None, bic: None, ..details() }), "pan");
    let masked = AccountDetails { bban: None, bic: None, pan: None, ..details() };
    assert_eq!(account_number(&masked), "masked");
    let none = AccountDetails { bban: None, bic: None, pan: None, maskedPan: None, ..details() };
    assert_eq!(account_number(&none), "");
}

#[test]
fn source_details_join_account_and_bank() {
    let account = Account { id: "acc-1".into(), institution_id: "bank-1".into() };
    let institution = Institution {
        id: "bank-1".into(),
        name: "Test Bank".into(),
        bic: "TESTBIC".into(),
        transaction_total_days: "90".into(),
        countries: vec!["DE".into()],
        logo: "https://bank/logo.png".into(),
    };
    let kept = source_details(&account, details(), institution);
    assert_eq!(kept.id, "acc-1");
    assert_eq!(kept.number, "bban");
    assert_eq!(kept.currency, "EUR");
    assert_eq!(kept.details, "");
    assert_eq!(kept.owner_name.as_deref(), Some("Owner"));
    assert_eq!(kept.icon.as_deref(), Some("https://bank/logo.png"));
    assert_eq!(kept.institution_name, "Test Bank");
}

#[test]
fn fingerprint_is_the_digest_of_date_and_remittance() {
    let day = Some(Date { year: 2024, month: 1, day: 15 });
    assert_eq!(
        fingerprint(&day, &Some("Test transaction".into())),
        "1af99dc214822095d8a7adb97a5610b29b7ff9aae83def56c822237c7eca57df"
    );
    assert_eq!(fingerprint(&None, &None), "08f48d7f125058e0899ff9f3411745fecde9b16b4bdb995de7a249982989b76e");
    assert_eq!(fingerprint(&day, &None), "d0da7549c6c3fd8e589bf778eb9102921a5683a742bfa1ca33b5b4b4da84d7f6");
    assert_eq!(fingerprint(&Some(Date { year: 2024, month: 2, day: 30 }), &None), "08f48d7f125058e0899ff9f3411745fecde9b16b4bdb995de7a249982989b76e");
}

#[test]
fn transactions_without_an_id_get_their_fingerprint() {
    let day = Date { year: 2024, month: 1, day: 15 };
    let filled = with_fingerprints(vec![
        read(Some("given"), Some(day), Some("Test transaction")),
        read(None, Some(day), Some("Test transaction")),
        read(None, None, None),
    ]);
    assert_eq!(filled.len(), 3);
    assert_eq!(filled[0].transactionId.as_deref(), Some("given"));
    assert_eq!(filled[1].transactionId.as_deref(), Some("1af99dc214822095d8a7adb97a5610b29b7ff9aae83def56c822237c7eca57df"));
    assert_eq!(filled[2].transactionId.as_deref(), Some("08f48d7f125058e0899ff9f3411745fecde9b16b4bdb995de7a249982989b76e"));
    assert_eq!(filled[1].creditorName.as_deref(), Some("Creditor"));
    assert_eq!(filled[1].bookingDate, Some(day));
    assert_eq!(filled[2].bookingDate, None);
    assert!(with_fingerprints(vec![]).is_empty());
}

#[test]
fn complete_transactions_are_taken_over() {
    let day = Date { year: 2024, month: 1, day: 15 };
    let source = read(Some("id-1"), Some(day), Some("Info")).into_source().unwrap();
    assert_eq!(source.id, "id-1");
    assert_eq!(source.creditor_name.as_deref(), Some("Creditor"));
    assert_eq!(source.debtor_name.as_deref(), Some("Debtor"));
    assert_eq!(source.remittance_information.as_deref(), Some("Info"));
    assert_eq!(source.booking_date, day);
    assert_eq!(source.booking_datetime, Some(Timestamp { secs: 1_705_312_200, nanos: 0 }));
    assert_eq!(source.transaction_amount.amount, "1.00");
    assert_eq!(source.transaction_amount.currency, "EUR");
    assert_eq!(source.currency_exchange_rate.as_deref(), Some("1.17"));
    assert_eq!(source.proprietary_bank_transaction_code.as_deref(), Some("PMNT"));
    assert_eq!(source.currency_exchange_source_currency.as_deref(), Some("GBP"));
    assert_eq!(source.currency_exchange_target_currency, None);
    assert!(read(None, Some(day), None).into_source().is_none());
    assert!(read(Some("id"), None, None).into_source().is_none());
    let no_amount = NordigenTransaction { transactionAmount: None, ..read(Some("id"), Some(day), None) };
    assert!(no_amount.into_source().is_none());
    let plain = NordigenTransaction { currencyExchange: None, ..read(Some("id"), Some(day), None) };
    let source = plain.into_source().unwrap();
    assert_eq!(source.currency_exchange_rate, None);
    assert_eq!(source.currency_exchange_source_currency, None);
}

#[test]
fn aggregator_errors_say_summary_detail_and_code() {
    assert_eq!(
        error_message(Some("Not found".into()), Some("No such account".into()), Some(404)),
        "Not found. No such account 404"
    );
    assert_eq!(error_message(None, None, None), "No summary.  0");
    assert_eq!(error_message(None, Some("d".into()), Some(-1)), "No summary. d -1");
}

#[test]
fn bank_accounts_and_exchanges_are_shown() {
    assert_eq!(BankAccount::Iban { iban: "DE00".into() }.to_text(), "DE00");
    assert_eq!(BankAccount::Bban { bban: "123".into() }.to_text(), "123");
    assert_eq!(BankAccount::MaskedPan { masked_pan: "**42".into() }.to_text(), "**42");
    assert_eq!(BankAccount::Empty {}.to_text(), "");
    let exchange = CurrencyExchange {
        exchangeRate: "1.17".into(),
        sourceCurrency: "GBP".into(),
        targetCurrency: Some("EUR".into()),
    };
    assert_eq!(exchange.to_text(), "GBP -> EUR 1.17");
    let open = CurrencyExchange { targetCurrency: None, ..exchange };
    assert_eq!(open.to_text(), "GBP ->  1.17");
}

#[test]
fn aggregator_client_builds_its_requests() {
    let mut client = Nordigen::with_credentials("id", "key");
    assert_eq!(client.url("/token/new/"), "https://ob.gocardless.com/api/v2/token/new/");
    assert_eq!(client.authorization(), None);
    assert_eq!(
        client.credentials(),
        vec![
            ("secret_id".to_string(), "id".to_string()),
            ("secret_key".to_string(), "key".to_string())
        ]
    );
    client.set_token(AccessToken {
        access: "tok".into(),
        access_expires: 86400,
        refresh: "ref".into(),
        refresh_expires: 2_592_000,
    });
    assert_eq!(client.authorization().as_deref(), Some("Bearer tok"));
    assert_eq!(client.url("/accounts/x"), "https://ob.gocardless.com/api/v2/accounts/x");
}

#[test]
fn requisitions_go_for_a_bank_first() {
    let both = CreateRequisition { institution_id: Some("bank".into()), account_id: Some(3) };
    match both.target() {
        Some(target @ RequisitionTarget::Institution(_)) => {
            assert_eq!(target.redirect("https://site"), "https://site/accounts/resume")
        }
        other => panic!("unexpected: {:?}", other),
    }
    let account = CreateRequisition { institution_id: None, account_id: Some(37) };
    match account.target() {
        Some(target @ RequisitionTarget::Account(37)) => {
            assert_eq!(target.redirect("https://site"), "https://site/accounts/37/resume")
        }
        other => panic!("unexpected: {:?}", other),
    }
    assert!(CreateRequisition { institution_id: None, account_id: None }.target().is_none());
}

#[test]
fn search_defaults_to_everything() {
    let query = PaginationArgs { page: None, per_page: None, search: None };
    assert_eq!(query.search_text(), "");
    let query = PaginationArgs { page: Some(2), per_page: Some(50), search: Some("rent".into()) };
    assert_eq!(query.search_text(), "rent");
}

#[test]
fn imports_start_a_week_before_the_latest_transaction() {
    assert_eq!(IMPORT_OVERLAP_DAYS, 7);
    assert_eq!(import_from(None), None);
    assert_eq!(
        import_from(Some(Date { year: 2024, month: 3, day: 5 })),
        Some(Date { year: 2024, month: 2, day: 27 })
    );
    assert_eq!(
        import_from(Some(Date { year: 2023, month: 1, day: 3 })),
        Some(Date { year: 2022, month: 12, day: 27 })
    );
    assert_eq!(import_from(Some(Date { year: 2023, month: 2, day: 30 })), None);
    let day = Date { year: 2024, month: 3, day: 1 };
    assert_eq!(day.minus_days(0), Some(day));
    assert_eq!(day.minus_days(1), Some(Date { year: 2024, month: 2, day: 29 }));
    assert_eq!(day.minus_days(366), Some(Date { year: 2023, month: 3, day: 1 }));
    assert_eq!(day.minus_days(u64::MAX), None);
}

#[test]
fn imported_transactions_belong_to_the_account() {
    let source = SourceTransaction {
        id: "src-1".into(),
        creditor_name: None,
        debtor_name: Some("Debtor".into()),
        remittance_information: None,
        booking_date: Date { year: 2024, month: 1, day: 15 },
        booking_datetime: None,
        transaction_amount: Amount { amount: "5".into(), currency: "EUR".into() },
        currency_exchange_rate: None,
        proprietary_bank_transaction_code: None,
        currency_exchange_source_currency: None,
        currency_exchange_target_currency: None,
    };
    let new = new_transaction_for(source, 4, 9);
    assert_eq!(new.external_id, "src-1");
    assert_eq!(new.debtor_name.as_deref(), Some("Debtor"));
    assert_eq!(new.transaction_amount, "5");
    assert_eq!(new.transaction_amount_currency, "EUR");
    assert_eq!((new.account_id, new.user_id), (4, 9));
}

#[test]
fn transactions_that_were_not_enriched_keep_their_order() {
    let all = |ids: &[u32]| -> Vec<Transaction> {
        ids.iter().map(|id| Transaction { id: *id, ..transaction() }).collect()
    };
    let rest = not_enriched(all(&[5, 1, 4, 2, 3]), &vec![2, 5, 9]);
    assert_eq!(rest.iter().map(|t| t.id).collect::<Vec<_>>(), vec![1, 4, 3]);
    let rest = not_enriched(all(&[1, 2]), &vec![]);
    assert_eq!(rest.iter().map(|t| t.id).collect::<Vec<_>>(), vec![1, 2]);
    assert!(not_enriched(all(&[1, 1]), &vec![1]).is_empty());
    assert!(not_enriched(vec![], &vec![1]).is_empty());
}

#[test]
fn descriptions_name_both_sides_and_the_purpose() {
    assert_eq!(description(&transaction()), "Joe Test Debtor Test transaction");
    let bare = Transaction {
        creditor_name: None,
        debtor_name: None,
        remittance_information: None,
        ..transaction()
    };
    assert_eq!(description(&bare), "  ");
    let half = Transaction { debtor_name: None, ..transaction() };
    assert_eq!(description(&half), "Joe Test  Test transaction");
}

#[test]
fn decimal_numbers_are_read_as_std_reads_them() {
    let texts = [
        "0", "7", "41112", "+5", "+0", "007", "00000000000000000000001", "4294967295",
        "4294967296", "+4294967295", "+4294967296", "99999999999999999999", "", "+", "++1",
        "-0", "-1", "1 ", " 1", "1_000", "0x10", "1.0", "1e3", "١٢٣", "１２", "12a", "a12", "+-1",
        "1+", "\u{FEFF}1",
    ];
    for text in texts {
        assert_eq!(parse_u32(text), text.parse::<u32>().ok(), "{:?}", text);
    }
    assert_eq!(parse_u32("41112"), Some(41112));
    assert_eq!(parse_u32("+4294967295"), Some(u32::MAX));
    assert_eq!(parse_u32("4294967296"), None);
    assert_eq!(parse_u32(""), None);
}

#[test]
fn position_is_the_first_place_of_a_key() {
    let entries = vec![
        ("a".to_string(), 1),
        ("b".to_string(), 2),
        ("a".to_string(), 3),
        ("".to_string(), 4),
    ];
    assert_eq!(position(&entries, "a"), Some(0));
    assert_eq!(position(&entries, "b"), Some(1));
    assert_eq!(position(&entries, ""), Some(3));
    assert_eq!(position(&entries, "c"), None);
    assert_eq!(position::<u8>(&vec![], "a"), None);
}
