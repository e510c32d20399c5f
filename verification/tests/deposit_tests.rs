use bank_core::decimal::Amount;
use bank_core::deposit::{
    capitalize, check_top_up, closing_total, credit_client, days_held, deposit_account_number, early_termination,
    generate_deposit_account_number, opening_debit, pay_out, short_currency, top_up_balances, validate_open_deposit,
    validate_prolong, DepositAccountRecord, DepositError,
};
use bank_core::request::RequestError;

fn amount(text: &str) -> Amount {
    Amount::parse(text).unwrap()
}

fn text(r: Result<Amount, DepositError>) -> String {
    r.unwrap().to_text()
}

#[test]
fn opening_debits_the_client_account() {
    assert_eq!(text(opening_debit("active", "RUB", "RUB", amount("1000.00"), amount("250"))), "750.00");
    assert_eq!(text(opening_debit("active", "RUB", "RUB", amount("250"), amount("250"))), "0");
}

#[test]
fn opening_refusals() {
    assert_eq!(
        opening_debit("blocked", "RUB", "RUB", amount("1000"), amount("1")),
        Err(DepositError::ClientAccountNotActive)
    );
    assert_eq!(opening_debit("active", "USD", "RUB", amount("1000"), amount("1")), Err(DepositError::CurrencyMismatch));
    assert_eq!(
        opening_debit("active", "RUB", "RUB", amount("99.99"), amount("100")),
        Err(DepositError::InsufficientFunds)
    );
}

#[test]
fn top_up_checks() {
    assert_eq!(check_top_up("active", "RUB", "RUB"), Ok(()));
    assert_eq!(check_top_up("closed", "RUB", "RUB"), Err(DepositError::DepositNotActive));
    assert_eq!(check_top_up("active", "RUB", "EUR"), Err(DepositError::CurrencyMismatch));
}

#[test]
fn top_up_moves_the_amount() {
    let (principal, balance) = top_up_balances(amount("10000.00"), amount("500.50"), amount("200.25")).unwrap();
    assert_eq!(principal.to_text(), "10200.25");
    assert_eq!(balance.to_text(), "300.25");
    assert_eq!(
        top_up_balances(amount("10000"), amount("100"), amount("100.01")),
        Err(DepositError::InsufficientFunds)
    );
}

#[test]
fn top_up_keeps_the_total_of_both_accounts() {
    let before_p = amount("1234.56");
    let before_b = amount("789.01");
    let (p, b) = top_up_balances(before_p, before_b, amount("89.01")).unwrap();
    let before = before_p.checked_add(&before_b).unwrap();
    let after = p.checked_add(&b).unwrap();
    assert!(!before.less_than(&after) && !after.less_than(&before));
}

#[test]
fn capitalization_adds_interest_to_principal() {
    assert_eq!(text(capitalize(true, amount("10000.00"), amount("27.40"))), "10027.40");
    assert_eq!(capitalize(false, amount("10000"), amount("1")), Err(DepositError::CapitalizationNotSupported));
    assert_eq!(capitalize(true, amount("10000"), amount("0.00")), Err(DepositError::NothingToCapitalize));
    assert_eq!(capitalize(true, amount("10000"), amount("-1")), Err(DepositError::NothingToCapitalize));
}

#[test]
fn pay_out_adds_interest_to_paid() {
    assert_eq!(text(pay_out(amount("12.34"), amount("100.00"))), "112.34");
    assert_eq!(pay_out(amount("0"), amount("100.00")), Err(DepositError::NothingToPayOut));
    assert_eq!(text(credit_client(amount("5.00"), amount("12.34"))), "17.34");
}

#[test]
fn days_held_counts_whole_days() {
    assert_eq!(days_held(0, 86_400 * 3 + 86_399), 3);
    assert_eq!(days_held(1_000, 1_000), 0);
    assert_eq!(days_held(86_400 * 2, 0), -2);
    assert_eq!(days_held(100, 0), 0);
}

#[test]
fn early_termination_interest() {
    let (interest, total) = early_termination(amount("10000"), amount("0.1"), 100).unwrap();
    assert_eq!(interest.to_text(), "2.74");
    assert_eq!(total.to_text(), "10002.74");
}

#[test]
fn early_termination_same_day_earns_nothing() {
    let (interest, total) = early_termination(amount("10000.00"), amount("3.5"), 0).unwrap();
    assert_eq!(interest.to_text(), "0");
    assert_eq!(total.to_text(), "10000.00");
}

#[test]
fn closing_pays_principal_and_interest() {
    assert_eq!(text(closing_total(amount("10000.00"), amount("55.10"))), "10055.10");
}

#[test]
fn deposit_account_numbers() {
    assert_eq!(deposit_account_number("USD", "savings", 42), "423840000000042");
    assert_eq!(deposit_account_number("EUR", "accumulative", 1_000_000_007), "424978000000007");
    assert_eq!(deposit_account_number("GBP", "other", 5), "423810000000005");
    assert_eq!(short_currency("RUB"), "810");
    let n = generate_deposit_account_number("RUB", "term");
    assert_eq!(n.len(), 15);
    assert!(n.starts_with("423810"));
    assert!(n.chars().all(|c| c.is_ascii_digit()));
}

#[test]
fn open_deposit_request_validation() {
    let (a, rate, term) = validate_open_deposit("d1", "c1", "1000.50", "8.5", "12").unwrap();
    assert_eq!((a.to_text(), rate.to_text(), term), ("1000.50".to_string(), "8.5".to_string(), 12));
    assert_eq!(
        validate_open_deposit("", "c1", "1", "1", "1"),
        Err(RequestError::InvalidArgument("deposit_id and client_id are required"))
    );
    assert_eq!(validate_open_deposit("d", "c", "x", "1", "1"), Err(RequestError::InvalidArgument("invalid amount")));
    assert_eq!(
        validate_open_deposit("d", "c", "0", "1", "1"),
        Err(RequestError::InvalidArgument("amount must be positive"))
    );
    assert_eq!(
        validate_open_deposit("d", "c", "5", "r", "1"),
        Err(RequestError::InvalidArgument("invalid annual_rate"))
    );
    assert_eq!(
        validate_open_deposit("d", "c", "5", "1", "-3"),
        Err(RequestError::InvalidArgument("invalid term_months"))
    );
}

#[test]
fn prolong_request_validation() {
    let (rate, term) = validate_prolong("9.25", "6").unwrap();
    assert_eq!((rate.to_text(), term), ("9.25".to_string(), 6));
    assert_eq!(validate_prolong("x", "6"), Err(RequestError::InvalidArgument("invalid new_annual_rate")));
    assert_eq!(validate_prolong("9", "six"), Err(RequestError::InvalidArgument("invalid new_term_months")));
}

#[test]
fn deposit_error_messages() {
    assert_eq!(DepositError::InsufficientFunds.message(), "Insufficient funds");
    assert_eq!(DepositError::CapitalizationNotSupported.message(), "Deposit doesn't support capitalization");
    assert_eq!(DepositError::NothingToPayOut.message(), "Nothing to pay out");
}

#[test]
fn opened_deposit_record() {
    let r = DepositAccountRecord::opened(
        "da".to_string(),
        "d".to_string(),
        "c".to_string(),
        "RUB".to_string(),
        "423810000000001".to_string(),
        "8.5".to_string(),
        12,
        true,
        "term".to_string(),
        1_700_000_000,
        "2024-11-09".to_string(),
    );
    assert_eq!(r.status, "active");
    assert_eq!(r.principal_balance, "0.00");
    assert_eq!(r.term_months, 12);
    assert_eq!(r.opened_at, 1_700_000_000);
    assert_eq!(r.updated_at, 1_700_000_000);
}
