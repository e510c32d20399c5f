use bank_core::decimal::Amount;
use bank_core::interest::daily_accrual;
use bank_core::loan::{
    check_client_for_disbursement, check_loan_for_disbursement, disbursement_balances, generate_loan_account_number,
    loan_account_number, overdue_balances, provision_amount, provision_coefficient, repayment_balances,
    repayment_debit, repayment_total, validate_open_loan, validate_overdue, validate_repayment, LoanAccountRecord,
    LoanError,
};
use bank_core::request::RequestError;

fn amount(text: &str) -> Amount {
    Amount::parse(text).unwrap()
}

#[test]
fn disbursement_checks() {
    assert_eq!(check_loan_for_disbursement("active", "RUB", "RUB"), Ok(()));
    assert_eq!(check_loan_for_disbursement("closed", "RUB", "RUB"), Err(LoanError::LoanAccountClosed));
    assert_eq!(check_loan_for_disbursement("overdue", "RUB", "USD"), Err(LoanError::LoanCurrencyMismatch));
    assert_eq!(check_client_for_disbursement("active", "RUB", "RUB"), Ok(()));
    assert_eq!(check_client_for_disbursement("frozen", "RUB", "RUB"), Err(LoanError::ClientAccountNotActive));
    assert_eq!(check_client_for_disbursement("active", "EUR", "RUB"), Err(LoanError::ClientCurrencyMismatch));
}

#[test]
fn disbursement_raises_principal_and_balance() {
    let (p, b) = disbursement_balances(amount("0.00"), amount("10.00"), amount("50000")).unwrap();
    assert_eq!(p.to_text(), "50000");
    assert_eq!(b.to_text(), "50010.00");
}

#[test]
fn repayment_lowers_each_part() {
    let (p, i, n) = repayment_balances(
        "RUB",
        "RUB",
        amount("50000.00"),
        amount("120.50"),
        amount("10"),
        amount("1000"),
        amount("120.50"),
        amount("0"),
    )
    .unwrap();
    assert_eq!((p.to_text(), i.to_text(), n.to_text()), ("49000.00".to_string(), "0.00".to_string(), "10".to_string()));
}

#[test]
fn repayment_of_the_whole_principal_leaves_zero() {
    let (p, _, _) = repayment_balances(
        "RUB",
        "RUB",
        amount("1000.00"),
        amount("0"),
        amount("0"),
        amount("1000.00"),
        amount("0"),
        amount("0"),
    )
    .unwrap();
    assert_eq!(p.to_text(), "0.00");
}

#[test]
fn repayment_refusals() {
    let z = amount("0");
    assert_eq!(
        repayment_balances("RUB", "USD", amount("1"), z, z, z, z, z),
        Err(LoanError::CurrencyMismatch)
    );
    assert_eq!(
        repayment_balances("RUB", "RUB", amount("100"), z, z, amount("100.01"), z, z),
        Err(LoanError::Overpayment)
    );
}

#[test]
fn repayment_total_and_debit() {
    let total = repayment_total(amount("1000"), amount("20.50"), amount("1.5")).unwrap();
    assert_eq!(total.to_text(), "1022.00");
    assert_eq!(repayment_debit(amount("2000.00"), total).unwrap().to_text(), "978.00");
    assert_eq!(repayment_debit(amount("10"), amount("20")).unwrap().to_text(), "-10");
}

#[test]
fn overdue_amounts_grow() {
    let (p, i) = overdue_balances(amount("100.00"), amount("5"), amount("50"), amount("2.25")).unwrap();
    assert_eq!((p.to_text(), i.to_text()), ("150.00".to_string(), "7.25".to_string()));
}

#[test]
fn provision_by_category() {
    assert_eq!(provision_coefficient("standard").to_text(), "0.0");
    assert_eq!(provision_coefficient("substandard").to_text(), "0.10");
    assert_eq!(provision_coefficient("doubtful").to_text(), "0.50");
    assert_eq!(provision_coefficient("bad").to_text(), "1.0");
    assert_eq!(provision_coefficient("unknown").to_text(), "0.0");
    let z = amount("0");
    assert_eq!(provision_amount(amount("100000"), z, z, "substandard").unwrap().to_text(), "10000.00");
    assert_eq!(provision_amount(amount("1000"), amount("500"), amount("3.33"), "doubtful").unwrap().to_text(), "751.66");
    assert_eq!(provision_amount(amount("100000"), z, z, "bad").unwrap().to_text(), "100000.0");
}

#[test]
fn standard_loans_need_no_provision() {
    let p = provision_amount(amount("123456.78"), amount("1000"), amount("12.5"), "standard").unwrap();
    assert!(p.is_zero());
    assert_eq!(p.to_text(), "0");
}

#[test]
fn daily_interest_on_a_loan() {
    let (accrued, total) = daily_accrual(amount("100000"), amount("0"), amount("10")).unwrap();
    assert_eq!(accrued.to_text(), "27.40");
    assert_eq!(total.to_text(), "27.40");
    let (accrued, total) = daily_accrual(amount("365000.00"), amount("5.00"), amount("12")).unwrap();
    assert_eq!(accrued.to_text(), "120.00");
    assert_eq!(total.to_text(), "125.00");
}

#[test]
fn no_interest_on_zero_principal() {
    let (accrued, total) = daily_accrual(amount("0.00"), amount("12.34"), amount("15")).unwrap();
    assert!(accrued.is_zero());
    assert_eq!(total.to_text(), "12.34");
}

#[test]
fn loan_account_numbers() {
    assert_eq!(loan_account_number("RUB", "consumer", 9), "455810000000009");
    assert_eq!(loan_account_number("USD", "mortgage", 123_456_789), "456840123456789");
    assert_eq!(loan_account_number("EUR", "car", 1), "457978000000001");
    assert_eq!(loan_account_number("RUB", "micro", 1), "458810000000001");
    assert_eq!(loan_account_number("CNY", "other", 1), "459810000000001");
    let n = generate_loan_account_number("USD", "car");
    assert_eq!(n.len(), 15);
    assert!(n.starts_with("457840"));
}

#[test]
fn loan_request_validation() {
    assert_eq!(validate_open_loan("l", "c"), Ok(()));
    assert_eq!(validate_open_loan("l", ""), Err(RequestError::InvalidArgument("loan_id and client_id are required")));
    let (p, i, n) = validate_repayment("100", "1.5", "0").unwrap();
    assert_eq!((p.to_text(), i.to_text(), n.to_text()), ("100".to_string(), "1.5".to_string(), "0".to_string()));
    assert_eq!(validate_repayment("a", "1", "1"), Err(RequestError::InvalidArgument("invalid principal_amount")));
    assert_eq!(validate_repayment("1", "b", "1"), Err(RequestError::InvalidArgument("invalid interest_amount")));
    assert_eq!(validate_repayment("1", "1", "c"), Err(RequestError::InvalidArgument("invalid penalty_amount")));
    assert!(validate_overdue("1", "2").is_ok());
    assert_eq!(validate_overdue("x", "2"), Err(RequestError::InvalidArgument("invalid principal_overdue")));
    assert_eq!(validate_overdue("1", "y"), Err(RequestError::InvalidArgument("invalid interest_overdue")));
}

#[test]
fn loan_error_messages_and_record() {
    assert_eq!(LoanError::Overpayment.message(), "Overpayment of principal");
    assert_eq!(LoanError::LoanCurrencyMismatch.message(), "Currency mismatch on loan account");
    let r = LoanAccountRecord::opened(
        "la".to_string(),
        "l".to_string(),
        "c".to_string(),
        "RUB".to_string(),
        "455810000000009".to_string(),
        "consumer".to_string(),
        42,
    );
    assert_eq!(r.status, "active");
    assert_eq!(r.principal_balance, "0.00");
    assert_eq!(r.provision_amount, "0.00");
    assert_eq!(r.updated_at, 42);
}

#[test]
fn provisions_grow_with_the_category() {
    let z = amount("0");
    let exposure = amount("1234.567");
    let by = |c: &str| provision_amount(exposure, z, z, c).unwrap();
    assert_eq!(by("standard").to_text(), "0");
    assert_eq!(by("substandard").to_text(), "123.46");
    assert_eq!(by("doubtful").to_text(), "617.28");
    assert_eq!(by("bad").to_text(), "1234.57");
    assert!(!by("bad").less_than(&exposure.round_dp(2)) && !exposure.round_dp(2).less_than(&by("bad")));
    assert!(by("standard").less_than(&by("substandard")));
    assert!(by("substandard").less_than(&by("doubtful")));
    assert!(by("doubtful").less_than(&by("bad")));
}
