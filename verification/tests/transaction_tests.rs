use bank_core::decimal::Amount;
use bank_core::request::RequestError;
use bank_core::transaction::outbox_poller::{next_action, PollAction};
use bank_core::transaction::{
    clamp_limit, is_allowed_operation, operation_direction, post_to_balance, validate_posting, PostingError,
};
use rust_decimal::Decimal;
use std::str::FromStr;

fn amount(text: &str) -> Amount {
    Amount::parse(text).unwrap()
}

#[test]
fn credit_operations_and_the_rest() {
    for op in ["CASH_IN", "TRANSFER_IN", "INTEREST", "SALARY", "REFUND"] {
        assert_eq!(operation_direction(op), "credit");
    }
    for op in ["CASH_OUT", "TRANSFER_OUT", "FEE", "CARD_PAYMENT", "LOAN_PAYMENT", "FX_CONVERSION", "HOLD", "XYZ"] {
        assert_eq!(operation_direction(op), "debit");
    }
}

#[test]
fn allowed_operations() {
    assert!(is_allowed_operation("CASH_IN"));
    assert!(is_allowed_operation("HOLD"));
    assert!(is_allowed_operation("FX_CONVERSION"));
    assert!(!is_allowed_operation("cash_in"));
    assert!(!is_allowed_operation(""));
}

#[test]
fn posting_request_validation() {
    let (a, direction) = validate_posting("acc", "100.50", "CASH_OUT").unwrap();
    assert_eq!((a.to_text(), direction), ("100.50".to_string(), "debit"));
    assert_eq!(validate_posting("", "1", "CASH_IN"), Err(RequestError::InvalidArgument("account_id is required")));
    assert_eq!(validate_posting("a", "one", "CASH_IN"), Err(RequestError::InvalidArgument("invalid amount")));
    assert_eq!(validate_posting("a", "-1", "CASH_IN"), Err(RequestError::InvalidArgument("amount must be positive")));
    assert_eq!(validate_posting("a", "1", "GIFT"), Err(RequestError::InvalidArgument("invalid operation_code")));
}

#[test]
fn credit_and_debit_postings() {
    assert_eq!(post_to_balance("100.00", "RUB", "RUB", amount("25.5"), "credit").unwrap().to_text(), "125.50");
    assert_eq!(post_to_balance("100.00", "RUB", "RUB", amount("25.5"), "debit").unwrap().to_text(), "74.50");
    assert_eq!(post_to_balance("25.5", "RUB", "RUB", amount("25.5"), "debit").unwrap().to_text(), "0.0");
}

#[test]
fn credit_then_debit_gives_back_the_balance() {
    let credited = post_to_balance("1234.56", "RUB", "RUB", amount("78.9"), "credit").unwrap();
    let back = post_to_balance(&credited.to_text(), "RUB", "RUB", amount("78.9"), "debit").unwrap();
    assert_eq!(back.to_text(), "1234.56");
}

#[test]
fn posting_refusals() {
    assert_eq!(
        post_to_balance("100", "RUB", "USD", amount("1"), "credit"),
        Err(PostingError::CurrencyMismatch { account_currency: "RUB".to_string(), currency: "USD".to_string() })
    );
    assert_eq!(post_to_balance("10", "RUB", "RUB", amount("10.01"), "debit"), Err(PostingError::InsufficientFunds));
    assert_eq!(
        post_to_balance("10", "RUB", "RUB", amount("1"), "sideways"),
        Err(PostingError::UnknownDirection { direction: "sideways".to_string() })
    );
    let detail = Decimal::from_str("ten").unwrap_err().to_string();
    assert_eq!(
        post_to_balance("ten", "RUB", "RUB", amount("1"), "credit"),
        Err(PostingError::InvalidBalance { detail: detail.clone() })
    );
}

#[test]
fn posting_error_messages() {
    let e = PostingError::CurrencyMismatch { account_currency: "RUB".to_string(), currency: "USD".to_string() };
    assert_eq!(e.message(), "Currency mismatch: account RUB vs tx USD");
    assert_eq!(PostingError::InsufficientFunds.message(), "Insufficient funds");
    assert_eq!(PostingError::UnknownDirection { direction: "up".to_string() }.message(), "Unknown direction: up");
    assert_eq!(PostingError::InvalidBalance { detail: "bad".to_string() }.message(), "Invalid balance: bad");
}

#[test]
fn listing_limit_is_clamped() {
    assert_eq!(clamp_limit(0), 1);
    assert_eq!(clamp_limit(-5), 1);
    assert_eq!(clamp_limit(50), 50);
    assert_eq!(clamp_limit(1000), 1000);
    assert_eq!(clamp_limit(5000), 1000);
}

#[test]
fn poller_marks_sent_or_retries() {
    assert_eq!(next_action(true), PollAction::MarkSent);
    assert_eq!(next_action(false), PollAction::IncrementRetry);
}

#[test]
fn debit_then_credit_gives_back_the_balance() {
    let debited = post_to_balance("500.05", "USD", "USD", amount("0.05"), "debit").unwrap();
    assert_eq!(debited.to_text(), "500.00");
    let back = post_to_balance(&debited.to_text(), "USD", "USD", amount("0.05"), "credit").unwrap();
    assert_eq!(back.to_text(), "500.05");
}

#[test]
fn credit_on_an_empty_account_and_back() {
    let credited = post_to_balance("0", "RUB", "RUB", amount("12.50"), "credit").unwrap();
    assert_eq!(credited.to_text(), "12.50");
    let back = post_to_balance(&credited.to_text(), "RUB", "RUB", amount("12.50"), "debit").unwrap();
    assert!(back.is_zero());
    assert_eq!(back.to_text(), "0.00");
}
