use bank_core::account::{
    account_number, generate_account_number as new_account_number, validate_account_status, validate_new_account,
    AccountRecord,
};
use bank_core::calendar::maturity_date;
use bank_core::client::{optional_field, validate_client_status, validate_new_client, ClientRecord};
use bank_core::common::{OutboxEvent, YdbConfig};
use bank_core::numbering::number_from_parts;
use bank_core::publisher::{action_after_send, retry_outcome, EventAction, PollerState, MAX_RETRIES};
use bank_core::request::{parse_amount_field, parse_positive_amount, parse_u32, RequestError};

#[test]
fn account_numbers_have_seventeen_digits() {
    assert_eq!(account_number("USD", "deposit", 42), "42307840000000042");
    assert_eq!(account_number("CNY", "credit", 7), "40817156000000007");
    assert_eq!(account_number("KZT", "current", 1_999_999_999), "40817810999999999");
    let n = new_account_number("EUR", "current");
    assert_eq!(n.len(), 17);
    assert!(n.starts_with("40817978"));
    assert!(n.chars().all(|c| c.is_ascii_digit()));
}

#[test]
fn new_account_validation() {
    assert_eq!(validate_new_account("c1", "current", "RUB"), Ok(()));
    assert_eq!(validate_new_account("c1", "credit", "CHF"), Ok(()));
    assert_eq!(validate_new_account("", "current", "RUB"), Err(RequestError::InvalidArgument("client_id is required")));
    assert_eq!(validate_new_account("c", "savings", "RUB"), Err(RequestError::InvalidArgument("invalid account_type")));
    assert_eq!(validate_new_account("c", "current", "AUD"), Err(RequestError::InvalidArgument("invalid currency_code")));
}

#[test]
fn account_status_validation() {
    assert_eq!(validate_account_status("frozen"), Ok(()));
    assert_eq!(validate_account_status("blocked"), Err(RequestError::InvalidArgument("invalid status")));
    let r = AccountRecord::opened(
        "a".to_string(),
        "c".to_string(),
        "RUB".to_string(),
        "40817810000000001".to_string(),
        "current".to_string(),
        9,
    );
    assert_eq!(r.balance, "0.00");
    assert_eq!(r.status, "active");
    assert_eq!(r.opened_at, 9);
}

#[test]
fn client_validation_and_record() {
    assert_eq!(validate_new_client("Ivanov", "Ivan"), Ok(()));
    assert_eq!(
        validate_new_client("", "Ivan"),
        Err(RequestError::InvalidArgument("last_name and first_name are required"))
    );
    assert_eq!(validate_client_status("blocked"), Ok(()));
    assert_eq!(validate_client_status("frozen"), Err(RequestError::InvalidArgument("invalid status")));
    assert_eq!(optional_field(String::new()), None);
    assert_eq!(optional_field("x".to_string()), Some("x".to_string()));
    let c = ClientRecord::registered(
        "id".to_string(),
        "Ivanov".to_string(),
        "Ivan".to_string(),
        String::new(),
        "1990-01-01".to_string(),
        String::new(),
        "123456".to_string(),
        5,
    );
    assert_eq!(c.middle_name, None);
    assert_eq!(c.birth_date, Some("1990-01-01".to_string()));
    assert_eq!(c.passport_series, None);
    assert_eq!(c.passport_number, Some("123456".to_string()));
    assert_eq!(c.status, "active");
}

#[test]
fn ydb_config_defaults() {
    let c = YdbConfig::from_values(None, None);
    assert_eq!(c.connection_string, "grpc://localhost:2136?database=local");
    assert_eq!(c.credentials, "");
    let c = YdbConfig::from_values(Some("grpcs://db".to_string()), Some("SECRET-REDACTED".to_string()));
    assert_eq!(c.connection_string, "grpcs://db");
    assert_eq!(c.credentials, "SECRET-REDACTED");
}

#[test]
fn pending_outbox_event() {
    let e = OutboxEvent::pending(
        "e".to_string(),
        "account".to_string(),
        "a1".to_string(),
        "AccountOpened".to_string(),
        "{}".to_string(),
        77,
    );
    assert_eq!(e.status, "PENDING");
    assert_eq!(e.sent_at, None);
    assert_eq!(e.retry_count, 0);
    assert_eq!(e.created_at, 77);
}

#[test]
fn retries_fail_past_the_limit() {
    assert_eq!(retry_outcome(0, MAX_RETRIES), (1, "PENDING"));
    assert_eq!(retry_outcome(3, MAX_RETRIES), (4, "PENDING"));
    assert_eq!(retry_outcome(4, MAX_RETRIES), (5, "PENDING"));
    assert_eq!(retry_outcome(5, MAX_RETRIES), (6, "FAILED"));
    assert_eq!(retry_outcome(9, MAX_RETRIES), (10, "FAILED"));
    assert_eq!(action_after_send(true), EventAction::MarkSent);
    assert_eq!(action_after_send(false), EventAction::MarkRetry);
}

#[test]
fn poller_refreshes_pending_count_every_twentieth_tick() {
    let mut state = PollerState::new();
    let mut refreshes = Vec::new();
    for _ in 0..45 {
        refreshes.push(state.on_tick());
    }
    assert_eq!(state.ticks, 45);
    let at: Vec<usize> = refreshes.iter().enumerate().filter(|(_, r)| **r).map(|(i, _)| i + 1).collect();
    assert_eq!(at, vec![20, 40]);
}

#[test]
fn maturity_date_counts_thirty_day_months() {
    assert_eq!(maturity_date(0, 12), Some("1970-12-27".to_string()));
    assert_eq!(maturity_date(1_700_000_000, 0), Some("2023-11-14".to_string()));
    assert_eq!(maturity_date(i64::MAX, 1), None);
}

#[test]
fn number_parts_are_joined() {
    assert_eq!(number_from_parts("423", "810", 12_345_678_901), "423810345678901");
}

#[test]
fn request_field_parsing() {
    assert_eq!(parse_u32("12"), Some(12));
    assert_eq!(parse_u32("-1"), None);
    assert_eq!(parse_u32("4294967296"), None);
    assert_eq!(parse_amount_field("x", "invalid amount"), Err(RequestError::InvalidArgument("invalid amount")));
    assert_eq!(parse_amount_field("-2.5", "invalid amount").unwrap().to_text(), "-2.5");
    assert_eq!(parse_positive_amount("0.00", "m"), Err(RequestError::InvalidArgument("amount must be positive")));
    assert_eq!(parse_positive_amount("0.01", "m").unwrap().to_text(), "0.01");
}

#[test]
fn parse_u32_agrees_with_std() {
    for text in [
        "0", "7", "+7", "007", "+", "", "-0", "-7", "++7", " 7", "7 ", "4294967295", "4294967296", "99999999999",
        "１２", "12a", "0x10",
    ] {
        assert_eq!(parse_u32(text), text.parse::<u32>().ok(), "text {:?}", text);
    }
    assert_eq!(parse_u32("+42"), Some(42));
    assert_eq!(parse_u32("4294967295"), Some(u32::MAX));
}
