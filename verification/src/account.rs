//! Client accounts: numbering, opening and status changes.
use crate::numbering::{lemma_numbered_shape, number_from_parts, numbered, random_u64};
use crate::request::RequestError;
use crate::text::{all_digits, text_eq};
use vstd::prelude::*;

verus! {

/// An account as stored.
#[derive(Debug, Clone)]
pub struct AccountRecord {
    pub account_id: String,
    pub client_id: String,
    pub currency_code: String,
    pub account_number: String,
    pub account_type: String,
    pub balance: String,
    pub status: String,
    pub opened_at: i64,
}

/// The balance-account prefix of an account type.
pub open spec fn account_prefix_spec(account_type: Seq<char>) -> Seq<char> {
    if account_type == "current"@ {
        "40817"@
    } else if account_type == "deposit"@ {
        "42307"@
    } else if account_type == "credit"@ {
        "40817"@
    } else {
        "40817"@
    }
}

/// The currency part of an account number.
pub open spec fn account_currency_spec(currency: Seq<char>) -> Seq<char> {
    if currency == "RUB"@ {
        "810"@
    } else if currency == "USD"@ {
        "840"@
    } else if currency == "EUR"@ {
        "978"@
    } else if currency == "CNY"@ {
        "156"@
    } else {
        "810"@
    }
}

fn account_prefix(account_type: &str) -> (r: &'static str)
    ensures
        r@ == account_prefix_spec(account_type@),
{
    if text_eq(account_type, "current") {
        "40817"
    } else if text_eq(account_type, "deposit") {
        "42307"
    } else if text_eq(account_type, "credit") {
        "40817"
    } else {
        "40817"
    }
}

fn account_currency(currency: &str) -> (r: &'static str)
    ensures
        r@ == account_currency_spec(currency@),
{
    if text_eq(currency, "RUB") {
        "810"
    } else if text_eq(currency, "USD") {
        "840"
    } else if text_eq(currency, "EUR") {
        "978"
    } else if text_eq(currency, "CNY") {
        "156"
    } else {
        "810"
    }
}

/// The account number for a random draw: prefix, currency code, nine
/// digits; seventeen digits in all.
pub fn account_number(currency: &str, account_type: &str, random: u64) -> (r: String)
    ensures
        r@ == numbered(account_prefix_spec(account_type@), account_currency_spec(currency@), random as nat),
        r@.len() == 17,
        all_digits(r@),
{
    proof {
        reveal_strlit("40817");
        reveal_strlit("42307");
        reveal_strlit("810");
        reveal_strlit("840");
        reveal_strlit("978");
        reveal_strlit("156");
        lemma_numbered_shape(account_prefix_spec(account_type@), account_currency_spec(currency@), random as nat);
    }
    number_from_parts(account_prefix(account_type), account_currency(currency), random)
}

/// A new account number with nine random digits.
pub fn generate_account_number(currency: &str, account_type: &str) -> (r: String)
    ensures
        exists|x: u64| r@ == numbered(account_prefix_spec(account_type@), account_currency_spec(currency@), x as nat),
        r@.len() == 17,
        all_digits(r@),
{
    let x = random_u64();
    account_number(currency, account_type, x)
}

/// The account types that may be opened.
pub open spec fn is_account_type(t: Seq<char>) -> bool {
    t == "current"@ || t == "deposit"@ || t == "credit"@
}

/// The currencies an account may hold.
pub open spec fn is_account_currency(c: Seq<char>) -> bool {
    c == "RUB"@ || c == "USD"@ || c == "EUR"@ || c == "CNY"@ || c == "KZT"@ || c == "GBP"@ || c == "JPY"@ || c
        == "CHF"@
}

/// The statuses an account may be set to.
pub open spec fn is_account_status(s: Seq<char>) -> bool {
    s == "active"@ || s == "frozen"@ || s == "closed"@
}

/// Opening an account needs a client, a known type and a known currency.
pub open spec fn new_account_check(client_id: Seq<char>, account_type: Seq<char>, currency: Seq<char>) -> Result<(), RequestError> {
    if client_id.len() == 0 {
        Err(RequestError::InvalidArgument("client_id is required"))
    } else if !is_account_type(account_type) {
        Err(RequestError::InvalidArgument("invalid account_type"))
    } else if !is_account_currency(currency) {
        Err(RequestError::InvalidArgument("invalid currency_code"))
    } else {
        Ok(())
    }
}

/// Opening an account is accepted exactly for a non-empty client id, a type
/// among current, deposit and credit, and a currency among RUB, USD, EUR,
/// CNY, KZT, GBP, JPY and CHF; any other type or currency is refused.
pub proof fn lemma_account_requests(client_id: Seq<char>, t: Seq<char>, c: Seq<char>)
    ensures
        client_id.len() > 0 && (t == "current"@ || t == "deposit"@ || t == "credit"@) && (c == "RUB"@ || c == "USD"@ || c == "EUR"@ || c == "CNY"@ || c == "KZT"@ || c == "GBP"@ || c == "JPY"@ || c == "CHF"@)
            ==> new_account_check(client_id, t, c) == Ok::<(), RequestError>(()),
        client_id.len() > 0 && t != "current"@ && t != "deposit"@ && t != "credit"@ ==> new_account_check(client_id, t, c)
            == Err::<(), RequestError>(RequestError::InvalidArgument("invalid account_type")),
        client_id.len() > 0 && (t == "current"@ || t == "deposit"@ || t == "credit"@) && c != "RUB"@ && c != "USD"@ && c != "EUR"@ && c != "CNY"@ && c != "KZT"@ && c != "GBP"@ && c != "JPY"@ && c != "CHF"@
            ==> new_account_check(client_id, t, c) == Err::<(), RequestError>(
            RequestError::InvalidArgument("invalid currency_code"),
        ),
{
}

/// Validates a request to open an account.
pub fn validate_new_account(client_id: &str, account_type: &str, currency: &str) -> (r: Result<(), RequestError>)
    ensures
        r == new_account_check(client_id@, account_type@, currency@),
{
    if client_id.is_empty() {
        return Err(RequestError::InvalidArgument("client_id is required"));
    }
    if !(text_eq(account_type, "current") || text_eq(account_type, "deposit") || text_eq(account_type, "credit")) {
        return Err(RequestError::InvalidArgument("invalid account_type"));
    }
    if !(text_eq(currency, "RUB") || text_eq(currency, "USD") || text_eq(currency, "EUR") || text_eq(currency, "CNY")
        || text_eq(currency, "KZT") || text_eq(currency, "GBP") || text_eq(currency, "JPY") || text_eq(
        currency,
        "CHF",
    )) {
        return Err(RequestError::InvalidArgument("invalid currency_code"));
    }
    Ok(())
}

/// Validates a requested account status.
pub fn validate_account_status(new_status: &str) -> (r: Result<(), RequestError>)
    ensures
        r == (if is_account_status(new_status@) {
            Ok(())
        } else {
            Err(RequestError::InvalidArgument("invalid status"))
        }),
{
    if text_eq(new_status, "active") || text_eq(new_status, "frozen") || text_eq(new_status, "closed") {
        Ok(())
    } else {
        Err(RequestError::InvalidArgument("invalid status"))
    }
}

impl AccountRecord {
    /// A newly opened account: active, with a zero balance.
    pub fn opened(
        account_id: String,
        client_id: String,
        currency_code: String,
        account_number: String,
        account_type: String,
        now: i64,
    ) -> (r: AccountRecord)
        ensures
            r.account_id == account_id,
            r.client_id == client_id,
            r.currency_code == currency_code,
            r.account_number == account_number,
            r.account_type == account_type,
            r.balance@ == "0.00"@,
            r.status@ == "active"@,
            r.opened_at == now,
    {
        AccountRecord {
            account_id,
            client_id,
            currency_code,
            account_number,
            account_type,
            balance: String::from_str("0.00"),
            status: String::from_str("active"),
            opened_at: now,
        }
    }
}

/// The prefix of a client account number: 42307 for deposit accounts,
/// 40817 for current, credit and any other accounts.
pub proof fn lemma_account_prefixes()
    ensures
        account_prefix_spec("current"@) == "40817"@,
        account_prefix_spec("deposit"@) == "42307"@,
        account_prefix_spec("credit"@) == "40817"@,
        forall|k: Seq<char>| k != "current"@ && k != "deposit"@ && k != "credit"@ ==> #[trigger] account_prefix_spec(k) == "40817"@,
{
    reveal_strlit("current");
    reveal_strlit("deposit");
    reveal_strlit("credit");
    reveal_strlit("40817");
    reveal_strlit("42307");
    assert("current"@.len() == 7);
    assert("deposit"@.len() == 7);
    assert("credit"@.len() == 6);
    assert("40817"@.len() == 5);
    assert("42307"@.len() == 5);
    assert("current"@[0] != "deposit"@[0]);
    assert("current"@ != "deposit"@);
    assert("40817"@[1] != "42307"@[1]);
    assert("40817"@ != "42307"@);
}

/// The currency part of a client account number: RUB 810, USD 840, EUR 978,
/// CNY 156, and 810 for any other currency.
pub proof fn lemma_account_currency_codes()
    ensures
        account_currency_spec("RUB"@) == "810"@,
        account_currency_spec("USD"@) == "840"@,
        account_currency_spec("EUR"@) == "978"@,
        account_currency_spec("CNY"@) == "156"@,
        forall|k: Seq<char>| k != "RUB"@ && k != "USD"@ && k != "EUR"@ && k != "CNY"@ ==> #[trigger] account_currency_spec(k) == "810"@,
{
    reveal_strlit("RUB");
    reveal_strlit("USD");
    reveal_strlit("EUR");
    reveal_strlit("CNY");
    reveal_strlit("810");
    reveal_strlit("840");
    reveal_strlit("978");
    reveal_strlit("156");
    assert("RUB"@.len() == 3);
    assert("USD"@.len() == 3);
    assert("EUR"@.len() == 3);
    assert("CNY"@.len() == 3);
    assert("810"@.len() == 3);
    assert("840"@.len() == 3);
    assert("978"@.len() == 3);
    assert("156"@.len() == 3);
    assert("RUB"@[0] != "USD"@[0]);
    assert("RUB"@ != "USD"@);
    assert("RUB"@[0] != "EUR"@[0]);
    assert("RUB"@ != "EUR"@);
    assert("RUB"@[0] != "CNY"@[0]);
    assert("RUB"@ != "CNY"@);
    assert("RUB"@[0] != "810"@[0]);
    assert("RUB"@ != "810"@);
    assert("RUB"@[0] != "840"@[0]);
    assert("RUB"@ != "840"@);
    assert("RUB"@[0] != "978"@[0]);
    assert("RUB"@ != "978"@);
    assert("RUB"@[0] != "156"@[0]);
    assert("RUB"@ != "156"@);
    assert("USD"@[0] != "EUR"@[0]);
    assert("USD"@ != "EUR"@);
    assert("USD"@[0] != "CNY"@[0]);
    assert("USD"@ != "CNY"@);
    assert("USD"@[0] != "810"@[0]);
    assert("USD"@ != "810"@);
    assert("USD"@[0] != "840"@[0]);
    assert("USD"@ != "840"@);
    assert("USD"@[0] != "978"@[0]);
    assert("USD"@ != "978"@);
    assert("USD"@[0] != "156"@[0]);
    assert("USD"@ != "156"@);
    assert("EUR"@[0] != "CNY"@[0]);
    assert("EUR"@ != "CNY"@);
    assert("EUR"@[0] != "810"@[0]);
    assert("EUR"@ != "810"@);
    assert("EUR"@[0] != "840"@[0]);
    assert("EUR"@ != "840"@);
    assert("EUR"@[0] != "978"@[0]);
    assert("EUR"@ != "978"@);
    assert("EUR"@[0] != "156"@[0]);
    assert("EUR"@ != "156"@);
    assert("CNY"@[0] != "810"@[0]);
    assert("CNY"@ != "810"@);
    assert("CNY"@[0] != "840"@[0]);
    assert("CNY"@ != "840"@);
    assert("CNY"@[0] != "978"@[0]);
    assert("CNY"@ != "978"@);
    assert("CNY"@[0] != "156"@[0]);
    assert("CNY"@ != "156"@);
    assert("810"@[1] != "840"@[1]);
    assert("810"@ != "840"@);
    assert("810"@[0] != "978"@[0]);
    assert("810"@ != "978"@);
    assert("810"@[0] != "156"@[0]);
    assert("810"@ != "156"@);
    assert("840"@[0] != "978"@[0]);
    assert("840"@ != "978"@);
    assert("840"@[0] != "156"@[0]);
    assert("840"@ != "156"@);
    assert("978"@[0] != "156"@[0]);
    assert("978"@ != "156"@);
}

/// An account may be set to active, frozen or closed, and to nothing else.
pub proof fn lemma_account_statuses()
    ensures
        is_account_status("active"@) == true,
        is_account_status("frozen"@) == true,
        is_account_status("closed"@) == true,
        forall|k: Seq<char>| k != "active"@ && k != "frozen"@ && k != "closed"@ ==> #[trigger] is_account_status(k) == false,
{
    reveal_strlit("active");
    reveal_strlit("frozen");
    reveal_strlit("closed");
    assert("active"@.len() == 6);
    assert("frozen"@.len() == 6);
    assert("closed"@.len() == 6);
    assert("active"@[0] != "frozen"@[0]);
    assert("active"@ != "frozen"@);
    assert("active"@[0] != "closed"@[0]);
    assert("active"@ != "closed"@);
    assert("frozen"@[0] != "closed"@[0]);
    assert("frozen"@ != "closed"@);
}

} // verus!
