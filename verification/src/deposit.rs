//! Deposits: opening, top-ups, interest capitalisation and pay-out, early
//! termination, closing, and the checks each of them makes.
use crate::calendar::utc_date_after_days;
use crate::decimal::{
    add_fits, decimal_checked_add, decimal_checked_div, decimal_checked_mul, decimal_checked_sub, decimal_from_str,
    lemma_pow10_positive, mul_fits, pow10, rounded, sub_fits, Amount, MAX_MAGNITUDE,
};
use crate::interest::one_day_interest;
use crate::numbering::{lemma_numbered_shape, number_from_parts, numbered, random_u64};
use crate::request::{parse_amount_field, parse_positive_amount, parse_u32, u32_from_str, RequestError};
use crate::text::{all_digits, text_eq};
use vstd::prelude::*;

verus! {

/// A deposit account as stored.
#[derive(Debug, Clone)]
pub struct DepositAccountRecord {
    pub deposit_account_id: String,
    pub deposit_id: String,
    pub client_id: String,
    pub currency_code: String,
    pub account_number: String,
    pub principal_balance: String,
    pub interest_accrued: String,
    pub interest_paid: String,
    pub annual_rate: String,
    pub term_months: u32,
    pub capitalization: bool,
    pub product_type: String,
    pub status: String,
    pub opened_at: i64,
    pub maturity_date: String,
    pub updated_at: i64,
}

/// Why a deposit operation is refused.
#[derive(Debug, Clone, Copy, PartialEq, Eq)]
pub enum DepositError {
    ClientAccountNotActive,
    CurrencyMismatch,
    InsufficientFunds,
    DepositNotActive,
    CapitalizationNotSupported,
    NothingToCapitalize,
    NothingToPayOut,
    /// A decimal sum or difference does not fit in a decimal.
    Overflow,
}

impl DepositError {
    pub open spec fn message_spec(self) -> Seq<char> {
        match self {
            DepositError::ClientAccountNotActive => "Client account is not active"@,
            DepositError::CurrencyMismatch => "Currency mismatch"@,
            DepositError::InsufficientFunds => "Insufficient funds"@,
            DepositError::DepositNotActive => "Deposit is not active"@,
            DepositError::CapitalizationNotSupported => "Deposit doesn't support capitalization"@,
            DepositError::NothingToCapitalize => "Nothing to capitalize"@,
            DepositError::NothingToPayOut => "Nothing to pay out"@,
            DepositError::Overflow => "Decimal overflow"@,
        }
    }

    /// The message stored with the refusal.
    pub fn message(&self) -> (r: &'static str)
        ensures
            r@ == self.message_spec(),
    {
        match self {
            DepositError::ClientAccountNotActive => "Client account is not active",
            DepositError::CurrencyMismatch => "Currency mismatch",
            DepositError::InsufficientFunds => "Insufficient funds",
            DepositError::DepositNotActive => "Deposit is not active",
            DepositError::CapitalizationNotSupported => "Deposit doesn't support capitalization",
            DepositError::NothingToCapitalize => "Nothing to capitalize",
            DepositError::NothingToPayOut => "Nothing to pay out",
            DepositError::Overflow => "Decimal overflow",
        }
    }
}

/// A decimal sum as a deposit result.
pub open spec fn sum_or_overflow(a: Amount, b: Amount) -> Result<Amount, DepositError> {
    match decimal_checked_add(a, b) {
        Some(x) => Ok(x),
        None => Err(DepositError::Overflow),
    }
}

/// A decimal difference as a deposit result.
pub open spec fn difference_or_overflow(a: Amount, b: Amount) -> Result<Amount, DepositError> {
    match decimal_checked_sub(a, b) {
        Some(x) => Ok(x),
        None => Err(DepositError::Overflow),
    }
}

fn add_amounts(a: Amount, b: Amount) -> (r: Result<Amount, DepositError>)
    requires
        a.wf(),
        b.wf(),
    ensures
        r == sum_or_overflow(a, b),
        r matches Ok(x) ==> x.wf() && (add_fits(a, b) ==> x.units() == a.units() + b.units()),
        add_fits(a, b) ==> r is Ok,
{
    match a.checked_add(&b) {
        Some(x) => Ok(x),
        None => Err(DepositError::Overflow),
    }
}

fn sub_amounts(a: Amount, b: Amount) -> (r: Result<Amount, DepositError>)
    requires
        a.wf(),
        b.wf(),
    ensures
        r == difference_or_overflow(a, b),
        r matches Ok(x) ==> x.wf() && (sub_fits(a, b) ==> x.units() == a.units() - b.units()),
        sub_fits(a, b) ==> r is Ok,
{
    match a.checked_sub(&b) {
        Some(x) => Ok(x),
        None => Err(DepositError::Overflow),
    }
}

/// Opening a deposit from a client account: the account must be active,
/// in the deposit's currency and hold the amount; it is debited by it.
pub open spec fn opening_debit_spec(
    account_status: Seq<char>,
    account_currency: Seq<char>,
    deposit_currency: Seq<char>,
    account_balance: Amount,
    amount: Amount,
) -> Result<Amount, DepositError> {
    if account_status != "active"@ {
        Err(DepositError::ClientAccountNotActive)
    } else if account_currency != deposit_currency {
        Err(DepositError::CurrencyMismatch)
    } else if account_balance.units() < amount.units() {
        Err(DepositError::InsufficientFunds)
    } else {
        difference_or_overflow(account_balance, amount)
    }
}

/// A deposit is opened only from an active client account: from an account
/// of any other status (frozen, closed, ...) it is refused as not active and
/// nothing is debited.  From an active account in the deposit's currency
/// that holds the amount, the account is debited by exactly the amount.
pub proof fn lemma_opening_needs_active_account(
    account_status: Seq<char>,
    account_currency: Seq<char>,
    deposit_currency: Seq<char>,
    account_balance: Amount,
    amount: Amount,
)
    ensures
        account_status != "active"@ ==> opening_debit_spec(
            account_status,
            account_currency,
            deposit_currency,
            account_balance,
            amount,
        ) == Err::<Amount, DepositError>(DepositError::ClientAccountNotActive),
        opening_debit_spec(account_status, account_currency, deposit_currency, account_balance, amount) is Ok
            ==> account_status == "active"@ && account_currency == deposit_currency && account_balance.units()
            >= amount.units(),
{
}

/// The client account's balance after opening a deposit of `amount` from
/// it; the deposit's principal is the amount itself.
pub fn opening_debit(
    account_status: &str,
    account_currency: &str,
    deposit_currency: &str,
    account_balance: Amount,
    amount: Amount,
) -> (r: Result<Amount, DepositError>)
    requires
        account_balance.wf(),
        amount.wf(),
    ensures
        r == opening_debit_spec(account_status@, account_currency@, deposit_currency@, account_balance, amount),
        r matches Ok(x) ==> x.wf() && (sub_fits(account_balance, amount) ==> x.units()
            == account_balance.units() - amount.units() && x.units() >= 0),
        account_status@ == "active"@ && account_currency@ == deposit_currency@ && account_balance.units() >= amount.units()
            && sub_fits(account_balance, amount) ==> r is Ok,
{
    if !text_eq(account_status, "active") {
        return Err(DepositError::ClientAccountNotActive);
    }
    if !text_eq(account_currency, deposit_currency) {
        return Err(DepositError::CurrencyMismatch);
    }
    if account_balance.less_than(&amount) {
        return Err(DepositError::InsufficientFunds);
    }
    sub_amounts(account_balance, amount)
}

/// A top-up needs an active deposit in the top-up's currency.
pub open spec fn top_up_check_spec(deposit_status: Seq<char>, deposit_currency: Seq<char>, currency: Seq<char>) -> Result<(), DepositError> {
    if deposit_status != "active"@ {
        Err(DepositError::DepositNotActive)
    } else if deposit_currency != currency {
        Err(DepositError::CurrencyMismatch)
    } else {
        Ok(())
    }
}

/// Checks a deposit before a top-up.
pub fn check_top_up(deposit_status: &str, deposit_currency: &str, currency: &str) -> (r: Result<(), DepositError>)
    ensures
        r == top_up_check_spec(deposit_status@, deposit_currency@, currency@),
{
    if !text_eq(deposit_status, "active") {
        return Err(DepositError::DepositNotActive);
    }
    if !text_eq(deposit_currency, currency) {
        return Err(DepositError::CurrencyMismatch);
    }
    Ok(())
}

/// A top-up moves `amount` from the client account into the deposit; the
/// account must hold it.
pub open spec fn top_up_spec(principal: Amount, account_balance: Amount, amount: Amount) -> Result<(Amount, Amount), DepositError> {
    if account_balance.units() < amount.units() {
        Err(DepositError::InsufficientFunds)
    } else {
        match sum_or_overflow(principal, amount) {
            Err(e) => Err(e),
            Ok(p) => match difference_or_overflow(account_balance, amount) {
                Err(e) => Err(e),
                Ok(b) => Ok((p, b)),
            },
        }
    }
}

/// The deposit principal and client account balance after a top-up.  The
/// money moved is conserved: the two balances sum to what they summed to
/// before, and the account does not go below zero.
pub fn top_up_balances(principal: Amount, account_balance: Amount, amount: Amount) -> (r: Result<(Amount, Amount), DepositError>)
    requires
        principal.wf(),
        account_balance.wf(),
        amount.wf(),
    ensures
        r == top_up_spec(principal, account_balance, amount),
        r matches Ok(x) ==> x.0.wf() && x.1.wf(),
        r matches Ok(x) ==> (add_fits(principal, amount) && sub_fits(account_balance, amount) ==> x.0.units()
            == principal.units() + amount.units() && x.1.units() == account_balance.units() - amount.units()
            && x.0.units() + x.1.units() == principal.units() + account_balance.units() && x.1.units() >= 0),
        account_balance.units() >= amount.units() && add_fits(principal, amount) && sub_fits(account_balance, amount)
            ==> r is Ok,
{
    if account_balance.less_than(&amount) {
        return Err(DepositError::InsufficientFunds);
    }
    let p = add_amounts(principal, amount)?;
    let b = sub_amounts(account_balance, amount)?;
    Ok((p, b))
}

/// Capitalisation moves the accrued interest into the principal; it needs
/// a deposit that allows it and interest above zero.
pub open spec fn capitalization_spec(capitalization: bool, principal: Amount, interest: Amount) -> Result<Amount, DepositError> {
    if !capitalization {
        Err(DepositError::CapitalizationNotSupported)
    } else if interest.units() <= 0 {
        Err(DepositError::NothingToCapitalize)
    } else {
        sum_or_overflow(principal, interest)
    }
}

/// The new principal after capitalising the accrued interest (which then
/// becomes zero): principal plus interest is unchanged.
pub fn capitalize(capitalization: bool, principal: Amount, interest: Amount) -> (r: Result<Amount, DepositError>)
    requires
        principal.wf(),
        interest.wf(),
    ensures
        r == capitalization_spec(capitalization, principal, interest),
        r matches Ok(x) ==> x.wf() && (add_fits(principal, interest) ==> x.units() == principal.units()
            + interest.units()),
        capitalization && interest.units() > 0 && add_fits(principal, interest) ==> r is Ok,
{
    if !capitalization {
        return Err(DepositError::CapitalizationNotSupported);
    }
    if !Amount::zero().less_than(&interest) {
        return Err(DepositError::NothingToCapitalize);
    }
    add_amounts(principal, interest)
}

/// Paying out the accrued interest needs interest above zero; it is added
/// to the interest paid so far.
pub open spec fn payout_spec(interest: Amount, paid: Amount) -> Result<Amount, DepositError> {
    if interest.units() <= 0 {
        Err(DepositError::NothingToPayOut)
    } else {
        sum_or_overflow(paid, interest)
    }
}

/// The interest paid so far after paying out the accrued interest (which
/// then becomes zero).
pub fn pay_out(interest: Amount, paid: Amount) -> (r: Result<Amount, DepositError>)
    requires
        interest.wf(),
        paid.wf(),
    ensures
        r == payout_spec(interest, paid),
        r matches Ok(x) ==> x.wf() && (add_fits(paid, interest) ==> x.units() == paid.units()
            + interest.units()),
        interest.units() > 0 && add_fits(paid, interest) ==> r is Ok,
{
    if !Amount::zero().less_than(&interest) {
        return Err(DepositError::NothingToPayOut);
    }
    add_amounts(paid, interest)
}

/// Capitalisation and pay-out both leave the accrued interest at zero; with
/// no interest above zero, neither goes through again.
pub proof fn lemma_no_interest_refused(capitalization: bool, principal: Amount, interest: Amount, paid: Amount)
    requires
        interest.units() <= 0,
    ensures
        capitalization ==> capitalization_spec(capitalization, principal, interest) == Err::<Amount, DepositError>(
            DepositError::NothingToCapitalize,
        ),
        payout_spec(interest, paid) == Err::<Amount, DepositError>(DepositError::NothingToPayOut),
{
}

/// A client account's balance after `amount` is credited to it.
pub fn credit_client(account_balance: Amount, amount: Amount) -> (r: Result<Amount, DepositError>)
    requires
        account_balance.wf(),
        amount.wf(),
    ensures
        r == sum_or_overflow(account_balance, amount),
        r matches Ok(x) ==> x.wf() && (add_fits(account_balance, amount) ==> x.units()
            == account_balance.units() + amount.units()),
        add_fits(account_balance, amount) ==> r is Ok,
{
    add_amounts(account_balance, amount)
}

/// Integer division rounding toward zero, as Rust divides.
pub open spec fn div_toward_zero(a: int, b: int) -> int {
    if a >= 0 {
        a / b
    } else {
        -((-a) / b)
    }
}

/// Whole days (of 86 400 seconds) between two Unix times, toward zero.
pub fn days_held(opened_at: i64, now: i64) -> (r: i64)
    requires
        i64::MIN <= now - opened_at <= i64::MAX,
    ensures
        r == div_toward_zero(now - opened_at, 86400),
{
    let held = now - opened_at;
    held / 86400
}

/// Interest on early termination: `principal * (rate / 100 / 365) * days`
/// rounded to two places, and principal plus that interest.
pub open spec fn early_termination_spec(principal: Amount, early_rate: Amount, days: i64) -> Result<(Amount, Amount), DepositError> {
    match decimal_checked_div(early_rate, Amount::spec_of(100, 0)) {
        None => Err(DepositError::Overflow),
        Some(per_unit) => match decimal_checked_div(per_unit, Amount::spec_of(365, 0)) {
            None => Err(DepositError::Overflow),
            Some(daily_rate) => match decimal_checked_mul(principal, daily_rate) {
                None => Err(DepositError::Overflow),
                Some(daily) => match decimal_checked_mul(daily, Amount::of_int(days as int)) {
                    None => Err(DepositError::Overflow),
                    Some(raw) => {
                        let interest = rounded(raw, 2);
                        match sum_or_overflow(principal, interest) {
                            Err(e) => Err(e),
                            Ok(total) => Ok((interest, total)),
                        }
                    },
                },
            },
        },
    }
}

/// The unrounded early-termination interest of two terminations of the same
/// deposit at the same rate, each `daily` times its days held, stands in the
/// ratio of the days held.
pub proof fn lemma_early_interest_proportional(daily: Amount, first: Amount, days1: int, second: Amount, days2: int)
    requires
        first.units() == daily.units() * days1,
        second.units() == daily.units() * days2,
    ensures
        first.units() * days2 == second.units() * days1,
{
    assert(first.units() * days2 == second.units() * days1) by (nonlinear_arith)
        requires
            first.units() == daily.units() * days1,
            second.units() == daily.units() * days2,
    ;
}

/// The interest earned on early termination after `days` days at the early
/// rate, and the total returned to the client: principal plus that interest.
/// No whole day held earns nothing.
pub fn early_termination(principal: Amount, early_rate: Amount, days: i64) -> (r: Result<(Amount, Amount), DepositError>)
    requires
        principal.wf(),
        early_rate.wf(),
    ensures
        r == early_termination_spec(principal, early_rate, days),
        r matches Ok(x) ==> x.0.wf() && x.1.wf() && x.0.scale <= 2,
        r matches Ok(x) ==> (add_fits(principal, x.0) ==> x.1.units() == principal.units() + x.0.units()),
        r matches Ok(x) ==> (days == 0 ==> x.0 == Amount::spec_of(0, 0) && x.1.units() == principal.units()),
        r matches Ok(x) ==> exists|raw: Amount|
            #![trigger rounded(raw, 2)]
            raw.wf() && x.0 == rounded(raw, 2) && (mul_fits(
                one_day_interest(principal, early_rate),
                Amount::of_int(days as int),
            ) ==> raw.units() == one_day_interest(principal, early_rate).units() * days),
{
    let hundred = Amount::new(100, 0);
    let year = Amount::new(365, 0);
    let per_unit = match early_rate.checked_div(&hundred) {
        Some(x) => x,
        None => return Err(DepositError::Overflow),
    };
    let daily_rate = match per_unit.checked_div(&year) {
        Some(x) => x,
        None => return Err(DepositError::Overflow),
    };
    let daily = match principal.checked_mul(&daily_rate) {
        Some(x) => x,
        None => return Err(DepositError::Overflow),
    };
    let held = Amount::from_i64(days);
    let raw = match daily.checked_mul(&held) {
        Some(x) => x,
        None => return Err(DepositError::Overflow),
    };
    let interest = raw.round_dp(2);
    proof {
        lemma_rounded_wf(raw, 2);
        if mul_fits(daily, held) {
            lemma_pow10_positive(28);
            let p = pow10(28) as int;
            assert(held.units() == days * p);
            let ru = raw.units();
            let du = daily.units();
            assert(ru == du * days) by (nonlinear_arith)
                requires
                    ru * p == du * (days * p),
                    p > 0,
            ;
        }
        if days == 0 {
            crate::interest::lemma_add_zero_fits(principal);
        }
    }
    let total = add_amounts(principal, interest)?;
    Ok((interest, total))
}

/// Rounding keeps an amount well formed.
pub proof fn lemma_rounded_wf(a: Amount, dp: nat)
    requires
        a.wf(),
        dp <= 28,
    ensures
        rounded(a, dp).wf(),
        rounded(a, dp).scale <= dp,
{
    if a.scale > dp {
        let p = pow10((a.scale - dp) as nat);
        lemma_pow10_positive((a.scale - dp) as nat);
        assert(p >= 10) by {
            reveal_with_fuel(pow10, 2);
            lemma_pow10_positive((a.scale - dp - 1) as nat);
        }
        let m = a.magnitude as nat;
        assert(m / p + 1 <= MAX_MAGNITUDE) by (nonlinear_arith)
            requires
                m <= MAX_MAGNITUDE,
                p >= 10,
        ;
    }
}

/// Closing pays the client principal plus accrued interest.
pub fn closing_total(principal: Amount, interest: Amount) -> (r: Result<Amount, DepositError>)
    requires
        principal.wf(),
        interest.wf(),
    ensures
        r == sum_or_overflow(principal, interest),
        r matches Ok(x) ==> x.wf() && (add_fits(principal, interest) ==> x.units() == principal.units()
            + interest.units()),
        add_fits(principal, interest) ==> r is Ok,
{
    add_amounts(principal, interest)
}

/// The balance-account prefix of a deposit product type.
pub open spec fn deposit_prefix_spec(product_type: Seq<char>) -> Seq<char> {
    if product_type == "savings"@ || product_type == "term"@ {
        "423"@
    } else if product_type == "accumulative"@ {
        "424"@
    } else {
        "423"@
    }
}

/// The currency part of a deposit or loan account number.
pub open spec fn short_currency_spec(currency: Seq<char>) -> Seq<char> {
    if currency == "RUB"@ {
        "810"@
    } else if currency == "USD"@ {
        "840"@
    } else if currency == "EUR"@ {
        "978"@
    } else {
        "810"@
    }
}

fn deposit_prefix(product_type: &str) -> (r: &'static str)
    ensures
        r@ == deposit_prefix_spec(product_type@),
{
    if text_eq(product_type, "savings") || text_eq(product_type, "term") {
        "423"
    } else if text_eq(product_type, "accumulative") {
        "424"
    } else {
        "423"
    }
}

/// The currency part of a deposit or loan account number.
pub fn short_currency(currency: &str) -> (r: &'static str)
    ensures
        r@ == short_currency_spec(currency@),
{
    if text_eq(currency, "RUB") {
        "810"
    } else if text_eq(currency, "USD") {
        "840"
    } else if text_eq(currency, "EUR") {
        "978"
    } else {
        "810"
    }
}

/// The deposit account number for a random draw.
pub fn deposit_account_number(currency: &str, product_type: &str, random: u64) -> (r: String)
    ensures
        r@ == numbered(deposit_prefix_spec(product_type@), short_currency_spec(currency@), random as nat),
        r@.len() == 15,
        all_digits(r@),
{
    proof {
        reveal_strlit("423");
        reveal_strlit("424");
        reveal_strlit("810");
        reveal_strlit("840");
        reveal_strlit("978");
        lemma_numbered_shape(
            deposit_prefix_spec(product_type@),
            short_currency_spec(currency@),
            random as nat,
        );
    }
    number_from_parts(deposit_prefix(product_type), short_currency(currency), random)
}

/// A new deposit account number: prefix, currency code and nine random
/// digits.
pub fn generate_deposit_account_number(currency: &str, product_type: &str) -> (r: String)
    ensures
        exists|x: u64| r@ == numbered(deposit_prefix_spec(product_type@), short_currency_spec(currency@), x as nat),
        r@.len() == 15,
        all_digits(r@),
{
    let x = random_u64();
    deposit_account_number(currency, product_type, x)
}

/// What opening a deposit takes from its request: deposit and client ids
/// are required, the amount must be a positive decimal, the rate a decimal
/// and the term a whole number of months.
pub open spec fn open_request_spec(
    deposit_id: Seq<char>,
    client_id: Seq<char>,
    amount: Seq<char>,
    annual_rate: Seq<char>,
    term_months: Seq<char>,
) -> Result<(Amount, Amount, u32), RequestError> {
    if deposit_id.len() == 0 || client_id.len() == 0 {
        Err(RequestError::InvalidArgument("deposit_id and client_id are required"))
    } else {
        match decimal_from_str(amount) {
            None => Err(RequestError::InvalidArgument("invalid amount")),
            Some(a) => if a.units() <= 0 {
                Err(RequestError::InvalidArgument("amount must be positive"))
            } else {
                match decimal_from_str(annual_rate) {
                    None => Err(RequestError::InvalidArgument("invalid annual_rate")),
                    Some(r) => match u32_from_str(term_months) {
                        None => Err(RequestError::InvalidArgument("invalid term_months")),
                        Some(t) => Ok((a, r, t)),
                    },
                }
            },
        }
    }
}

/// Validates a request to open a deposit; gives the amount, rate and term.
pub fn validate_open_deposit(
    deposit_id: &str,
    client_id: &str,
    amount: &str,
    annual_rate: &str,
    term_months: &str,
) -> (r: Result<(Amount, Amount, u32), RequestError>)
    ensures
        r == open_request_spec(deposit_id@, client_id@, amount@, annual_rate@, term_months@),
        r matches Ok(x) ==> x.0.wf() && x.1.wf() && x.0.units() > 0,
{
    if deposit_id.is_empty() || client_id.is_empty() {
        return Err(RequestError::InvalidArgument("deposit_id and client_id are required"));
    }
    let a = parse_positive_amount(amount, "invalid amount")?;
    let rate = parse_amount_field(annual_rate, "invalid annual_rate")?;
    let term = match parse_u32(term_months) {
        Some(t) => t,
        None => return Err(RequestError::InvalidArgument("invalid term_months")),
    };
    Ok((a, rate, term))
}

/// What prolonging a deposit takes from its request: a decimal rate and a
/// whole number of months.
pub open spec fn prolong_request_spec(new_annual_rate: Seq<char>, new_term_months: Seq<char>) -> Result<(Amount, u32), RequestError> {
    match decimal_from_str(new_annual_rate) {
        None => Err(RequestError::InvalidArgument("invalid new_annual_rate")),
        Some(r) => match u32_from_str(new_term_months) {
            None => Err(RequestError::InvalidArgument("invalid new_term_months")),
            Some(t) => Ok((r, t)),
        },
    }
}

/// Validates a request to prolong a deposit; gives the rate and term.
pub fn validate_prolong(new_annual_rate: &str, new_term_months: &str) -> (r: Result<(Amount, u32), RequestError>)
    ensures
        r == prolong_request_spec(new_annual_rate@, new_term_months@),
        r matches Ok(x) ==> x.0.wf(),
{
    let rate = parse_amount_field(new_annual_rate, "invalid new_annual_rate")?;
    let term = match parse_u32(new_term_months) {
        Some(t) => t,
        None => return Err(RequestError::InvalidArgument("invalid new_term_months")),
    };
    Ok((rate, term))
}

impl DepositAccountRecord {
    /// A newly opened deposit account: active, with no principal, interest
    /// or interest paid yet, updated when opened.
    pub fn opened(
        deposit_account_id: String,
        deposit_id: String,
        client_id: String,
        currency_code: String,
        account_number: String,
        annual_rate: String,
        term_months: u32,
        capitalization: bool,
        product_type: String,
        now: i64,
        maturity_date: String,
    ) -> (r: DepositAccountRecord)
        ensures
            r.deposit_account_id == deposit_account_id,
            r.deposit_id == deposit_id,
            r.client_id == client_id,
            r.currency_code == currency_code,
            r.account_number == account_number,
            r.principal_balance@ == "0.00"@,
            r.interest_accrued@ == "0.00"@,
            r.interest_paid@ == "0.00"@,
            r.annual_rate == annual_rate,
            r.term_months == term_months,
            r.capitalization == capitalization,
            r.product_type == product_type,
            r.status@ == "active"@,
            r.opened_at == now,
            r.maturity_date == maturity_date,
            r.updated_at == now,
    {
        DepositAccountRecord {
            deposit_account_id,
            deposit_id,
            client_id,
            currency_code,
            account_number,
            principal_balance: String::from_str("0.00"),
            interest_accrued: String::from_str("0.00"),
            interest_paid: String::from_str("0.00"),
            annual_rate,
            term_months,
            capitalization,
            product_type,
            status: String::from_str("active"),
            opened_at: now,
            maturity_date,
            updated_at: now,
        }
    }
}

/// The prefix of a deposit account number: 424 for accumulative deposits,
/// 423 for savings, term and any other deposits.
pub proof fn lemma_deposit_prefixes()
    ensures
        deposit_prefix_spec("savings"@) == "423"@,
        deposit_prefix_spec("term"@) == "423"@,
        deposit_prefix_spec("accumulative"@) == "424"@,
        forall|k: Seq<char>| k != "savings"@ && k != "term"@ && k != "accumulative"@ ==> #[trigger] deposit_prefix_spec(k) == "423"@,
{
    reveal_strlit("savings");
    reveal_strlit("term");
    reveal_strlit("accumulative");
    reveal_strlit("423");
    reveal_strlit("424");
    assert("savings"@.len() == 7);
    assert("term"@.len() == 4);
    assert("accumulative"@.len() == 12);
    assert("423"@.len() == 3);
    assert("424"@.len() == 3);
    assert("423"@[2] != "424"@[2]);
    assert("423"@ != "424"@);
}

/// The currency part of a deposit or loan account number: RUB 810, USD 840,
/// EUR 978, and 810 for any other currency.
pub proof fn lemma_short_currency_codes()
    ensures
        short_currency_spec("RUB"@) == "810"@,
        short_currency_spec("USD"@) == "840"@,
        short_currency_spec("EUR"@) == "978"@,
        forall|k: Seq<char>| k != "RUB"@ && k != "USD"@ && k != "EUR"@ ==> #[trigger] short_currency_spec(k) == "810"@,
{
    reveal_strlit("RUB");
    reveal_strlit("USD");
    reveal_strlit("EUR");
    reveal_strlit("810");
    reveal_strlit("840");
    reveal_strlit("978");
    assert("RUB"@.len() == 3);
    assert("USD"@.len() == 3);
    assert("EUR"@.len() == 3);
    assert("810"@.len() == 3);
    assert("840"@.len() == 3);
    assert("978"@.len() == 3);
    assert("RUB"@[0] != "USD"@[0]);
    assert("RUB"@ != "USD"@);
    assert("RUB"@[0] != "EUR"@[0]);
    assert("RUB"@ != "EUR"@);
    assert("RUB"@[0] != "810"@[0]);
    assert("RUB"@ != "810"@);
    assert("RUB"@[0] != "840"@[0]);
    assert("RUB"@ != "840"@);
    assert("RUB"@[0] != "978"@[0]);
    assert("RUB"@ != "978"@);
    assert("USD"@[0] != "EUR"@[0]);
    assert("USD"@ != "EUR"@);
    assert("USD"@[0] != "810"@[0]);
    assert("USD"@ != "810"@);
    assert("USD"@[0] != "840"@[0]);
    assert("USD"@ != "840"@);
    assert("USD"@[0] != "978"@[0]);
    assert("USD"@ != "978"@);
    assert("EUR"@[0] != "810"@[0]);
    assert("EUR"@ != "810"@);
    assert("EUR"@[0] != "840"@[0]);
    assert("EUR"@ != "840"@);
    assert("EUR"@[0] != "978"@[0]);
    assert("EUR"@ != "978"@);
    assert("810"@[1] != "840"@[1]);
    assert("810"@ != "840"@);
    assert("810"@[0] != "978"@[0]);
    assert("810"@ != "978"@);
    assert("840"@[0] != "978"@[0]);
    assert("840"@ != "978"@);
}

/// A top-up goes only to an active deposit: for a deposit of any other
/// status it is refused as not active.
pub proof fn lemma_top_up_needs_active_deposit(deposit_status: Seq<char>, deposit_currency: Seq<char>, currency: Seq<char>)
    ensures
        deposit_status != "active"@ ==> top_up_check_spec(deposit_status, deposit_currency, currency)
            == Err::<(), DepositError>(DepositError::DepositNotActive),
        top_up_check_spec(deposit_status, deposit_currency, currency) is Ok ==> deposit_status == "active"@
            && deposit_currency == currency,
{
}

} // verus!
