//! Loans: disbursement, repayment, overdue marking, provisions, and the
//! checks each of them makes.
use crate::decimal::{
    add_fits, decimal_checked_add, decimal_checked_mul, decimal_checked_sub, decimal_from_str,
    lemma_pow10_table, lemma_rounded_hundredths, lemma_rounded_hundredths_monotone, lemma_signed_of_units, mul_fits,
    pow10, rounded, sub_fits, Amount,
};
use crate::deposit::{short_currency, short_currency_spec};
use crate::numbering::{lemma_numbered_shape, number_from_parts, numbered, random_u64};
use crate::request::{parse_amount_field, RequestError};
use crate::text::{all_digits, text_eq};
use vstd::prelude::*;

verus! {

/// A loan account as stored.
#[derive(Debug, Clone)]
pub struct LoanAccountRecord {
    pub loan_account_id: String,
    pub loan_id: String,
    pub client_id: String,
    pub currency_code: String,
    pub account_number: String,
    pub principal_balance: String,
    pub interest_accrued: String,
    pub interest_overdue: String,
    pub principal_overdue: String,
    pub penalty_accrued: String,
    pub provision_amount: String,
    pub product_type: String,
    pub status: String,
    pub opened_at: i64,
    pub updated_at: i64,
}

/// Why a loan operation is refused.
#[derive(Debug, Clone, Copy, PartialEq, Eq)]
pub enum LoanError {
    LoanAccountClosed,
    LoanCurrencyMismatch,
    ClientAccountNotActive,
    ClientCurrencyMismatch,
    CurrencyMismatch,
    Overpayment,
    /// A decimal sum or difference does not fit in a decimal.
    Overflow,
}

impl LoanError {
    pub open spec fn message_spec(self) -> Seq<char> {
        match self {
            LoanError::LoanAccountClosed => "Loan account is closed"@,
            LoanError::LoanCurrencyMismatch => "Currency mismatch on loan account"@,
            LoanError::ClientAccountNotActive => "Client account is not active"@,
            LoanError::ClientCurrencyMismatch => "Currency mismatch on client account"@,
            LoanError::CurrencyMismatch => "Currency mismatch"@,
            LoanError::Overpayment => "Overpayment of principal"@,
            LoanError::Overflow => "Decimal overflow"@,
        }
    }

    /// The message stored with the refusal.
    pub fn message(&self) -> (r: &'static str)
        ensures
            r@ == self.message_spec(),
    {
        match self {
            LoanError::LoanAccountClosed => "Loan account is closed",
            LoanError::LoanCurrencyMismatch => "Currency mismatch on loan account",
            LoanError::ClientAccountNotActive => "Client account is not active",
            LoanError::ClientCurrencyMismatch => "Currency mismatch on client account",
            LoanError::CurrencyMismatch => "Currency mismatch",
            LoanError::Overpayment => "Overpayment of principal",
            LoanError::Overflow => "Decimal overflow",
        }
    }
}

/// A decimal sum as a loan result.
pub open spec fn loan_sum(a: Amount, b: Amount) -> Result<Amount, LoanError> {
    match decimal_checked_add(a, b) {
        Some(x) => Ok(x),
        None => Err(LoanError::Overflow),
    }
}

/// A decimal difference as a loan result.
pub open spec fn loan_difference(a: Amount, b: Amount) -> Result<Amount, LoanError> {
    match decimal_checked_sub(a, b) {
        Some(x) => Ok(x),
        None => Err(LoanError::Overflow),
    }
}

fn add_amounts(a: Amount, b: Amount) -> (r: Result<Amount, LoanError>)
    requires
        a.wf(),
        b.wf(),
    ensures
        r == loan_sum(a, b),
        r matches Ok(x) ==> x.wf() && (add_fits(a, b) ==> x.units() == a.units() + b.units()),
        add_fits(a, b) ==> r is Ok,
{
    match a.checked_add(&b) {
        Some(x) => Ok(x),
        None => Err(LoanError::Overflow),
    }
}

fn sub_amounts(a: Amount, b: Amount) -> (r: Result<Amount, LoanError>)
    requires
        a.wf(),
        b.wf(),
    ensures
        r == loan_difference(a, b),
        r matches Ok(x) ==> x.wf() && (sub_fits(a, b) ==> x.units() == a.units() - b.units()),
        sub_fits(a, b) ==> r is Ok,
{
    match a.checked_sub(&b) {
        Some(x) => Ok(x),
        None => Err(LoanError::Overflow),
    }
}

/// A loan account takes a disbursement unless closed, in its own currency.
pub open spec fn loan_disbursement_check(status: Seq<char>, loan_currency: Seq<char>, currency: Seq<char>) -> Result<(), LoanError> {
    if status == "closed"@ {
        Err(LoanError::LoanAccountClosed)
    } else if loan_currency != currency {
        Err(LoanError::LoanCurrencyMismatch)
    } else {
        Ok(())
    }
}

/// Checks the loan account before a disbursement.
pub fn check_loan_for_disbursement(status: &str, loan_currency: &str, currency: &str) -> (r: Result<(), LoanError>)
    ensures
        r == loan_disbursement_check(status@, loan_currency@, currency@),
{
    if text_eq(status, "closed") {
        return Err(LoanError::LoanAccountClosed);
    }
    if !text_eq(loan_currency, currency) {
        return Err(LoanError::LoanCurrencyMismatch);
    }
    Ok(())
}

/// The client account receiving a disbursement must be active and in the
/// loan's currency.
pub open spec fn client_disbursement_check(status: Seq<char>, account_currency: Seq<char>, currency: Seq<char>) -> Result<(), LoanError> {
    if status != "active"@ {
        Err(LoanError::ClientAccountNotActive)
    } else if account_currency != currency {
        Err(LoanError::ClientCurrencyMismatch)
    } else {
        Ok(())
    }
}

/// Checks the client account before a disbursement.
pub fn check_client_for_disbursement(status: &str, account_currency: &str, currency: &str) -> (r: Result<(), LoanError>)
    ensures
        r == client_disbursement_check(status@, account_currency@, currency@),
{
    if !text_eq(status, "active") {
        return Err(LoanError::ClientAccountNotActive);
    }
    if !text_eq(account_currency, currency) {
        return Err(LoanError::ClientCurrencyMismatch);
    }
    Ok(())
}

/// A disbursement raises the loan's principal and credits the client.
pub open spec fn disbursement_spec(principal: Amount, account_balance: Amount, amount: Amount) -> Result<(Amount, Amount), LoanError> {
    match loan_sum(principal, amount) {
        Err(e) => Err(e),
        Ok(p) => match loan_sum(account_balance, amount) {
            Err(e) => Err(e),
            Ok(b) => Ok((p, b)),
        },
    }
}

/// The loan principal and client balance after disbursing `amount`: both
/// grow by exactly the amount.
pub fn disbursement_balances(principal: Amount, account_balance: Amount, amount: Amount) -> (r: Result<(Amount, Amount), LoanError>)
    requires
        principal.wf(),
        account_balance.wf(),
        amount.wf(),
    ensures
        r == disbursement_spec(principal, account_balance, amount),
        r matches Ok(x) ==> x.0.wf() && x.1.wf(),
        r matches Ok(x) ==> (add_fits(principal, amount) ==> x.0.units() == principal.units() + amount.units()),
        r matches Ok(x) ==> (add_fits(account_balance, amount) ==> x.1.units() == account_balance.units()
            + amount.units()),
        add_fits(principal, amount) && add_fits(account_balance, amount) ==> r is Ok,
{
    let p = add_amounts(principal, amount)?;
    let b = add_amounts(account_balance, amount)?;
    Ok((p, b))
}

/// The total of a repayment: principal, interest and penalty.
pub open spec fn repayment_total_spec(principal: Amount, interest: Amount, penalty: Amount) -> Result<Amount, LoanError> {
    match loan_sum(principal, interest) {
        Err(e) => Err(e),
        Ok(s) => loan_sum(s, penalty),
    }
}

/// The total a repayment takes from the client account.
pub fn repayment_total(principal: Amount, interest: Amount, penalty: Amount) -> (r: Result<Amount, LoanError>)
    requires
        principal.wf(),
        interest.wf(),
        penalty.wf(),
    ensures
        r == repayment_total_spec(principal, interest, penalty),
        r matches Ok(x) ==> x.wf(),
        add_fits(principal, interest) && add_fits(decimal_checked_add(principal, interest)->0, penalty) ==> r is Ok
            && r->Ok_0.units() == principal.units() + interest.units() + penalty.units(),
{
    let s = add_amounts(principal, interest)?;
    add_amounts(s, penalty)
}

/// A repayment, in the loan's currency, lowers principal, interest and
/// penalty by the parts paid; the principal may not go below zero.
pub open spec fn repayment_spec(
    loan_currency: Seq<char>,
    currency: Seq<char>,
    loan_principal: Amount,
    loan_interest: Amount,
    loan_penalty: Amount,
    principal: Amount,
    interest: Amount,
    penalty: Amount,
) -> Result<(Amount, Amount, Amount), LoanError> {
    if loan_currency != currency {
        Err(LoanError::CurrencyMismatch)
    } else {
        match loan_difference(loan_principal, principal) {
            Err(e) => Err(e),
            Ok(p) => match loan_difference(loan_interest, interest) {
                Err(e) => Err(e),
                Ok(i) => match loan_difference(loan_penalty, penalty) {
                    Err(e) => Err(e),
                    Ok(n) => if p.units() < 0 {
                        Err(LoanError::Overpayment)
                    } else {
                        Ok((p, i, n))
                    },
                },
            },
        }
    }
}

/// The loan's remaining principal, interest and penalty after a repayment.
/// The principal stays at or above zero and each part goes down by exactly
/// what was paid of it.
pub fn repayment_balances(
    loan_currency: &str,
    currency: &str,
    loan_principal: Amount,
    loan_interest: Amount,
    loan_penalty: Amount,
    principal: Amount,
    interest: Amount,
    penalty: Amount,
) -> (r: Result<(Amount, Amount, Amount), LoanError>)
    requires
        loan_principal.wf(),
        loan_interest.wf(),
        loan_penalty.wf(),
        principal.wf(),
        interest.wf(),
        penalty.wf(),
    ensures
        r == repayment_spec(
            loan_currency@,
            currency@,
            loan_principal,
            loan_interest,
            loan_penalty,
            principal,
            interest,
            penalty,
        ),
        r matches Ok(x) ==> x.0.wf() && x.1.wf() && x.2.wf() && x.0.units() >= 0,
        r matches Ok(x) ==> (sub_fits(loan_principal, principal) && sub_fits(loan_interest, interest) && sub_fits(
            loan_penalty,
            penalty,
        ) ==> x.0.units() == loan_principal.units() - principal.units() && x.1.units() == loan_interest.units()
            - interest.units() && x.2.units() == loan_penalty.units() - penalty.units()),
        loan_currency@ == currency@ && sub_fits(loan_principal, principal) && sub_fits(loan_interest, interest)
            && sub_fits(loan_penalty, penalty) && loan_principal.units() >= principal.units() ==> r is Ok,
{
    if !text_eq(loan_currency, currency) {
        return Err(LoanError::CurrencyMismatch);
    }
    let p = sub_amounts(loan_principal, principal)?;
    let i = sub_amounts(loan_interest, interest)?;
    let n = sub_amounts(loan_penalty, penalty)?;
    if p.less_than(&Amount::zero()) {
        return Err(LoanError::Overpayment);
    }
    Ok((p, i, n))
}

/// The client's balance after paying `total`; the repayment does not check
/// the balance covers it.
pub fn repayment_debit(account_balance: Amount, total: Amount) -> (r: Result<Amount, LoanError>)
    requires
        account_balance.wf(),
        total.wf(),
    ensures
        r == loan_difference(account_balance, total),
        r matches Ok(x) ==> x.wf() && (sub_fits(account_balance, total) ==> x.units() == account_balance.units()
            - total.units()),
        sub_fits(account_balance, total) ==> r is Ok,
{
    sub_amounts(account_balance, total)
}

/// Overdue amounts grow by the parts that fall overdue.
pub open spec fn overdue_spec(principal_overdue: Amount, interest_overdue: Amount, principal: Amount, interest: Amount) -> Result<(Amount, Amount), LoanError> {
    match loan_sum(principal_overdue, principal) {
        Err(e) => Err(e),
        Ok(p) => match loan_sum(interest_overdue, interest) {
            Err(e) => Err(e),
            Ok(i) => Ok((p, i)),
        },
    }
}

/// The overdue principal and interest after marking parts overdue.
pub fn overdue_balances(principal_overdue: Amount, interest_overdue: Amount, principal: Amount, interest: Amount) -> (r: Result<(Amount, Amount), LoanError>)
    requires
        principal_overdue.wf(),
        interest_overdue.wf(),
        principal.wf(),
        interest.wf(),
    ensures
        r == overdue_spec(principal_overdue, interest_overdue, principal, interest),
        r matches Ok(x) ==> x.0.wf() && x.1.wf(),
        r matches Ok(x) ==> (add_fits(principal_overdue, principal) ==> x.0.units() == principal_overdue.units()
            + principal.units()),
        r matches Ok(x) ==> (add_fits(interest_overdue, interest) ==> x.1.units() == interest_overdue.units()
            + interest.units()),
        add_fits(principal_overdue, principal) && add_fits(interest_overdue, interest) ==> r is Ok,
{
    let p = add_amounts(principal_overdue, principal)?;
    let i = add_amounts(interest_overdue, interest)?;
    Ok((p, i))
}

/// The provisioning coefficient of a loan quality category: none for
/// standard (and unknown) loans, 10% substandard, 50% doubtful, 100% bad.
pub open spec fn provision_coefficient_spec(category: Seq<char>) -> Amount {
    if category == "standard"@ {
        Amount::spec_of(0, 1)
    } else if category == "substandard"@ {
        Amount::spec_of(10, 2)
    } else if category == "doubtful"@ {
        Amount::spec_of(50, 2)
    } else if category == "bad"@ {
        Amount::spec_of(10, 1)
    } else {
        Amount::spec_of(0, 1)
    }
}

/// The provisioning coefficient of a category.
pub fn provision_coefficient(category: &str) -> (r: Amount)
    ensures
        r == provision_coefficient_spec(category@),
        r.wf(),
{
    if text_eq(category, "standard") {
        Amount::new(0, 1)
    } else if text_eq(category, "substandard") {
        Amount::new(10, 2)
    } else if text_eq(category, "doubtful") {
        Amount::new(50, 2)
    } else if text_eq(category, "bad") {
        Amount::new(10, 1)
    } else {
        Amount::new(0, 1)
    }
}

/// The provision: the coefficient times principal plus overdue principal
/// and interest, rounded to two places.
pub open spec fn provision_spec(principal: Amount, principal_overdue: Amount, interest_overdue: Amount, category: Seq<char>) -> Result<Amount, LoanError> {
    match loan_sum(principal, principal_overdue) {
        Err(e) => Err(e),
        Ok(s) => match loan_sum(s, interest_overdue) {
            Err(e) => Err(e),
            Ok(total) => match decimal_checked_mul(total, provision_coefficient_spec(category)) {
                None => Err(LoanError::Overflow),
                Some(raw) => Ok(rounded(raw, 2)),
            },
        },
    }
}

/// The exposure a provision is taken on: principal plus overdue principal
/// and interest, as the decimal sums give it.
pub open spec fn provision_total(principal: Amount, principal_overdue: Amount, interest_overdue: Amount) -> Amount {
    decimal_checked_add(decimal_checked_add(principal, principal_overdue)->0, interest_overdue)->0
}

/// The exposure times the category's coefficient, before rounding.
pub open spec fn provision_raw(
    principal: Amount,
    principal_overdue: Amount,
    interest_overdue: Amount,
    category: Seq<char>,
) -> Amount {
    decimal_checked_mul(
        provision_total(principal, principal_overdue, interest_overdue),
        provision_coefficient_spec(category),
    )->0
}

/// Provisions grow with the category: none for standard loans, then
/// substandard, doubtful and bad, whose provision is the whole exposure
/// rounded to two places.  Stated on the exact products of a non-negative
/// exposure by each coefficient.
pub proof fn lemma_provisions_ordered(total: Amount, substandard: Amount, doubtful: Amount, bad: Amount)
    requires
        total.wf(),
        substandard.wf(),
        doubtful.wf(),
        bad.wf(),
        total.units() >= 0,
        substandard.units() * pow10(28) == total.units() * provision_coefficient_spec("substandard"@).units(),
        doubtful.units() * pow10(28) == total.units() * provision_coefficient_spec("doubtful"@).units(),
        bad.units() * pow10(28) == total.units() * provision_coefficient_spec("bad"@).units(),
    ensures
        provision_coefficient_spec("standard"@).magnitude == 0,
        0 <= rounded(substandard, 2).units(),
        rounded(substandard, 2).units() <= rounded(doubtful, 2).units(),
        rounded(doubtful, 2).units() <= rounded(bad, 2).units(),
        rounded(bad, 2).units() == rounded(total, 2).units(),
{
    reveal_strlit("standard");
    reveal_strlit("substandard");
    reveal_strlit("doubtful");
    reveal_strlit("bad");
    assert("standard"@ != "substandard"@) by {
        assert("standard"@[1] != "substandard"@[1]);
    }
    assert("standard"@ != "doubtful"@) by {
        assert("standard"@[0] != "doubtful"@[0]);
    }
    assert("substandard"@ != "doubtful"@) by {
        assert("substandard"@[0] != "doubtful"@[0]);
    }
    assert("standard"@ != "bad"@) by {
        assert("standard"@[0] != "bad"@[0]);
    }
    assert("substandard"@ != "bad"@) by {
        assert("substandard"@[0] != "bad"@[0]);
    }
    assert("doubtful"@ != "bad"@) by {
        assert("doubtful"@[0] != "bad"@[0]);
    }
    lemma_pow10_table();
    let p = pow10(26) as int;
    let t = total.units();
    assert(provision_coefficient_spec("substandard"@).units() == 10 * p);
    assert(provision_coefficient_spec("doubtful"@).units() == 50 * p);
    assert(provision_coefficient_spec("bad"@).units() == 100 * p);
    assert(pow10(28) == 100 * p);
    let su = substandard.units();
    let du = doubtful.units();
    let bu = bad.units();
    assert(su * 10 == t && du * 2 == t && bu == t) by (nonlinear_arith)
        requires
            su * (100 * p) == t * (10 * p),
            du * (100 * p) == t * (50 * p),
            bu * (100 * p) == t * (100 * p),
            p > 0,
    ;
    assert(0 <= su <= du <= bu);
    lemma_signed_of_units(total);
    lemma_signed_of_units(substandard);
    lemma_signed_of_units(doubtful);
    lemma_signed_of_units(bad);
    lemma_rounded_hundredths(total);
    lemma_rounded_hundredths(substandard);
    lemma_rounded_hundredths(doubtful);
    lemma_rounded_hundredths(bad);
    lemma_rounded_hundredths_monotone(su, du);
    lemma_rounded_hundredths_monotone(du, bu);
}

/// The provision for a loan of this quality category.  Standard loans, and
/// loans of an unknown category, need none.
pub fn provision_amount(principal: Amount, principal_overdue: Amount, interest_overdue: Amount, category: &str) -> (r: Result<Amount, LoanError>)
    requires
        principal.wf(),
        principal_overdue.wf(),
        interest_overdue.wf(),
    ensures
        r == provision_spec(principal, principal_overdue, interest_overdue, category@),
        r matches Ok(x) ==> x.wf() && x.scale <= 2,
        r is Ok ==> provision_total(principal, principal_overdue, interest_overdue).wf() && (add_fits(
            principal,
            principal_overdue,
        ) && add_fits(decimal_checked_add(principal, principal_overdue)->0, interest_overdue) ==> provision_total(
            principal,
            principal_overdue,
            interest_overdue,
        ).units() == principal.units() + principal_overdue.units() + interest_overdue.units()),
        r is Ok ==> provision_raw(principal, principal_overdue, interest_overdue, category@).wf() && (mul_fits(
            provision_total(principal, principal_overdue, interest_overdue),
            provision_coefficient_spec(category@),
        ) ==> provision_raw(principal, principal_overdue, interest_overdue, category@).units() * pow10(28)
            == provision_total(principal, principal_overdue, interest_overdue).units()
            * provision_coefficient_spec(category@).units()),
        r matches Ok(x) ==> (provision_coefficient_spec(category@).magnitude == 0 ==> x == Amount::spec_of(0, 0)),
        add_fits(principal, principal_overdue) && add_fits(decimal_checked_add(principal, principal_overdue)->0, interest_overdue)
            && mul_fits(provision_total(principal, principal_overdue, interest_overdue), provision_coefficient_spec(category@))
            ==> r is Ok,
{
    let s = add_amounts(principal, principal_overdue)?;
    let total = add_amounts(s, interest_overdue)?;
    let coeff = provision_coefficient(category);
    let raw = match total.checked_mul(&coeff) {
        Some(x) => x,
        None => return Err(LoanError::Overflow),
    };
    proof {
        crate::deposit::lemma_rounded_wf(raw, 2);
    }
    Ok(raw.round_dp(2))
}

/// The balance-account prefix of a loan product type.
pub open spec fn loan_prefix_spec(product_type: Seq<char>) -> Seq<char> {
    if product_type == "consumer"@ {
        "455"@
    } else if product_type == "mortgage"@ {
        "456"@
    } else if product_type == "car"@ {
        "457"@
    } else if product_type == "micro"@ {
        "458"@
    } else {
        "459"@
    }
}

fn loan_prefix(product_type: &str) -> (r: &'static str)
    ensures
        r@ == loan_prefix_spec(product_type@),
{
    if text_eq(product_type, "consumer") {
        "455"
    } else if text_eq(product_type, "mortgage") {
        "456"
    } else if text_eq(product_type, "car") {
        "457"
    } else if text_eq(product_type, "micro") {
        "458"
    } else {
        "459"
    }
}

/// The loan account number for a random draw.
pub fn loan_account_number(currency: &str, product_type: &str, random: u64) -> (r: String)
    ensures
        r@ == numbered(loan_prefix_spec(product_type@), short_currency_spec(currency@), random as nat),
        r@.len() == 15,
        all_digits(r@),
{
    proof {
        reveal_strlit("455");
        reveal_strlit("456");
        reveal_strlit("457");
        reveal_strlit("458");
        reveal_strlit("459");
        reveal_strlit("810");
        reveal_strlit("840");
        reveal_strlit("978");
        lemma_numbered_shape(loan_prefix_spec(product_type@), short_currency_spec(currency@), random as nat);
    }
    number_from_parts(loan_prefix(product_type), short_currency(currency), random)
}

/// A new loan account number: prefix, currency code and nine random digits.
pub fn generate_loan_account_number(currency: &str, product_type: &str) -> (r: String)
    ensures
        exists|x: u64| r@ == numbered(loan_prefix_spec(product_type@), short_currency_spec(currency@), x as nat),
        r@.len() == 15,
        all_digits(r@),
{
    let x = random_u64();
    loan_account_number(currency, product_type, x)
}

/// Opening a loan account requires the loan and client ids.
pub fn validate_open_loan(loan_id: &str, client_id: &str) -> (r: Result<(), RequestError>)
    ensures
        r == (if loan_id@.len() == 0 || client_id@.len() == 0 {
            Err(RequestError::InvalidArgument("loan_id and client_id are required"))
        } else {
            Ok(())
        }),
{
    if loan_id.is_empty() || client_id.is_empty() {
        return Err(RequestError::InvalidArgument("loan_id and client_id are required"));
    }
    Ok(())
}

/// What a repayment takes from its request: three decimal parts.
pub open spec fn repay_request_spec(principal: Seq<char>, interest: Seq<char>, penalty: Seq<char>) -> Result<(Amount, Amount, Amount), RequestError> {
    match decimal_from_str(principal) {
        None => Err(RequestError::InvalidArgument("invalid principal_amount")),
        Some(p) => match decimal_from_str(interest) {
            None => Err(RequestError::InvalidArgument("invalid interest_amount")),
            Some(i) => match decimal_from_str(penalty) {
                None => Err(RequestError::InvalidArgument("invalid penalty_amount")),
                Some(n) => Ok((p, i, n)),
            },
        },
    }
}

/// Validates a repayment request; gives principal, interest and penalty.
pub fn validate_repayment(principal: &str, interest: &str, penalty: &str) -> (r: Result<(Amount, Amount, Amount), RequestError>)
    ensures
        r == repay_request_spec(principal@, interest@, penalty@),
        r matches Ok(x) ==> x.0.wf() && x.1.wf() && x.2.wf(),
{
    let p = parse_amount_field(principal, "invalid principal_amount")?;
    let i = parse_amount_field(interest, "invalid interest_amount")?;
    let n = parse_amount_field(penalty, "invalid penalty_amount")?;
    Ok((p, i, n))
}

/// What marking a loan overdue takes from its request: two decimal parts.
pub open spec fn overdue_request_spec(principal: Seq<char>, interest: Seq<char>) -> Result<(Amount, Amount), RequestError> {
    match decimal_from_str(principal) {
        None => Err(RequestError::InvalidArgument("invalid principal_overdue")),
        Some(p) => match decimal_from_str(interest) {
            None => Err(RequestError::InvalidArgument("invalid interest_overdue")),
            Some(i) => Ok((p, i)),
        },
    }
}

/// Validates a request to mark a loan overdue; gives principal and interest.
pub fn validate_overdue(principal: &str, interest: &str) -> (r: Result<(Amount, Amount), RequestError>)
    ensures
        r == overdue_request_spec(principal@, interest@),
        r matches Ok(x) ==> x.0.wf() && x.1.wf(),
{
    let p = parse_amount_field(principal, "invalid principal_overdue")?;
    let i = parse_amount_field(interest, "invalid interest_overdue")?;
    Ok((p, i))
}

impl LoanAccountRecord {
    /// A newly opened loan account: active, with every balance at zero.
    pub fn opened(
        loan_account_id: String,
        loan_id: String,
        client_id: String,
        currency_code: String,
        account_number: String,
        product_type: String,
        now: i64,
    ) -> (r: LoanAccountRecord)
        ensures
            r.loan_account_id == loan_account_id,
            r.loan_id == loan_id,
            r.client_id == client_id,
            r.currency_code == currency_code,
            r.account_number == account_number,
            r.principal_balance@ == "0.00"@,
            r.interest_accrued@ == "0.00"@,
            r.interest_overdue@ == "0.00"@,
            r.principal_overdue@ == "0.00"@,
            r.penalty_accrued@ == "0.00"@,
            r.provision_amount@ == "0.00"@,
            r.product_type == product_type,
            r.status@ == "active"@,
            r.opened_at == now,
            r.updated_at == now,
    {
        LoanAccountRecord {
            loan_account_id,
            loan_id,
            client_id,
            currency_code,
            account_number,
            principal_balance: String::from_str("0.00"),
            interest_accrued: String::from_str("0.00"),
            interest_overdue: String::from_str("0.00"),
            principal_overdue: String::from_str("0.00"),
            penalty_accrued: String::from_str("0.00"),
            provision_amount: String::from_str("0.00"),
            product_type,
            status: String::from_str("active"),
            opened_at: now,
            updated_at: now,
        }
    }
}

/// The prefix of a loan account number: consumer 455, mortgage 456, car
/// 457, micro 458, and 459 for any other loan.
pub proof fn lemma_loan_prefixes()
    ensures
        loan_prefix_spec("consumer"@) == "455"@,
        loan_prefix_spec("mortgage"@) == "456"@,
        loan_prefix_spec("car"@) == "457"@,
        loan_prefix_spec("micro"@) == "458"@,
        forall|k: Seq<char>| k != "consumer"@ && k != "mortgage"@ && k != "car"@ && k != "micro"@ ==> #[trigger] loan_prefix_spec(k) == "459"@,
{
    reveal_strlit("consumer");
    reveal_strlit("mortgage");
    reveal_strlit("car");
    reveal_strlit("micro");
    reveal_strlit("455");
    reveal_strlit("456");
    reveal_strlit("457");
    reveal_strlit("458");
    reveal_strlit("459");
    assert("consumer"@.len() == 8);
    assert("mortgage"@.len() == 8);
    assert("car"@.len() == 3);
    assert("micro"@.len() == 5);
    assert("455"@.len() == 3);
    assert("456"@.len() == 3);
    assert("457"@.len() == 3);
    assert("458"@.len() == 3);
    assert("459"@.len() == 3);
    assert("consumer"@[0] != "mortgage"@[0]);
    assert("consumer"@ != "mortgage"@);
    assert("car"@[0] != "455"@[0]);
    assert("car"@ != "455"@);
    assert("car"@[0] != "456"@[0]);
    assert("car"@ != "456"@);
    assert("car"@[0] != "457"@[0]);
    assert("car"@ != "457"@);
    assert("car"@[0] != "458"@[0]);
    assert("car"@ != "458"@);
    assert("car"@[0] != "459"@[0]);
    assert("car"@ != "459"@);
    assert("455"@[2] != "456"@[2]);
    assert("455"@ != "456"@);
    assert("455"@[2] != "457"@[2]);
    assert("455"@ != "457"@);
    assert("455"@[2] != "458"@[2]);
    assert("455"@ != "458"@);
    assert("455"@[2] != "459"@[2]);
    assert("455"@ != "459"@);
    assert("456"@[2] != "457"@[2]);
    assert("456"@ != "457"@);
    assert("456"@[2] != "458"@[2]);
    assert("456"@ != "458"@);
    assert("456"@[2] != "459"@[2]);
    assert("456"@ != "459"@);
    assert("457"@[2] != "458"@[2]);
    assert("457"@ != "458"@);
    assert("457"@[2] != "459"@[2]);
    assert("457"@ != "459"@);
    assert("458"@[2] != "459"@[2]);
    assert("458"@ != "459"@);
}

/// The provisioning coefficient of a quality category: 10% for substandard,
/// 50% for doubtful, 100% for bad loans, and none for standard or any other
/// category.
pub proof fn lemma_provision_coefficients()
    ensures
        provision_coefficient_spec("standard"@) == Amount::spec_of(0, 1),
        provision_coefficient_spec("substandard"@) == Amount::spec_of(10, 2),
        provision_coefficient_spec("doubtful"@) == Amount::spec_of(50, 2),
        provision_coefficient_spec("bad"@) == Amount::spec_of(10, 1),
        forall|k: Seq<char>| k != "standard"@ && k != "substandard"@ && k != "doubtful"@ && k != "bad"@ ==> #[trigger] provision_coefficient_spec(k) == Amount::spec_of(0, 1),
{
    reveal_strlit("standard");
    reveal_strlit("substandard");
    reveal_strlit("doubtful");
    reveal_strlit("bad");
    assert("standard"@.len() == 8);
    assert("substandard"@.len() == 11);
    assert("doubtful"@.len() == 8);
    assert("bad"@.len() == 3);
    assert("standard"@[0] != "doubtful"@[0]);
    assert("standard"@ != "doubtful"@);
}

/// A disbursement never goes to a closed loan account, nor to a client
/// account that is not active.
pub proof fn lemma_disbursement_needs_open_accounts(status: Seq<char>, loan_currency: Seq<char>, currency: Seq<char>)
    ensures
        loan_disbursement_check("closed"@, loan_currency, currency) == Err::<(), LoanError>(
            LoanError::LoanAccountClosed,
        ),
        loan_disbursement_check(status, loan_currency, currency) is Ok ==> status != "closed"@ && loan_currency
            == currency,
        status != "active"@ ==> client_disbursement_check(status, loan_currency, currency) == Err::<(), LoanError>(
            LoanError::ClientAccountNotActive,
        ),
{
}

} // verus!
