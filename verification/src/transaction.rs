//! Postings to accounts: which operations credit or debit, the checks on a
//! posting request and the balance a posting leaves.
pub mod outbox_poller;

use crate::decimal::{
    add_fits, amount_text, decimal_checked_add, decimal_checked_sub, decimal_from_str, decimal_from_str_error,
    lemma_pow10_add, lemma_pow10_positive, max_scale, pow10, sub_fits, Amount, MAX_MAGNITUDE,
};
use crate::request::{parse_positive_amount, RequestError};
use crate::text::text_eq;
use vstd::prelude::*;

verus! {

/// A posted transaction as stored.
#[derive(Debug, Clone)]
pub struct TransactionRecord {
    pub account_id: String,
    pub transaction_id: String,
    pub operation_code: String,
    pub amount: String,
    pub currency_code: String,
    pub status: String,
    pub created_at: i64,
    pub description: Option<String>,
}

/// Operations that credit an account; every other operation debits it.
pub open spec fn is_credit_operation(op_code: Seq<char>) -> bool {
    op_code == "CASH_IN"@ || op_code == "TRANSFER_IN"@ || op_code == "INTEREST"@ || op_code == "SALARY"@
        || op_code == "REFUND"@
}

/// The direction of an operation: "credit" or "debit".
pub open spec fn direction_spec(op_code: Seq<char>) -> Seq<char> {
    if is_credit_operation(op_code) {
        "credit"@
    } else {
        "debit"@
    }
}

/// The operations a posting may carry.
pub open spec fn is_allowed_operation_spec(op_code: Seq<char>) -> bool {
    is_credit_operation(op_code) || op_code == "CASH_OUT"@ || op_code == "TRANSFER_OUT"@ || op_code == "FEE"@
        || op_code == "CARD_PAYMENT"@ || op_code == "LOAN_PAYMENT"@ || op_code == "FX_CONVERSION"@ || op_code
        == "HOLD"@
}

/// Whether an operation credits ("credit") or debits ("debit") an account;
/// unknown operations debit.
pub fn operation_direction(op_code: &str) -> (r: &'static str)
    ensures
        r@ == direction_spec(op_code@),
{
    if text_eq(op_code, "CASH_IN") || text_eq(op_code, "TRANSFER_IN") || text_eq(op_code, "INTEREST")
        || text_eq(op_code, "SALARY") || text_eq(op_code, "REFUND") {
        "credit"
    } else {
        "debit"
    }
}

/// Whether a posting may carry this operation.
pub fn is_allowed_operation(op_code: &str) -> (r: bool)
    ensures
        r == is_allowed_operation_spec(op_code@),
{
    text_eq(op_code, "CASH_IN") || text_eq(op_code, "TRANSFER_IN") || text_eq(op_code, "INTEREST") || text_eq(
        op_code,
        "SALARY",
    ) || text_eq(op_code, "REFUND") || text_eq(op_code, "CASH_OUT") || text_eq(op_code, "TRANSFER_OUT")
        || text_eq(op_code, "FEE") || text_eq(op_code, "CARD_PAYMENT") || text_eq(op_code, "LOAN_PAYMENT")
        || text_eq(op_code, "FX_CONVERSION") || text_eq(op_code, "HOLD")
}

/// What a posting takes from its request: an account id, a positive amount
/// and an allowed operation, whose direction follows.
pub open spec fn posting_request_spec(account_id: Seq<char>, amount: Seq<char>, op_code: Seq<char>) -> Result<(Amount, Seq<char>), RequestError> {
    if account_id.len() == 0 {
        Err(RequestError::InvalidArgument("account_id is required"))
    } else {
        match decimal_from_str(amount) {
            None => Err(RequestError::InvalidArgument("invalid amount")),
            Some(a) => if a.units() <= 0 {
                Err(RequestError::InvalidArgument("amount must be positive"))
            } else if !is_allowed_operation_spec(op_code) {
                Err(RequestError::InvalidArgument("invalid operation_code"))
            } else {
                Ok((a, direction_spec(op_code)))
            },
        }
    }
}

/// The operations a posting accepts are exactly CASH_IN, CASH_OUT,
/// TRANSFER_IN, TRANSFER_OUT, FEE, INTEREST, CARD_PAYMENT, LOAN_PAYMENT,
/// SALARY, REFUND, FX_CONVERSION and HOLD: with an account id and a
/// positive amount, each is accepted, CASH_IN, TRANSFER_IN, INTEREST, SALARY
/// and REFUND as credits and the others as debits; any other code is
/// refused.
pub proof fn lemma_allowed_operations(account_id: Seq<char>, amount: Seq<char>)
    requires
        account_id.len() > 0,
        decimal_from_str(amount) is Some,
        decimal_from_str(amount)->0.units() > 0,
    ensures
        posting_request_spec(account_id, amount, "CASH_IN"@) == Ok::<(Amount, Seq<char>), RequestError>((
            decimal_from_str(amount)->0,
            "credit"@,
        )),
        posting_request_spec(account_id, amount, "CASH_OUT"@) == Ok::<(Amount, Seq<char>), RequestError>((
            decimal_from_str(amount)->0,
            "debit"@,
        )),
        posting_request_spec(account_id, amount, "TRANSFER_IN"@) == Ok::<(Amount, Seq<char>), RequestError>((
            decimal_from_str(amount)->0,
            "credit"@,
        )),
        posting_request_spec(account_id, amount, "TRANSFER_OUT"@) == Ok::<(Amount, Seq<char>), RequestError>((
            decimal_from_str(amount)->0,
            "debit"@,
        )),
        posting_request_spec(account_id, amount, "FEE"@) == Ok::<(Amount, Seq<char>), RequestError>((
            decimal_from_str(amount)->0,
            "debit"@,
        )),
        posting_request_spec(account_id, amount, "INTEREST"@) == Ok::<(Amount, Seq<char>), RequestError>((
            decimal_from_str(amount)->0,
            "credit"@,
        )),
        posting_request_spec(account_id, amount, "CARD_PAYMENT"@) == Ok::<(Amount, Seq<char>), RequestError>((
            decimal_from_str(amount)->0,
            "debit"@,
        )),
        posting_request_spec(account_id, amount, "LOAN_PAYMENT"@) == Ok::<(Amount, Seq<char>), RequestError>((
            decimal_from_str(amount)->0,
            "debit"@,
        )),
        posting_request_spec(account_id, amount, "SALARY"@) == Ok::<(Amount, Seq<char>), RequestError>((
            decimal_from_str(amount)->0,
            "credit"@,
        )),
        posting_request_spec(account_id, amount, "REFUND"@) == Ok::<(Amount, Seq<char>), RequestError>((
            decimal_from_str(amount)->0,
            "credit"@,
        )),
        posting_request_spec(account_id, amount, "FX_CONVERSION"@) == Ok::<(Amount, Seq<char>), RequestError>((
            decimal_from_str(amount)->0,
            "debit"@,
        )),
        posting_request_spec(account_id, amount, "HOLD"@) == Ok::<(Amount, Seq<char>), RequestError>((
            decimal_from_str(amount)->0,
            "debit"@,
        )),
        forall|op: Seq<char>|
            op != "CASH_IN"@ && op != "CASH_OUT"@ && op != "TRANSFER_IN"@ && op != "TRANSFER_OUT"@ && op != "FEE"@ && op != "INTEREST"@ && op != "CARD_PAYMENT"@ && op != "LOAN_PAYMENT"@ && op != "SALARY"@ && op != "REFUND"@ && op != "FX_CONVERSION"@ && op != "HOLD"@ ==> #[trigger] posting_request_spec(account_id, amount, op)
                == Err::<(Amount, Seq<char>), RequestError>(RequestError::InvalidArgument("invalid operation_code")),
{
    reveal_strlit("CASH_IN");
    reveal_strlit("CASH_OUT");
    reveal_strlit("TRANSFER_IN");
    reveal_strlit("TRANSFER_OUT");
    reveal_strlit("FEE");
    reveal_strlit("INTEREST");
    reveal_strlit("CARD_PAYMENT");
    reveal_strlit("LOAN_PAYMENT");
    reveal_strlit("SALARY");
    reveal_strlit("REFUND");
    reveal_strlit("FX_CONVERSION");
    reveal_strlit("HOLD");
    reveal_strlit("credit");
    reveal_strlit("debit");
    assert("CASH_IN"@.len() == 7);
    assert("CASH_OUT"@.len() == 8);
    assert("TRANSFER_IN"@.len() == 11);
    assert("TRANSFER_OUT"@.len() == 12);
    assert("FEE"@.len() == 3);
    assert("INTEREST"@.len() == 8);
    assert("CARD_PAYMENT"@.len() == 12);
    assert("LOAN_PAYMENT"@.len() == 12);
    assert("SALARY"@.len() == 6);
    assert("REFUND"@.len() == 6);
    assert("FX_CONVERSION"@.len() == 13);
    assert("HOLD"@.len() == 4);
    assert("CASH_OUT"@[0] != "INTEREST"@[0]);
    assert("CASH_OUT"@ != "INTEREST"@);
}

/// Validates a posting request; gives the amount and the direction.
pub fn validate_posting(account_id: &str, amount: &str, op_code: &str) -> (r: Result<(Amount, &'static str), RequestError>)
    ensures
        r matches Ok(x) ==> posting_request_spec(account_id@, amount@, op_code@) == Ok::<(Amount, Seq<char>), RequestError>((x.0, x.1@)) && x.0.wf(),
        r matches Err(e) ==> posting_request_spec(account_id@, amount@, op_code@) == Err::<(Amount, Seq<char>), RequestError>(e),
{
    if account_id.is_empty() {
        return Err(RequestError::InvalidArgument("account_id is required"));
    }
    let a = parse_positive_amount(amount, "invalid amount")?;
    if !is_allowed_operation(op_code) {
        return Err(RequestError::InvalidArgument("invalid operation_code"));
    }
    Ok((a, operation_direction(op_code)))
}

/// Why a posting is refused.
#[derive(Debug, Clone, PartialEq, Eq)]
pub enum PostingError {
    CurrencyMismatch { account_currency: String, currency: String },
    InvalidBalance { detail: String },
    InsufficientFunds,
    UnknownDirection { direction: String },
    /// A decimal sum or difference does not fit in a decimal.
    Overflow,
}

impl PostingError {
    pub open spec fn message_spec(self) -> Seq<char> {
        match self {
            PostingError::CurrencyMismatch { account_currency, currency } => "Currency mismatch: account "@
                + account_currency@ + " vs tx "@ + currency@,
            PostingError::InvalidBalance { detail } => "Invalid balance: "@ + detail@,
            PostingError::InsufficientFunds => "Insufficient funds"@,
            PostingError::UnknownDirection { direction } => "Unknown direction: "@ + direction@,
            PostingError::Overflow => "Decimal overflow"@,
        }
    }

    /// The message stored with the refusal.
    pub fn message(&self) -> (r: String)
        ensures
            r@ == self.message_spec(),
    {
        match self {
            PostingError::CurrencyMismatch { account_currency, currency } => {
                let mut m = String::from_str("Currency mismatch: account ");
                m.append(account_currency.as_str());
                m.append(" vs tx ");
                m.append(currency.as_str());
                m
            },
            PostingError::InvalidBalance { detail } => {
                let mut m = String::from_str("Invalid balance: ");
                m.append(detail.as_str());
                m
            },
            PostingError::InsufficientFunds => String::from_str("Insufficient funds"),
            PostingError::UnknownDirection { direction } => {
                let mut m = String::from_str("Unknown direction: ");
                m.append(direction.as_str());
                m
            },
            PostingError::Overflow => String::from_str("Decimal overflow"),
        }
    }
}

/// The value a posting leaves: the balance plus the amount for a credit,
/// less it for a debit.
pub open spec fn posted_units(balance: Amount, direction: Seq<char>, amount: Amount) -> int {
    if direction == "credit"@ {
        balance.units() + amount.units()
    } else {
        balance.units() - amount.units()
    }
}

/// The result of a credit or debit on a parsed balance.
pub open spec fn posting_value(balance: Amount, direction: Seq<char>, amount: Amount) -> Result<Amount, PostingError> {
    if direction == "credit"@ {
        match decimal_checked_add(balance, amount) {
            Some(x) => Ok(x),
            None => Err(PostingError::Overflow),
        }
    } else if balance.units() < amount.units() {
        Err(PostingError::InsufficientFunds)
    } else {
        match decimal_checked_sub(balance, amount) {
            Some(x) => Ok(x),
            None => Err(PostingError::Overflow),
        }
    }
}

/// The exact result of a posting fits in a decimal.
pub open spec fn posting_fits(balance: Amount, direction: Seq<char>, amount: Amount) -> bool {
    if direction == "credit"@ {
        add_fits(balance, amount)
    } else {
        sub_fits(balance, amount)
    }
}

/// The new balance of an account after posting `amount` in `direction`.
/// The account must be in the posting's currency and its balance must
/// parse; a credit adds the amount; a debit needs the balance to cover it
/// and takes it off; any other direction is refused.
pub fn post_to_balance(
    balance_text: &str,
    account_currency: &str,
    currency: &str,
    amount: Amount,
    direction: &str,
) -> (r: Result<Amount, PostingError>)
    requires
        amount.wf(),
    ensures
        account_currency@ != currency@ ==> (r matches Err(PostingError::CurrencyMismatch { account_currency: a, currency: c })
            && a@ == account_currency@ && c@ == currency@),
        account_currency@ == currency@ && decimal_from_str(balance_text@) is None ==> (r matches Err(
            PostingError::InvalidBalance { detail },
        ) && detail@ == decimal_from_str_error(balance_text@)),
        account_currency@ == currency@ && decimal_from_str(balance_text@) is Some && (direction@ == "credit"@
            || direction@ == "debit"@) ==> r == posting_value(decimal_from_str(balance_text@)->0, direction@, amount),
        account_currency@ == currency@ && decimal_from_str(balance_text@) is Some && direction@ != "credit"@
            && direction@ != "debit"@ ==> (r matches Err(PostingError::UnknownDirection { direction: d }) && d@
            == direction@),
        r matches Ok(x) ==> x.wf() && (direction@ == "credit"@ || direction@ == "debit"@),
        r matches Ok(x) ==> (posting_fits(decimal_from_str(balance_text@)->0, direction@, amount) ==> x.scale
            <= max_scale(decimal_from_str(balance_text@)->0, amount)),
        r matches Ok(x) ==> (posting_fits(decimal_from_str(balance_text@)->0, direction@, amount) ==> x.units()
            == posted_units(decimal_from_str(balance_text@)->0, direction@, amount) && (direction@ == "debit"@
            ==> x.units() >= 0)),
        account_currency@ == currency@ && decimal_from_str(balance_text@) is Some && posting_fits(
            decimal_from_str(balance_text@)->0,
            direction@,
            amount,
        ) && (direction@ == "credit"@ || (direction@ == "debit"@ && decimal_from_str(balance_text@)->0.units()
            >= amount.units())) ==> r is Ok,
{
    proof {
        reveal_strlit("credit");
        reveal_strlit("debit");
        assert("credit"@[0] != "debit"@[0]);
    }
    if !text_eq(account_currency, currency) {
        return Err(
            PostingError::CurrencyMismatch {
                account_currency: String::from_str(account_currency),
                currency: String::from_str(currency),
            },
        );
    }
    let current = match Amount::parse(balance_text) {
        Some(b) => b,
        None => {
            return Err(PostingError::InvalidBalance { detail: Amount::parse_error_text(balance_text) });
        },
    };
    if text_eq(direction, "credit") {
        match current.checked_add(&amount) {
            Some(x) => Ok(x),
            None => Err(PostingError::Overflow),
        }
    } else if text_eq(direction, "debit") {
        if current.less_than(&amount) {
            return Err(PostingError::InsufficientFunds);
        }
        match current.checked_sub(&amount) {
            Some(x) => Ok(x),
            None => Err(PostingError::Overflow),
        }
    } else {
        Err(PostingError::UnknownDirection { direction: String::from_str(direction) })
    }
}

/// The direction that undoes a posting in `direction`.
pub open spec fn opposite_direction(direction: Seq<char>) -> Seq<char> {
    if direction == "credit"@ {
        "debit"@
    } else {
        "credit"@
    }
}

/// A posting of a positive amount on a non-negative balance, undone by a
/// posting of the same amount the other way on the balance it wrote as
/// text: the second posting goes through (the balance covers a debit and
/// the exact result fits) and gives back the balance the first started
/// from.  Stated where the first posting is exact; after a debit, where the
/// starting balance also fits at the scale both amounts share.
pub proof fn lemma_posting_round_trip(balance_text: Seq<char>, direction: Seq<char>, amount: Amount, first: Amount)
    requires
        decimal_from_str(balance_text) is Some,
        decimal_from_str(balance_text)->0.wf(),
        decimal_from_str(balance_text)->0.units() >= 0,
        amount.wf(),
        amount.units() > 0,
        direction == "credit"@ || direction == "debit"@,
        direction == "debit"@ ==> decimal_from_str(balance_text)->0.units() >= amount.units(),
        posting_fits(decimal_from_str(balance_text)->0, direction, amount),
        direction == "debit"@ ==> decimal_from_str(balance_text)->0.units() <= MAX_MAGNITUDE * pow10(
            (28 - max_scale(decimal_from_str(balance_text)->0, amount)) as nat,
        ),
        first.wf(),
        first.units() == posted_units(decimal_from_str(balance_text)->0, direction, amount),
        first.scale <= max_scale(decimal_from_str(balance_text)->0, amount),
        decimal_from_str(amount_text(first)) is Some,
        decimal_from_str(amount_text(first))->0.units() == first.units(),
        decimal_from_str(amount_text(first))->0.scale == first.scale,
    ensures
        posting_fits(decimal_from_str(amount_text(first))->0, opposite_direction(direction), amount),
        opposite_direction(direction) == "debit"@ ==> decimal_from_str(amount_text(first))->0.units()
            >= amount.units(),
        posted_units(decimal_from_str(amount_text(first))->0, opposite_direction(direction), amount)
            == decimal_from_str(balance_text)->0.units(),
{
    reveal_strlit("credit");
    reveal_strlit("debit");
    assert("credit"@ != "debit"@) by {
        assert("credit"@[0] != "debit"@[0]);
    }
    let b = decimal_from_str(balance_text)->0;
    let p2 = decimal_from_str(amount_text(first))->0;
    let s = max_scale(b, amount);
    let s2 = max_scale(p2, amount);
    assert(s2 <= s);
    lemma_pow10_add((28 - s) as nat, (s - s2) as nat);
    lemma_pow10_positive((28 - s) as nat);
    lemma_pow10_positive((s - s2) as nat);
    let big = pow10((28 - s) as nat) as int;
    let small = pow10((28 - s2) as nat) as int;
    assert(small == big * pow10((s - s2) as nat));
    assert(MAX_MAGNITUDE * big <= MAX_MAGNITUDE * small) by (nonlinear_arith)
        requires
            small == big * pow10((s - s2) as nat),
            pow10((s - s2) as nat) >= 1,
            big > 0,
    ;
}

/// The number of transactions a listing returns: the requested limit,
/// kept between 1 and 1000.
pub fn clamp_limit(limit: i32) -> (r: i64)
    ensures
        r == (if limit < 1 {
            1
        } else if limit > 1000 {
            1000
        } else {
            limit as int
        }),
{
    if limit < 1 {
        1
    } else if limit > 1000 {
        1000
    } else {
        limit as i64
    }
}

} // verus!
