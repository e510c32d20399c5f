//! What the product service answers, computed from its catalogue: account
//! numbers, eligibility with its conditions, and personal rate quotes.
use crate::decimal::{decimal_from_str, Amount};
use crate::product::cache::{ProductCache, ProductTermsData};
use crate::product::rules::{
    account_number_spec, balance_account_for, balance_account_spec, calculate_personal_rate, check_eligibility,
    discount_reasons, eligibility_spec, generate_account_number, personal_rate_spec,
};
use crate::request::RequestError;
use crate::text::{unsigned_text, unsigned_text_spec};
use vstd::prelude::*;

verus! {

/// The requested amount of a request: absent when empty, else a decimal.
pub open spec fn requested_amount_spec(text: Seq<char>) -> Result<Option<Amount>, RequestError> {
    if text.len() == 0 {
        Ok(None)
    } else {
        match decimal_from_str(text) {
            Some(a) => Ok(Some(a)),
            None => Err(RequestError::InvalidArgument("invalid requested_amount")),
        }
    }
}

/// Parses the optional requested amount of a request.
pub fn parse_requested_amount(text: &str) -> (r: Result<Option<Amount>, RequestError>)
    ensures
        r == requested_amount_spec(text@),
        r matches Ok(Some(a)) ==> a.wf(),
{
    if text.is_empty() {
        return Ok(None);
    }
    match Amount::parse(text) {
        Some(a) => Ok(Some(a)),
        None => Err(RequestError::InvalidArgument("invalid requested_amount")),
    }
}

/// The conditions shown with an eligible product: amount bounds, term
/// bounds and base rate.
pub open spec fn conditions_spec(terms: ProductTermsData) -> Seq<Seq<char>> {
    seq![
        "Минимальная сумма: "@ + terms.min_amount@,
        "Максимальная сумма: "@ + terms.max_amount@,
        "Срок: от "@ + unsigned_text_spec(terms.min_term_months as nat) + " до "@ + unsigned_text_spec(
            terms.max_term_months as nat,
        ) + " мес."@,
        "Базовая ставка: "@ + terms.base_rate@ + "%"@,
    ]
}

/// The conditions of a product's terms.
pub fn eligibility_conditions(terms: &ProductTermsData) -> (r: Vec<String>)
    ensures
        r@.len() == 4,
        forall|i: int| 0 <= i < 4 ==> #[trigger] r@[i]@ == conditions_spec(*terms)[i],
{
    let mut min = String::from_str("Минимальная сумма: ");
    min.append(terms.min_amount.as_str());
    let mut max = String::from_str("Максимальная сумма: ");
    max.append(terms.max_amount.as_str());
    let mut term = String::from_str("Срок: от ");
    term.append(unsigned_text(terms.min_term_months as u64).as_str());
    term.append(" до ");
    term.append(unsigned_text(terms.max_term_months as u64).as_str());
    term.append(" мес.");
    let mut rate = String::from_str("Базовая ставка: ");
    rate.append(terms.base_rate.as_str());
    rate.append("%");
    let mut r = Vec::new();
    r.push(min);
    r.push(max);
    r.push(term);
    r.push(rate);
    r
}

/// Answers an eligibility check: the product and its terms must be known
/// and the requested amount (if any) must parse; then the rules decide, and
/// an eligible product comes with its conditions.
pub fn check_product_eligibility(
    cache: &ProductCache,
    product_code: &str,
    client_status: &str,
    requested_amount: &str,
) -> (r: Result<(bool, String, Vec<String>), RequestError>)
    requires
        cache.wf(),
    ensures
        !cache.by_code().contains_key(product_code@) ==> r == Err::<(bool, String, Vec<String>), RequestError>(
            RequestError::NotFound("Product not found"),
        ),
        cache.by_code().contains_key(product_code@) && !cache.terms().contains_key(product_code@) ==> r == Err::<
            (bool, String, Vec<String>),
            RequestError,
        >(RequestError::NotFound("Terms not found")),
        cache.by_code().contains_key(product_code@) && cache.terms().contains_key(product_code@) ==> match requested_amount_spec(
            requested_amount@,
        ) {
            Err(e) => r == Err::<(bool, String, Vec<String>), RequestError>(e),
            Ok(a) => (r matches Ok(x) && (x.0, x.1@) == eligibility_spec(
                cache.by_code()[product_code@].product_type@,
                client_status@,
                a,
                cache.terms()[product_code@].min_amount@,
                cache.terms()[product_code@].max_amount@,
            ) && (x.0 ==> x.2@.len() == 4 && forall|i: int|
                0 <= i < 4 ==> #[trigger] x.2@[i]@ == conditions_spec(cache.terms()[product_code@])[i]) && (!x.0
                ==> x.2@.len() == 0)),
        },
{
    let product = match cache.get_product_by_code(product_code) {
        Some(p) => p,
        None => return Err(RequestError::NotFound("Product not found")),
    };
    let terms = match cache.get_terms(product_code) {
        Some(t) => t,
        None => return Err(RequestError::NotFound("Terms not found")),
    };
    let amount = parse_requested_amount(requested_amount)?;
    let (eligible, reason) = check_eligibility(product.product_type.as_str(), client_status, amount, terms);
    let conditions = if eligible {
        eligibility_conditions(terms)
    } else {
        Vec::new()
    };
    Ok((eligible, reason, conditions))
}

/// The client category a quote uses: "standard" when none is given.
pub open spec fn effective_category(category: Seq<char>) -> Seq<char> {
    if category.len() == 0 {
        "standard"@
    } else {
        category
    }
}

/// Answers a rate quote: the base rate from the product's terms and the
/// client's personal rate with the reasons for its discounts.
pub fn rate_quote(
    cache: &ProductCache,
    product_code: &str,
    requested_amount: &str,
    client_category: &str,
) -> (r: Result<(Amount, Amount, String), RequestError>)
    requires
        cache.wf(),
    ensures
        !cache.terms().contains_key(product_code@) ==> r == Err::<(Amount, Amount, String), RequestError>(
            RequestError::NotFound("Terms not found"),
        ),
        cache.terms().contains_key(product_code@) && decimal_from_str(cache.terms()[product_code@].base_rate@) is None
            ==> r == Err::<(Amount, Amount, String), RequestError>(RequestError::Internal("invalid base_rate in cache")),
        cache.terms().contains_key(product_code@) && decimal_from_str(cache.terms()[product_code@].base_rate@) is Some
            ==> match requested_amount_spec(requested_amount@) {
            Err(e) => r == Err::<(Amount, Amount, String), RequestError>(e),
            Ok(a) => match personal_rate_spec(
                decimal_from_str(cache.terms()[product_code@].base_rate@)->0,
                effective_category(client_category@),
                a,
            ) {
                None => r == Err::<(Amount, Amount, String), RequestError>(RequestError::Internal("decimal overflow")),
                Some(p) => (r matches Ok(x) && x.0 == decimal_from_str(cache.terms()[product_code@].base_rate@)->0
                    && x.1 == p && x.2@ == discount_reasons(effective_category(client_category@), a)),
            },
        },
{
    let terms = match cache.get_terms(product_code) {
        Some(t) => t,
        None => return Err(RequestError::NotFound("Terms not found")),
    };
    let base = match Amount::parse(terms.base_rate.as_str()) {
        Some(b) => b,
        None => return Err(RequestError::Internal("invalid base_rate in cache")),
    };
    let amount = parse_requested_amount(requested_amount)?;
    let category = if client_category.is_empty() {
        "standard"
    } else {
        client_category
    };
    match calculate_personal_rate(base, category, amount) {
        Some((rate, reason)) => Ok((base, rate, reason)),
        None => Err(RequestError::Internal("decimal overflow")),
    }
}

/// Answers an account-number request for a product: the number (from the
/// product's type, the currency and `seq`) and the balance account.
pub fn product_account_number(cache: &ProductCache, product_code: &str, currency_code: &str, seq: u64) -> (r: Result<(String, String), RequestError>)
    requires
        cache.wf(),
    ensures
        !cache.by_code().contains_key(product_code@) ==> r == Err::<(String, String), RequestError>(
            RequestError::NotFound("Product not found"),
        ),
        cache.by_code().contains_key(product_code@) ==> (r matches Ok(x) && x.0@ == account_number_spec(
            cache.by_code()[product_code@].product_type@,
            currency_code@,
            seq as nat,
        ) && x.1@ == balance_account_spec(cache.by_code()[product_code@].product_type@)),
{
    let product = match cache.get_product_by_code(product_code) {
        Some(p) => p,
        None => return Err(RequestError::NotFound("Product not found")),
    };
    let balance = String::from_str(balance_account_for(product.product_type.as_str()));
    let number = generate_account_number(product.product_type.as_str(), currency_code, seq);
    Ok((number, balance))
}

} // verus!
