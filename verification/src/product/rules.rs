//! Product rules: balance accounts, currency codes, account numbers,
//! eligibility and personal rates.
use crate::decimal::{
    amount_text, decimal_checked_sub, decimal_from_str, lemma_pow10_add, lemma_pow10_positive, lemma_pow10_table,
    pow10, rounded, Amount,
};
use crate::product::cache::ProductTermsData;
use crate::text::{all_digits, lemma_padded_digits_shape, padded_decimal, padded_digits, text_eq};
use vstd::prelude::*;

verus! {

/// The balance account (chart-of-accounts prefix) of a product type.
pub open spec fn balance_account_spec(product_type: Seq<char>) -> Seq<char> {
    if product_type == "current"@ {
        "40817"@
    } else if product_type == "deposit"@ {
        "42307"@
    } else if product_type == "loan"@ {
        "455"@
    } else if product_type == "card"@ {
        "40817"@
    } else {
        "40817"@
    }
}

/// The three-digit numeric code of a currency; unknown currencies count as
/// roubles.
pub open spec fn currency_code_3_spec(currency: Seq<char>) -> Seq<char> {
    if currency == "RUB"@ {
        "810"@
    } else if currency == "USD"@ {
        "840"@
    } else if currency == "EUR"@ {
        "978"@
    } else if currency == "CNY"@ {
        "156"@
    } else if currency == "KZT"@ {
        "398"@
    } else if currency == "GBP"@ {
        "826"@
    } else if currency == "JPY"@ {
        "392"@
    } else if currency == "CHF"@ {
        "756"@
    } else {
        "810"@
    }
}

/// Balance accounts by product type.
pub fn balance_account_for(product_type: &str) -> (r: &'static str)
    ensures
        r@ == balance_account_spec(product_type@),
{
    if text_eq(product_type, "current") {
        "40817"
    } else if text_eq(product_type, "deposit") {
        "42307"
    } else if text_eq(product_type, "loan") {
        "455"
    } else if text_eq(product_type, "card") {
        "40817"
    } else {
        "40817"
    }
}

/// The currency code used inside an account number.
pub fn currency_code_3(currency: &str) -> (r: &'static str)
    ensures
        r@ == currency_code_3_spec(currency@),
{
    if text_eq(currency, "RUB") {
        "810"
    } else if text_eq(currency, "USD") {
        "840"
    } else if text_eq(currency, "EUR") {
        "978"
    } else if text_eq(currency, "CNY") {
        "156"
    } else if text_eq(currency, "KZT") {
        "398"
    } else if text_eq(currency, "GBP") {
        "826"
    } else if text_eq(currency, "JPY") {
        "392"
    } else if text_eq(currency, "CHF") {
        "756"
    } else {
        "810"
    }
}

/// The account number for a product type, currency and sequence number:
/// balance account, currency code, then the sequence number's lowest
/// twelve digits, zero padded.
pub open spec fn account_number_spec(product_type: Seq<char>, currency: Seq<char>, seq: nat) -> Seq<char> {
    balance_account_spec(product_type) + currency_code_3_spec(currency) + padded_digits(
        seq % 1_000_000_000_000,
        12,
    )
}

/// Builds an account number: balance account (5 digits), currency code
/// (3 digits) and 12 digits of the sequence number.
pub fn generate_account_number(product_type: &str, currency_code: &str, seq: u64) -> (r: String)
    ensures
        r@ == account_number_spec(product_type@, currency_code@, seq as nat),
{
    let balance = balance_account_for(product_type);
    let ccy = currency_code_3(currency_code);
    let seq_part = padded_decimal(seq % 1_000_000_000_000, 12);
    let mut r = String::from_str(balance);
    r.append(ccy);
    r.append(seq_part.as_str());
    r
}

/// An account number is made of digits only, and has 20 of them for every
/// product type but loans, whose three-digit balance account makes it 18.
pub proof fn lemma_account_number_shape(product_type: Seq<char>, currency: Seq<char>, seq: nat)
    ensures
        all_digits(account_number_spec(product_type, currency, seq)),
        account_number_spec(product_type, currency, seq).len() == (if product_type == "loan"@ {
            18int
        } else {
            20int
        }),
{
    reveal_strlit("40817");
    reveal_strlit("42307");
    reveal_strlit("455");
    reveal_strlit("810");
    reveal_strlit("840");
    reveal_strlit("978");
    reveal_strlit("156");
    reveal_strlit("398");
    reveal_strlit("826");
    reveal_strlit("392");
    reveal_strlit("756");
    reveal_strlit("current");
    reveal_strlit("deposit");
    reveal_strlit("loan");
    reveal_strlit("card");
    lemma_padded_digits_shape(seq % 1_000_000_000_000, 12);
    let b = balance_account_spec(product_type);
    let c = currency_code_3_spec(currency);
    let d = padded_digits(seq % 1_000_000_000_000, 12);
    assert(all_digits(b));
    assert(all_digits(c));
    assert(c.len() == 3);
    if product_type == "loan"@ {
        assert("loan"@.len() == 4);
        assert("current"@.len() == 7);
        assert("deposit"@.len() == 7);
        assert(b == "455"@);
    } else {
        assert(b.len() == 5);
    }
    assert(d.len() == 12);
    let s = b + c + d;
    assert forall|i: int| 0 <= i < s.len() implies '0' <= #[trigger] s[i] <= '9' by {
        if i < b.len() {
            assert(s[i] == b[i]);
        } else if i < b.len() + c.len() {
            assert(s[i] == c[i - b.len()]);
        } else {
            assert(s[i] == d[i - b.len() - c.len()]);
        }
    }
}

/// Whether a product of this type, for a client of this status and a
/// requested amount, may be opened; with the reason when it may not.
pub open spec fn eligibility_spec(
    product_type: Seq<char>,
    client_status: Seq<char>,
    requested_amount: Option<Amount>,
    min_amount: Seq<char>,
    max_amount: Seq<char>,
) -> (bool, Seq<char>) {
    let min = match decimal_from_str(min_amount) {
        Some(m) => m,
        None => Amount::spec_of(0, 0),
    };
    let max = match decimal_from_str(max_amount) {
        Some(m) => m,
        None => Amount::spec_of(0, 0),
    };
    if client_status != "active"@ {
        (false, "Client status is "@ + client_status + " (must be active)"@)
    } else if requested_amount is Some && requested_amount->0.units() < min.units() {
        (false, "Amount "@ + amount_text(requested_amount->0) + " is below minimum "@ + amount_text(min))
    } else if requested_amount is Some && requested_amount->0.units() > max.units() {
        (false, "Amount "@ + amount_text(requested_amount->0) + " exceeds maximum "@ + amount_text(max))
    } else if product_type == "current"@ || product_type == "deposit"@ || product_type == "loan"@
        || product_type == "card"@ {
        (true, Seq::empty())
    } else {
        (false, "Unknown product type: "@ + product_type)
    }
}

/// An active client is eligible for a current, deposit, loan or card
/// product, with an empty reason, whenever the requested amount (if any)
/// lies within the terms' minimum and maximum; a client who is not active,
/// or any other product type, is not eligible.
pub proof fn lemma_eligible_products(
    product_type: Seq<char>,
    client_status: Seq<char>,
    requested_amount: Option<Amount>,
    min_amount: Seq<char>,
    max_amount: Seq<char>,
)
    requires
        decimal_from_str(min_amount) is Some,
        decimal_from_str(max_amount) is Some,
        requested_amount matches Some(a) ==> decimal_from_str(min_amount)->0.units() <= a.units()
            <= decimal_from_str(max_amount)->0.units(),
    ensures
        client_status == "active"@ && (product_type == "current"@ || product_type == "deposit"@ || product_type
            == "loan"@ || product_type == "card"@) ==> eligibility_spec(
            product_type,
            client_status,
            requested_amount,
            min_amount,
            max_amount,
        ) == (true, Seq::<char>::empty()),
        client_status != "active"@ ==> !eligibility_spec(
            product_type,
            client_status,
            requested_amount,
            min_amount,
            max_amount,
        ).0,
        product_type != "current"@ && product_type != "deposit"@ && product_type != "loan"@ && product_type
            != "card"@ ==> !eligibility_spec(product_type, client_status, requested_amount, min_amount, max_amount).0,
{
}

/// Checks whether a product is available: the client must be active, the
/// requested amount (if any) within the terms' bounds (a bound that does not
/// parse counts as zero), and the product type known.
pub fn check_eligibility(
    product_type: &str,
    client_status: &str,
    requested_amount: Option<Amount>,
    terms: &ProductTermsData,
) -> (r: (bool, String))
    requires
        requested_amount matches Some(a) ==> a.wf(),
    ensures
        (r.0, r.1@) == eligibility_spec(
            product_type@,
            client_status@,
            requested_amount,
            terms.min_amount@,
            terms.max_amount@,
        ),
{
    if !text_eq(client_status, "active") {
        let mut m = String::from_str("Client status is ");
        m.append(client_status);
        m.append(" (must be active)");
        return (false, m);
    }
    if let Some(amount) = requested_amount {
        let min = match Amount::parse(terms.min_amount.as_str()) {
            Some(m) => m,
            None => Amount::zero(),
        };
        let max = match Amount::parse(terms.max_amount.as_str()) {
            Some(m) => m,
            None => Amount::zero(),
        };
        if amount.less_than(&min) {
            let mut m = String::from_str("Amount ");
            m.append(amount.to_text().as_str());
            m.append(" is below minimum ");
            m.append(min.to_text().as_str());
            return (false, m);
        }
        if max.less_than(&amount) {
            let mut m = String::from_str("Amount ");
            m.append(amount.to_text().as_str());
            m.append(" exceeds maximum ");
            m.append(max.to_text().as_str());
            return (false, m);
        }
    }
    if text_eq(product_type, "current") || text_eq(product_type, "deposit") || text_eq(
        product_type,
        "loan",
    ) || text_eq(product_type, "card") {
        let e = String::new();
        (true, e)
    } else {
        let mut m = String::from_str("Unknown product type: ");
        m.append(product_type);
        (false, m)
    }
}

/// The discount for a client category: 1.5 points for VIP, 0.75 for
/// premium clients.
pub open spec fn category_discount(category: Seq<char>) -> Option<Amount> {
    if category == "vip"@ {
        Some(Amount::spec_of(15, 1))
    } else if category == "premium"@ {
        Some(Amount::spec_of(75, 2))
    } else {
        None
    }
}

/// The discount for the requested amount: 0.5 points from 1 000 000,
/// 0.25 points from 500 000.
pub open spec fn amount_discount(amount: Option<Amount>) -> Option<Amount> {
    match amount {
        Some(a) => if a.units() >= 1000000 * pow10(28) {
            Some(Amount::spec_of(5, 1))
        } else if a.units() >= 500000 * pow10(28) {
            Some(Amount::spec_of(25, 2))
        } else {
            None
        },
        None => None,
    }
}

/// Takes an optional discount off an optional rate.
pub open spec fn less_discount(rate: Option<Amount>, discount: Option<Amount>) -> Option<Amount> {
    match rate {
        Some(r) => match discount {
            Some(d) => decimal_checked_sub(r, d),
            None => Some(r),
        },
        None => None,
    }
}

/// The lowest personal rate: 0.01.
pub open spec fn rate_floor() -> Amount {
    Amount::spec_of(1, 2)
}

/// The personal rate: base rate less the discounts, at least 0.01, rounded
/// to two places; `None` where a decimal subtraction overflows.
pub open spec fn personal_rate_spec(base_rate: Amount, category: Seq<char>, amount: Option<Amount>) -> Option<Amount> {
    let r = less_discount(less_discount(Some(base_rate), category_discount(category)), amount_discount(amount));
    match r {
        Some(x) => Some(
            rounded(
                if x.units() < rate_floor().units() {
                    rate_floor()
                } else {
                    x
                },
                2,
            ),
        ),
        None => None,
    }
}

/// The reasons shown for the discounts given, joined by "; ".
pub open spec fn discount_reasons(category: Seq<char>, amount: Option<Amount>) -> Seq<char> {
    let c = if category == "vip"@ {
        "VIP-клиент: -1.5%"@
    } else if category == "premium"@ {
        "Premium-клиент: -0.75%"@
    } else {
        Seq::empty()
    };
    let a = match amount_discount(amount) {
        Some(d) => if d == Amount::spec_of(5, 1) {
            "Крупная сумма: -0.5%"@
        } else {
            "Средняя сумма: -0.25%"@
        },
        None => Seq::empty(),
    };
    if c.len() > 0 && a.len() > 0 {
        c + "; "@ + a
    } else {
        c + a
    }
}

/// The personal rate for a client: the base rate, less 1.5 points for VIP
/// or 0.75 for premium clients, less 0.5 points for amounts from 1 000 000
/// or 0.25 from 500 000; never below 0.01; rounded to two places.  Returns
/// the rate and the reasons, or `None` where a decimal subtraction
/// overflows.
pub fn calculate_personal_rate(
    base_rate: Amount,
    client_category: &str,
    requested_amount: Option<Amount>,
) -> (r: Option<(Amount, String)>)
    requires
        base_rate.wf(),
        requested_amount matches Some(a) ==> a.wf(),
    ensures
        r is Some == personal_rate_spec(base_rate, client_category@, requested_amount) is Some,
        r matches Some(x) ==> Some(x.0) == personal_rate_spec(base_rate, client_category@, requested_amount)
            && x.1@ == discount_reasons(client_category@, requested_amount),
        r matches Some(x) ==> x.0.scale <= 2 && x.0.units() >= rate_floor().units(),
{
    proof {
        reveal_strlit("VIP-клиент: -1.5%");
        reveal_strlit("Premium-клиент: -0.75%");
        reveal_strlit("Крупная сумма: -0.5%");
        reveal_strlit("Средняя сумма: -0.25%");
    }
    let mut rate = base_rate;
    let mut cat_reason = String::new();
    if text_eq(client_category, "vip") {
        rate = rate.checked_sub(&Amount::new(15, 1))?;
        cat_reason = String::from_str("VIP-клиент: -1.5%");
    } else if text_eq(client_category, "premium") {
        rate = rate.checked_sub(&Amount::new(75, 2))?;
        cat_reason = String::from_str("Premium-клиент: -0.75%");
    }
    let ghost after_category = rate;
    assert(Some(after_category) == less_discount(Some(base_rate), category_discount(client_category@)));
    let mut amount_reason = String::new();
    if let Some(amount) = requested_amount {
        let million = Amount::new(1000000, 0);
        let half_million = Amount::new(500000, 0);
        proof {
            lemma_pow10_table();
        }
        assert(million.units() == 1000000 * pow10(28));
        assert(half_million.units() == 500000 * pow10(28));
        if !amount.less_than(&million) {
            rate = rate.checked_sub(&Amount::new(5, 1))?;
            amount_reason = String::from_str("Крупная сумма: -0.5%");
        } else if !amount.less_than(&half_million) {
            rate = rate.checked_sub(&Amount::new(25, 2))?;
            amount_reason = String::from_str("Средняя сумма: -0.25%");
        }
    }
    let floor = Amount::new(1, 2);
    if rate.less_than(&floor) {
        rate = floor;
    }
    proof {
        lemma_rounded_keeps_floor(rate);
    }
    let rate = rate.round_dp(2);
    let mut reasons = cat_reason;
    if reasons.as_str().unicode_len() > 0 && amount_reason.as_str().unicode_len() > 0 {
        reasons.append("; ");
    }
    reasons.append(amount_reason.as_str());
    Some((rate, reasons))
}

/// Rounding to two places keeps an amount of at least 0.01 at least 0.01.
proof fn lemma_rounded_keeps_floor(x: Amount)
    requires
        x.wf(),
        x.units() >= rate_floor().units(),
    ensures
        rounded(x, 2).units() >= rate_floor().units(),
        rounded(x, 2).scale <= 2,
{
    lemma_pow10_table();
    assert(rate_floor().magnitude == 1);
    assert(rate_floor().scale == 2);
    assert(rate_floor().signed() == 1);
    assert(rate_floor().units() == 1 * pow10(26));
    assert(rate_floor().units() == pow10(26));
    if x.scale > 2 {
        let s = x.scale as nat;
        let k = (s - 2) as nat;
        let e = (28 - s) as nat;
        lemma_pow10_add(e, k);
        assert(e + k == 26);
        lemma_pow10_positive(e);
        lemma_pow10_positive(k);
        let pe = pow10(e) as int;
        let pk = pow10(k) as int;
        let sg = x.signed();
        assert(sg * pe >= pe * pk);
        assert(sg >= pk) by (nonlinear_arith)
            requires
                sg * pe >= pe * pk,
                pe > 0,
        ;
        assert(!x.negative);
        let mag = x.magnitude as int;
        assert(mag / pk >= 1) by (nonlinear_arith)
            requires
                mag >= pk,
                pk > 0,
        ;
        let r = rounded(x, 2);
        assert(r.magnitude >= 1);
        assert(!r.negative);
        assert(r.units() == (r.magnitude as int) * pow10(26));
        assert((r.magnitude as int) * pow10(26) >= pow10(26)) by (nonlinear_arith)
            requires
                r.magnitude >= 1,
        ;
    }
}

/// The balance account of each product type: current and card accounts
/// 40817, deposits 42307, loans 455, and 40817 for any other type.
pub proof fn lemma_balance_accounts()
    ensures
        balance_account_spec("current"@) == "40817"@,
        balance_account_spec("deposit"@) == "42307"@,
        balance_account_spec("loan"@) == "455"@,
        balance_account_spec("card"@) == "40817"@,
        forall|k: Seq<char>| k != "current"@ && k != "deposit"@ && k != "loan"@ && k != "card"@ ==> #[trigger] balance_account_spec(k) == "40817"@,
{
    reveal_strlit("current");
    reveal_strlit("deposit");
    reveal_strlit("loan");
    reveal_strlit("card");
    reveal_strlit("40817");
    reveal_strlit("42307");
    reveal_strlit("455");
    assert("current"@.len() == 7);
    assert("deposit"@.len() == 7);
    assert("loan"@.len() == 4);
    assert("card"@.len() == 4);
    assert("40817"@.len() == 5);
    assert("42307"@.len() == 5);
    assert("455"@.len() == 3);
    assert("current"@[0] != "deposit"@[0]);
    assert("current"@ != "deposit"@);
    assert("loan"@[0] != "card"@[0]);
    assert("loan"@ != "card"@);
    assert("40817"@[1] != "42307"@[1]);
    assert("40817"@ != "42307"@);
}

/// The numeric code of each currency: RUB 810, USD 840, EUR 978, CNY 156,
/// KZT 398, GBP 826, JPY 392, CHF 756, and 810 for any other currency.
pub proof fn lemma_currency_codes()
    ensures
        currency_code_3_spec("RUB"@) == "810"@,
        currency_code_3_spec("USD"@) == "840"@,
        currency_code_3_spec("EUR"@) == "978"@,
        currency_code_3_spec("CNY"@) == "156"@,
        currency_code_3_spec("KZT"@) == "398"@,
        currency_code_3_spec("GBP"@) == "826"@,
        currency_code_3_spec("JPY"@) == "392"@,
        currency_code_3_spec("CHF"@) == "756"@,
        forall|k: Seq<char>| k != "RUB"@ && k != "USD"@ && k != "EUR"@ && k != "CNY"@ && k != "KZT"@ && k != "GBP"@ && k != "JPY"@ && k != "CHF"@ ==> #[trigger] currency_code_3_spec(k) == "810"@,
{
    reveal_strlit("RUB");
    reveal_strlit("USD");
    reveal_strlit("EUR");
    reveal_strlit("CNY");
    reveal_strlit("KZT");
    reveal_strlit("GBP");
    reveal_strlit("JPY");
    reveal_strlit("CHF");
    reveal_strlit("810");
    reveal_strlit("840");
    reveal_strlit("978");
    reveal_strlit("156");
    reveal_strlit("398");
    reveal_strlit("826");
    reveal_strlit("392");
    reveal_strlit("756");
    assert("RUB"@.len() == 3);
    assert("USD"@.len() == 3);
    assert("EUR"@.len() == 3);
    assert("CNY"@.len() == 3);
    assert("KZT"@.len() == 3);
    assert("GBP"@.len() == 3);
    assert("JPY"@.len() == 3);
    assert("CHF"@.len() == 3);
    assert("810"@.len() == 3);
    assert("840"@.len() == 3);
    assert("978"@.len() == 3);
    assert("156"@.len() == 3);
    assert("398"@.len() == 3);
    assert("826"@.len() == 3);
    assert("392"@.len() == 3);
    assert("756"@.len() == 3);
    assert("RUB"@[0] != "USD"@[0]);
    assert("RUB"@ != "USD"@);
    assert("RUB"@[0] != "EUR"@[0]);
    assert("RUB"@ != "EUR"@);
    assert("RUB"@[0] != "CNY"@[0]);
    assert("RUB"@ != "CNY"@);
    assert("RUB"@[0] != "KZT"@[0]);
    assert("RUB"@ != "KZT"@);
    assert("RUB"@[0] != "GBP"@[0]);
    assert("RUB"@ != "GBP"@);
    assert("RUB"@[0] != "JPY"@[0]);
    assert("RUB"@ != "JPY"@);
    assert("RUB"@[0] != "CHF"@[0]);
    assert("RUB"@ != "CHF"@);
    assert("RUB"@[0] != "810"@[0]);
    assert("RUB"@ != "810"@);
    assert("RUB"@[0] != "840"@[0]);
    assert("RUB"@ != "840"@);
    assert("RUB"@[0] != "978"@[0]);
    assert("RUB"@ != "978"@);
    assert("RUB"@[0] != "156"@[0]);
    assert("RUB"@ != "156"@);
    assert("RUB"@[0] != "398"@[0]);
    assert("RUB"@ != "398"@);
    assert("RUB"@[0] != "826"@[0]);
    assert("RUB"@ != "826"@);
    assert("RUB"@[0] != "392"@[0]);
    assert("RUB"@ != "392"@);
    assert("RUB"@[0] != "756"@[0]);
    assert("RUB"@ != "756"@);
    assert("USD"@[0] != "EUR"@[0]);
    assert("USD"@ != "EUR"@);
    assert("USD"@[0] != "CNY"@[0]);
    assert("USD"@ != "CNY"@);
    assert("USD"@[0] != "KZT"@[0]);
    assert("USD"@ != "KZT"@);
    assert("USD"@[0] != "GBP"@[0]);
    assert("USD"@ != "GBP"@);
    assert("USD"@[0] != "JPY"@[0]);
    assert("USD"@ != "JPY"@);
    assert("USD"@[0] != "CHF"@[0]);
    assert("USD"@ != "CHF"@);
    assert("USD"@[0] != "810"@[0]);
    assert("USD"@ != "810"@);
    assert("USD"@[0] != "840"@[0]);
    assert("USD"@ != "840"@);
    assert("USD"@[0] != "978"@[0]);
    assert("USD"@ != "978"@);
    assert("USD"@[0] != "156"@[0]);
    assert("USD"@ != "156"@);
    assert("USD"@[0] != "398"@[0]);
    assert("USD"@ != "398"@);
    assert("USD"@[0] != "826"@[0]);
    assert("USD"@ != "826"@);
    assert("USD"@[0] != "392"@[0]);
    assert("USD"@ != "392"@);
    assert("USD"@[0] != "756"@[0]);
    assert("USD"@ != "756"@);
    assert("EUR"@[0] != "CNY"@[0]);
    assert("EUR"@ != "CNY"@);
    assert("EUR"@[0] != "KZT"@[0]);
    assert("EUR"@ != "KZT"@);
    assert("EUR"@[0] != "GBP"@[0]);
    assert("EUR"@ != "GBP"@);
    assert("EUR"@[0] != "JPY"@[0]);
    assert("EUR"@ != "JPY"@);
    assert("EUR"@[0] != "CHF"@[0]);
    assert("EUR"@ != "CHF"@);
    assert("EUR"@[0] != "810"@[0]);
    assert("EUR"@ != "810"@);
    assert("EUR"@[0] != "840"@[0]);
    assert("EUR"@ != "840"@);
    assert("EUR"@[0] != "978"@[0]);
    assert("EUR"@ != "978"@);
    assert("EUR"@[0] != "156"@[0]);
    assert("EUR"@ != "156"@);
    assert("EUR"@[0] != "398"@[0]);
    assert("EUR"@ != "398"@);
    assert("EUR"@[0] != "826"@[0]);
    assert("EUR"@ != "826"@);
    assert("EUR"@[0] != "392"@[0]);
    assert("EUR"@ != "392"@);
    assert("EUR"@[0] != "756"@[0]);
    assert("EUR"@ != "756"@);
    assert("CNY"@[0] != "KZT"@[0]);
    assert("CNY"@ != "KZT"@);
    assert("CNY"@[0] != "GBP"@[0]);
    assert("CNY"@ != "GBP"@);
    assert("CNY"@[0] != "JPY"@[0]);
    assert("CNY"@ != "JPY"@);
    assert("CNY"@[1] != "CHF"@[1]);
    assert("CNY"@ != "CHF"@);
    assert("CNY"@[0] != "810"@[0]);
    assert("CNY"@ != "810"@);
    assert("CNY"@[0] != "840"@[0]);
    assert("CNY"@ != "840"@);
    assert("CNY"@[0] != "978"@[0]);
    assert("CNY"@ != "978"@);
    assert("CNY"@[0] != "156"@[0]);
    assert("CNY"@ != "156"@);
    assert("CNY"@[0] != "398"@[0]);
    assert("CNY"@ != "398"@);
    assert("CNY"@[0] != "826"@[0]);
    assert("CNY"@ != "826"@);
    assert("CNY"@[0] != "392"@[0]);
    assert("CNY"@ != "392"@);
    assert("CNY"@[0] != "756"@[0]);
    assert("CNY"@ != "756"@);
    assert("KZT"@[0] != "GBP"@[0]);
    assert("KZT"@ != "GBP"@);
    assert("KZT"@[0] != "JPY"@[0]);
    assert("KZT"@ != "JPY"@);
    assert("KZT"@[0] != "CHF"@[0]);
    assert("KZT"@ != "CHF"@);
    assert("KZT"@[0] != "810"@[0]);
    assert("KZT"@ != "810"@);
    assert("KZT"@[0] != "840"@[0]);
    assert("KZT"@ != "840"@);
    assert("KZT"@[0] != "978"@[0]);
    assert("KZT"@ != "978"@);
    assert("KZT"@[0] != "156"@[0]);
    assert("KZT"@ != "156"@);
    assert("KZT"@[0] != "398"@[0]);
    assert("KZT"@ != "398"@);
    assert("KZT"@[0] != "826"@[0]);
    assert("KZT"@ != "826"@);
    assert("KZT"@[0] != "392"@[0]);
    assert("KZT"@ != "392"@);
    assert("KZT"@[0] != "756"@[0]);
    assert("KZT"@ != "756"@);
    assert("GBP"@[0] != "JPY"@[0]);
    assert("GBP"@ != "JPY"@);
    assert("GBP"@[0] != "CHF"@[0]);
    assert("GBP"@ != "CHF"@);
    assert("GBP"@[0] != "810"@[0]);
    assert("GBP"@ != "810"@);
    assert("GBP"@[0] != "840"@[0]);
    assert("GBP"@ != "840"@);
    assert("GBP"@[0] != "978"@[0]);
    assert("GBP"@ != "978"@);
    assert("GBP"@[0] != "156"@[0]);
    assert("GBP"@ != "156"@);
    assert("GBP"@[0] != "398"@[0]);
    assert("GBP"@ != "398"@);
    assert("GBP"@[0] != "826"@[0]);
    assert("GBP"@ != "826"@);
    assert("GBP"@[0] != "392"@[0]);
    assert("GBP"@ != "392"@);
    assert("GBP"@[0] != "756"@[0]);
    assert("GBP"@ != "756"@);
    assert("JPY"@[0] != "CHF"@[0]);
    assert("JPY"@ != "CHF"@);
    assert("JPY"@[0] != "810"@[0]);
    assert("JPY"@ != "810"@);
    assert("JPY"@[0] != "840"@[0]);
    assert("JPY"@ != "840"@);
    assert("JPY"@[0] != "978"@[0]);
    assert("JPY"@ != "978"@);
    assert("JPY"@[0] != "156"@[0]);
    assert("JPY"@ != "156"@);
    assert("JPY"@[0] != "398"@[0]);
    assert("JPY"@ != "398"@);
    assert("JPY"@[0] != "826"@[0]);
    assert("JPY"@ != "826"@);
    assert("JPY"@[0] != "392"@[0]);
    assert("JPY"@ != "392"@);
    assert("JPY"@[0] != "756"@[0]);
    assert("JPY"@ != "756"@);
    assert("CHF"@[0] != "810"@[0]);
    assert("CHF"@ != "810"@);
    assert("CHF"@[0] != "840"@[0]);
    assert("CHF"@ != "840"@);
    assert("CHF"@[0] != "978"@[0]);
    assert("CHF"@ != "978"@);
    assert("CHF"@[0] != "156"@[0]);
    assert("CHF"@ != "156"@);
    assert("CHF"@[0] != "398"@[0]);
    assert("CHF"@ != "398"@);
    assert("CHF"@[0] != "826"@[0]);
    assert("CHF"@ != "826"@);
    assert("CHF"@[0] != "392"@[0]);
    assert("CHF"@ != "392"@);
    assert("CHF"@[0] != "756"@[0]);
    assert("CHF"@ != "756"@);
    assert("810"@[1] != "840"@[1]);
    assert("810"@ != "840"@);
    assert("810"@[0] != "978"@[0]);
    assert("810"@ != "978"@);
    assert("810"@[0] != "156"@[0]);
    assert("810"@ != "156"@);
    assert("810"@[0] != "398"@[0]);
    assert("810"@ != "398"@);
    assert("810"@[1] != "826"@[1]);
    assert("810"@ != "826"@);
    assert("810"@[0] != "392"@[0]);
    assert("810"@ != "392"@);
    assert("810"@[0] != "756"@[0]);
    assert("810"@ != "756"@);
    assert("840"@[0] != "978"@[0]);
    assert("840"@ != "978"@);
    assert("840"@[0] != "156"@[0]);
    assert("840"@ != "156"@);
    assert("840"@[0] != "398"@[0]);
    assert("840"@ != "398"@);
    assert("840"@[1] != "826"@[1]);
    assert("840"@ != "826"@);
    assert("840"@[0] != "392"@[0]);
    assert("840"@ != "392"@);
    assert("840"@[0] != "756"@[0]);
    assert("840"@ != "756"@);
    assert("978"@[0] != "156"@[0]);
    assert("978"@ != "156"@);
    assert("978"@[0] != "398"@[0]);
    assert("978"@ != "398"@);
    assert("978"@[0] != "826"@[0]);
    assert("978"@ != "826"@);
    assert("978"@[0] != "392"@[0]);
    assert("978"@ != "392"@);
    assert("978"@[0] != "756"@[0]);
    assert("978"@ != "756"@);
    assert("156"@[0] != "398"@[0]);
    assert("156"@ != "398"@);
    assert("156"@[0] != "826"@[0]);
    assert("156"@ != "826"@);
    assert("156"@[0] != "392"@[0]);
    assert("156"@ != "392"@);
    assert("156"@[0] != "756"@[0]);
    assert("156"@ != "756"@);
    assert("398"@[0] != "826"@[0]);
    assert("398"@ != "826"@);
    assert("398"@[2] != "392"@[2]);
    assert("398"@ != "392"@);
    assert("398"@[0] != "756"@[0]);
    assert("398"@ != "756"@);
    assert("826"@[0] != "392"@[0]);
    assert("826"@ != "392"@);
    assert("826"@[0] != "756"@[0]);
    assert("826"@ != "756"@);
    assert("392"@[0] != "756"@[0]);
    assert("392"@ != "756"@);
}

/// The discount of a client category: 1.5 points for VIP, 0.75 for
/// premium, none for any other category.
pub proof fn lemma_category_discounts()
    ensures
        category_discount("vip"@) == Some(Amount::spec_of(15, 1)),
        category_discount("premium"@) == Some(Amount::spec_of(75, 2)),
        forall|k: Seq<char>| k != "vip"@ && k != "premium"@ ==> #[trigger] category_discount(k) == None::<Amount>,
{
    reveal_strlit("vip");
    reveal_strlit("premium");
    assert("vip"@.len() == 3);
    assert("premium"@.len() == 7);
}

/// The amount discount: 0.5 points from 1 000 000, 0.25 points from 500 000
/// up to 1 000 000, none below 500 000 or without an amount; and no personal
/// rate goes below 0.01.
pub proof fn lemma_amount_discounts(a: Amount)
    ensures
        a.units() >= 1000000 * pow10(28) ==> amount_discount(Some(a)) == Some(Amount::spec_of(5, 1)),
        500000 * pow10(28) <= a.units() < 1000000 * pow10(28) ==> amount_discount(Some(a)) == Some(
            Amount::spec_of(25, 2),
        ),
        a.units() < 500000 * pow10(28) ==> amount_discount(Some(a)) == None::<Amount>,
        amount_discount(None) == None::<Amount>,
        rate_floor() == Amount::spec_of(1, 2),
{
}

} // verus!
