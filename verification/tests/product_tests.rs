use bank_core::decimal::Amount;
use bank_core::product::cache::{ProductCache, ProductData, ProductTermsData, TariffPlanData};
use bank_core::product::rules::{
    balance_account_for, calculate_personal_rate, check_eligibility, currency_code_3, generate_account_number,
};
use bank_core::product::service::{
    check_product_eligibility, eligibility_conditions, parse_requested_amount, product_account_number, rate_quote,
};
use bank_core::request::RequestError;

fn product(id: &str, code: &str, product_type: &str, currency: &str) -> ProductData {
    ProductData {
        product_id: id.to_string(),
        product_code: code.to_string(),
        product_name: format!("{} name", code),
        product_type: product_type.to_string(),
        currency_code: currency.to_string(),
        status: "active".to_string(),
        created_at: 1_700_000_000,
    }
}

fn terms(code: &str, min: &str, max: &str, rate: &str) -> ProductTermsData {
    ProductTermsData {
        product_code: code.to_string(),
        min_amount: min.to_string(),
        max_amount: max.to_string(),
        min_term_months: 3,
        max_term_months: 36,
        base_rate: rate.to_string(),
        early_termination_allowed: true,
        early_termination_penalty_days: 0,
        capitalization_allowed: true,
        top_up_allowed: true,
        min_balance: "0".to_string(),
    }
}

fn tariff(id: &str, code: &str) -> TariffPlanData {
    TariffPlanData {
        tariff_id: id.to_string(),
        product_code: code.to_string(),
        tariff_name: "basic".to_string(),
        monthly_fee: "0".to_string(),
        free_transactions_per_month: 10,
        over_limit_fee: "15".to_string(),
        grace_period_days: 0,
        cashback_percent: "1".to_string(),
    }
}

fn loaded_cache() -> ProductCache {
    let mut cache = ProductCache::new();
    cache.replace(
        vec![
            product("p3", "LOAN_CASH", "loan", "RUB"),
            product("p1", "DEP_SAVE", "deposit", "RUB"),
            product("p2", "DEP_USD", "deposit", "USD"),
        ],
        vec![terms("DEP_SAVE", "1000", "10000000", "10.5"), terms("LOAN_CASH", "10000", "5000000", "15")],
        vec![tariff("t1", "DEP_SAVE")],
    );
    cache
}

fn amount(text: &str) -> Amount {
    Amount::parse(text).unwrap()
}

#[test]
fn new_cache_is_empty() {
    let cache = ProductCache::new();
    assert_eq!(cache.products_count(), 0);
    assert_eq!(cache.terms_count(), 0);
    assert_eq!(cache.tariffs_count(), 0);
    assert!(cache.get_product_by_code("DEP_SAVE").is_none());
    assert!(cache.list_products("", "").is_empty());
}

#[test]
fn replace_indexes_by_code_and_id() {
    let cache = loaded_cache();
    assert_eq!(cache.products_count(), 3);
    assert_eq!(cache.terms_count(), 2);
    assert_eq!(cache.tariffs_count(), 1);
    assert_eq!(cache.get_product_by_code("DEP_USD").unwrap().product_id, "p2");
    assert_eq!(cache.get_product_by_id("p3").unwrap().product_code, "LOAN_CASH");
    assert_eq!(cache.get_terms("DEP_SAVE").unwrap().base_rate, "10.5");
    assert_eq!(cache.get_tariff("t1").unwrap().product_code, "DEP_SAVE");
    assert!(cache.get_terms("DEP_USD").is_none());
    assert!(cache.get_tariff("t2").is_none());
}

#[test]
fn replace_drops_what_was_loaded_before() {
    let mut cache = loaded_cache();
    cache.replace(vec![product("p9", "CARD", "card", "RUB")], vec![], vec![]);
    assert_eq!(cache.products_count(), 1);
    assert!(cache.get_product_by_code("DEP_SAVE").is_none());
    assert_eq!(cache.terms_count(), 0);
    assert_eq!(cache.tariffs_count(), 0);
}

#[test]
fn replace_keeps_the_last_item_with_a_code() {
    let mut cache = ProductCache::new();
    cache.replace(
        vec![product("a", "SAME", "deposit", "RUB"), product("b", "SAME", "loan", "USD")],
        vec![],
        vec![],
    );
    assert_eq!(cache.products_count(), 1);
    assert_eq!(cache.get_product_by_code("SAME").unwrap().product_id, "b");
    assert_eq!(cache.get_product_by_id("a").unwrap().product_type, "deposit");
}

#[test]
fn list_products_filters_and_sorts_by_code() {
    let cache = loaded_cache();
    let all: Vec<String> = cache.list_products("", "").into_iter().map(|p| p.product_code).collect();
    assert_eq!(all, vec!["DEP_SAVE", "DEP_USD", "LOAN_CASH"]);
    let deposits: Vec<String> = cache.list_products("deposit", "").into_iter().map(|p| p.product_code).collect();
    assert_eq!(deposits, vec!["DEP_SAVE", "DEP_USD"]);
    let usd: Vec<String> = cache.list_products("", "USD").into_iter().map(|p| p.product_code).collect();
    assert_eq!(usd, vec!["DEP_USD"]);
    assert!(cache.list_products("card", "RUB").is_empty());
}

#[test]
fn balance_accounts_by_product_type() {
    assert_eq!(balance_account_for("current"), "40817");
    assert_eq!(balance_account_for("deposit"), "42307");
    assert_eq!(balance_account_for("loan"), "455");
    assert_eq!(balance_account_for("card"), "40817");
    assert_eq!(balance_account_for("other"), "40817");
}

#[test]
fn currency_codes_for_account_numbers() {
    assert_eq!(currency_code_3("RUB"), "810");
    assert_eq!(currency_code_3("USD"), "840");
    assert_eq!(currency_code_3("EUR"), "978");
    assert_eq!(currency_code_3("CNY"), "156");
    assert_eq!(currency_code_3("KZT"), "398");
    assert_eq!(currency_code_3("GBP"), "826");
    assert_eq!(currency_code_3("JPY"), "392");
    assert_eq!(currency_code_3("CHF"), "756");
    assert_eq!(currency_code_3("XXX"), "810");
}

#[test]
fn account_number_has_twenty_digits() {
    let n = generate_account_number("deposit", "USD", 42);
    assert_eq!(n, "42307840000000000042");
    assert_eq!(n.len(), 20);
    assert!(n.chars().all(|c| c.is_ascii_digit()));
}

#[test]
fn account_number_keeps_twelve_sequence_digits() {
    assert_eq!(generate_account_number("current", "RUB", 1_234_567_890_123_456), "40817810567890123456");
}

#[test]
fn loan_account_number_is_eighteen_digits() {
    let n = generate_account_number("loan", "RUB", 7);
    assert_eq!(n, "455810000000000007");
    assert_eq!(n.len(), 18);
}

#[test]
fn eligibility_needs_an_active_client() {
    let t = terms("X", "100", "1000", "5");
    let (ok, reason) = check_eligibility("deposit", "blocked", None, &t);
    assert!(!ok);
    assert_eq!(reason, "Client status is blocked (must be active)");
}

#[test]
fn eligibility_checks_amount_bounds() {
    let t = terms("X", "100", "1000", "5");
    let (ok, reason) = check_eligibility("deposit", "active", Some(amount("50")), &t);
    assert!(!ok);
    assert_eq!(reason, "Amount 50 is below minimum 100");
    let (ok, reason) = check_eligibility("deposit", "active", Some(amount("2000.5")), &t);
    assert!(!ok);
    assert_eq!(reason, "Amount 2000.5 exceeds maximum 1000");
    let (ok, reason) = check_eligibility("deposit", "active", Some(amount("1000")), &t);
    assert!(ok);
    assert_eq!(reason, "");
}

#[test]
fn eligibility_bound_that_does_not_parse_counts_as_zero() {
    let t = terms("X", "n/a", "n/a", "5");
    let (ok, reason) = check_eligibility("loan", "active", Some(amount("1")), &t);
    assert!(!ok);
    assert_eq!(reason, "Amount 1 exceeds maximum 0");
}

#[test]
fn eligibility_rejects_unknown_product_type() {
    let t = terms("X", "100", "1000", "5");
    let (ok, reason) = check_eligibility("crypto", "active", None, &t);
    assert!(!ok);
    assert_eq!(reason, "Unknown product type: crypto");
    assert!(check_eligibility("card", "active", None, &t).0);
}

#[test]
fn personal_rate_for_vip_and_large_amount() {
    let (rate, reasons) = calculate_personal_rate(amount("10.5"), "vip", Some(amount("1000000"))).unwrap();
    assert_eq!(rate.to_text(), "8.5");
    assert_eq!(reasons, "VIP-клиент: -1.5%; Крупная сумма: -0.5%");
}

#[test]
fn personal_rate_for_premium_and_medium_amount() {
    let (rate, reasons) = calculate_personal_rate(amount("12.345"), "premium", Some(amount("500000"))).unwrap();
    assert_eq!(rate.to_text(), "11.34");
    assert_eq!(reasons, "Premium-клиент: -0.75%; Средняя сумма: -0.25%");
}

#[test]
fn personal_rate_without_discounts_is_the_base_rounded() {
    let (rate, reasons) = calculate_personal_rate(amount("7.777"), "standard", Some(amount("499999.99"))).unwrap();
    assert_eq!(rate.to_text(), "7.78");
    assert_eq!(reasons, "");
}

#[test]
fn personal_rate_never_goes_below_one_hundredth() {
    let (rate, reasons) = calculate_personal_rate(amount("1"), "vip", None).unwrap();
    assert_eq!(rate.to_text(), "0.01");
    assert_eq!(reasons, "VIP-клиент: -1.5%");
}

#[test]
fn requested_amount_is_optional() {
    assert_eq!(parse_requested_amount(""), Ok(None));
    assert_eq!(parse_requested_amount("15.5"), Ok(Some(amount("15.5"))));
    assert_eq!(parse_requested_amount("x"), Err(RequestError::InvalidArgument("invalid requested_amount")));
}

#[test]
fn eligible_product_comes_with_conditions() {
    let cache = loaded_cache();
    let (ok, reason, conditions) = check_product_eligibility(&cache, "DEP_SAVE", "active", "5000").unwrap();
    assert!(ok);
    assert_eq!(reason, "");
    assert_eq!(conditions, eligibility_conditions(cache.get_terms("DEP_SAVE").unwrap()));
    assert_eq!(
        conditions,
        vec![
            "Минимальная сумма: 1000",
            "Максимальная сумма: 10000000",
            "Срок: от 3 до 36 мес.",
            "Базовая ставка: 10.5%",
        ]
    );
}

#[test]
fn ineligible_product_has_no_conditions() {
    let cache = loaded_cache();
    let (ok, reason, conditions) = check_product_eligibility(&cache, "DEP_SAVE", "active", "10").unwrap();
    assert!(!ok);
    assert_eq!(reason, "Amount 10 is below minimum 1000");
    assert!(conditions.is_empty());
}

#[test]
fn eligibility_of_unknown_product_or_terms() {
    let cache = loaded_cache();
    assert_eq!(
        check_product_eligibility(&cache, "NOPE", "active", "").unwrap_err(),
        RequestError::NotFound("Product not found")
    );
    assert_eq!(
        check_product_eligibility(&cache, "DEP_USD", "active", "").unwrap_err(),
        RequestError::NotFound("Terms not found")
    );
    assert_eq!(
        check_product_eligibility(&cache, "DEP_SAVE", "active", "abc").unwrap_err(),
        RequestError::InvalidArgument("invalid requested_amount")
    );
}

#[test]
fn rate_quote_gives_base_and_personal_rate() {
    let cache = loaded_cache();
    let (base, personal, reasons) = rate_quote(&cache, "DEP_SAVE", "600000", "").unwrap();
    assert_eq!(base.to_text(), "10.5");
    assert_eq!(personal.to_text(), "10.25");
    assert_eq!(reasons, "Средняя сумма: -0.25%");
    let (_, personal, _) = rate_quote(&cache, "LOAN_CASH", "", "vip").unwrap();
    assert_eq!(personal.to_text(), "13.5");
}

#[test]
fn rate_quote_errors() {
    let mut cache = loaded_cache();
    assert_eq!(rate_quote(&cache, "DEP_USD", "", "").unwrap_err(), RequestError::NotFound("Terms not found"));
    assert_eq!(
        rate_quote(&cache, "DEP_SAVE", "?", "").unwrap_err(),
        RequestError::InvalidArgument("invalid requested_amount")
    );
    cache.replace(vec![], vec![terms("BAD", "0", "1", "ten")], vec![]);
    assert_eq!(rate_quote(&cache, "BAD", "", "").unwrap_err(), RequestError::Internal("invalid base_rate in cache"));
}

#[test]
fn product_account_number_uses_the_product_type() {
    let cache = loaded_cache();
    let (number, balance) = product_account_number(&cache, "DEP_USD", "USD", 5).unwrap();
    assert_eq!(number, "42307840000000000005");
    assert_eq!(balance, "42307");
    assert_eq!(
        product_account_number(&cache, "NOPE", "RUB", 1).unwrap_err(),
        RequestError::NotFound("Product not found")
    );
}

#[test]
fn list_products_leaves_out_inactive_products() {
    let mut closed = product("p7", "ARCHIVED", "deposit", "RUB");
    closed.status = "archived".to_string();
    let mut cache = ProductCache::new();
    cache.replace(vec![closed, product("p8", "ACTIVE", "deposit", "RUB")], vec![], vec![]);
    let codes: Vec<String> = cache.list_products("", "").into_iter().map(|p| p.product_code).collect();
    assert_eq!(codes, vec!["ACTIVE"]);
    assert_eq!(cache.products_count(), 2);
    assert!(cache.get_product_by_code("ARCHIVED").is_some());
}
