use bank_core::reference::cache::{Currency, OperationType, ReferenceCache};

fn currency(code: &str, numeric: u32, base: bool) -> Currency {
    Currency {
        currency_code: code.to_string(),
        numeric_code: numeric,
        name: format!("{} name", code),
        decimal_places: 2,
        is_base: base,
    }
}

fn operation(code: &str, direction: &str) -> OperationType {
    OperationType { operation_code: code.to_string(), name: code.to_lowercase(), direction: direction.to_string() }
}

fn loaded() -> ReferenceCache {
    let mut cache = ReferenceCache::new();
    cache.replace(
        vec![currency("USD", 840, false), currency("RUB", 643, true), currency("EUR", 978, false)],
        vec![operation("FEE", "debit"), operation("CASH_IN", "credit")],
    );
    cache
}

#[test]
fn new_reference_cache_is_empty() {
    let cache = ReferenceCache::new();
    assert_eq!(cache.currencies_count(), 0);
    assert_eq!(cache.operation_types_count(), 0);
    assert!(cache.get_currency("RUB").is_none());
    assert!(cache.list_currencies().is_empty());
    assert!(cache.list_operation_types().is_empty());
}

#[test]
fn reference_lookups_after_replace() {
    let cache = loaded();
    assert_eq!(cache.currencies_count(), 3);
    assert_eq!(cache.operation_types_count(), 2);
    let rub = cache.get_currency("RUB").unwrap();
    assert_eq!(rub.numeric_code, 643);
    assert!(rub.is_base);
    assert_eq!(cache.get_operation_type("CASH_IN").unwrap().direction, "credit");
    assert!(cache.get_currency("JPY").is_none());
    assert!(cache.get_operation_type("HOLD").is_none());
}

#[test]
fn reference_lists_come_in_code_order() {
    let cache = loaded();
    let codes: Vec<String> = cache.list_currencies().into_iter().map(|c| c.currency_code).collect();
    assert_eq!(codes, vec!["EUR", "RUB", "USD"]);
    let ops: Vec<String> = cache.list_operation_types().into_iter().map(|o| o.operation_code).collect();
    assert_eq!(ops, vec!["CASH_IN", "FEE"]);
}

#[test]
fn reference_reload_replaces_everything_and_last_wins() {
    let mut cache = loaded();
    cache.replace(vec![currency("KZT", 398, false), currency("KZT", 399, false)], vec![]);
    assert_eq!(cache.currencies_count(), 1);
    assert_eq!(cache.get_currency("KZT").unwrap().numeric_code, 399);
    assert!(cache.get_currency("RUB").is_none());
    assert_eq!(cache.operation_types_count(), 0);
}
