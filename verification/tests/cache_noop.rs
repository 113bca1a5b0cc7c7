use market_data::{
    DataCache, Date, F64Bits, FinancialStatement, KeyMetrics, NoopCache, OhlcvRow, OhlcvSeries,
    PeriodType, Symbol,
};

fn d(y: i32, m: u32, day: u32) -> Date {
    Date::from_ymd_opt(y, m, day).unwrap()
}

#[test]
fn test_noop_cache_get_returns_none() {
    let cache = NoopCache::new();
    let symbol = Symbol::new("AAPL");
    let start = d(2024, 1, 1);
    let end = d(2024, 1, 31);

    // All get operations should return None
    assert!(cache.get_ohlcv("test", &symbol, start, end).unwrap().is_none());
    assert!(cache
        .get_financials("test", &symbol, PeriodType::Quarterly)
        .unwrap()
        .is_none());
    assert!(cache.get_metrics("test", &symbol, start).unwrap().is_none());
}

#[test]
fn test_noop_cache_put_succeeds() {
    let mut cache = NoopCache::new();
    let symbol = Symbol::new("AAPL");

    let df = OhlcvSeries::from_rows(vec![OhlcvRow {
        date: d(2024, 1, 2),
        open: F64Bits(150.0f64.to_bits()),
        high: F64Bits(152.0f64.to_bits()),
        low: F64Bits(149.0f64.to_bits()),
        close: F64Bits(151.0f64.to_bits()),
        volume: F64Bits(1_000_000.0f64.to_bits()),
        adjusted_close: None,
    }]);

    // All put operations should succeed
    assert!(cache.put_ohlcv("test", &symbol, &df, 0).is_ok());

    let stmt = FinancialStatement::new(symbol.clone(), d(2024, 3, 31), PeriodType::Quarterly);
    assert!(cache.put_financials("test", &symbol, &[stmt], 0).is_ok());

    let metrics = KeyMetrics::new(symbol.clone(), d(2024, 1, 15));
    assert!(cache.put_metrics("test", &symbol, &metrics, 0).is_ok());
}

#[test]
fn test_noop_cache_management() {
    let mut cache = NoopCache::new();

    // invalidate_stale should return 0 (nothing to invalidate)
    let removed = cache.invalidate_stale(3_600_000, 10_000_000).unwrap();
    assert_eq!(removed, 0);

    // clear should succeed
    assert!(cache.clear().is_ok());
}

#[test]
fn test_noop_cache_is_copy() {
    let cache1 = NoopCache::new();
    let cache2 = cache1; // Copy
    let _cache3 = cache2; // Still works because Copy
}

#[test]
fn test_noop_cache_stores_nothing() {
    // Disabled backend: a put followed by the matching get still misses.
    let mut cache = NoopCache::new();
    let symbol = Symbol::new("AAPL");
    let date = d(2024, 1, 15);
    let metrics = KeyMetrics::new(symbol.clone(), date);
    cache.put_metrics("test", &symbol, &metrics, 0).unwrap();
    assert!(cache.get_metrics("test", &symbol, date).unwrap().is_none());
}
