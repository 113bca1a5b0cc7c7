use market_data::{
    DataCache, Date, F64Bits, FinancialStatement, InMemoryCache, KeyMetrics, OhlcvRow,
    OhlcvSeries, PeriodType, Symbol,
};

fn bar(date: Date, px: f64) -> OhlcvRow {
    OhlcvRow {
        date,
        open: F64Bits(px.to_bits()),
        high: F64Bits((px + 1.0).to_bits()),
        low: F64Bits((px - 1.0).to_bits()),
        close: F64Bits(px.to_bits()),
        volume: F64Bits(1_000_000.0f64.to_bits()),
        adjusted_close: None,
    }
}

fn d(y: i32, m: u32, day: u32) -> Date {
    Date::from_ymd_opt(y, m, day).unwrap()
}

#[test]
fn test_memory_cache_ohlcv() {
    let mut cache = InMemoryCache::new();
    let symbol = Symbol::new("AAPL");
    let start = d(2024, 1, 1);
    let end = d(2024, 1, 5);

    // Initially no data
    let result = cache.get_ohlcv("test", &symbol, start, end).unwrap();
    assert!(result.is_none());

    let df = OhlcvSeries::from_rows(vec![bar(d(2024, 1, 2), 150.0), bar(d(2024, 1, 3), 151.0)]);

    // Store data
    cache.put_ohlcv("test", &symbol, &df, 1_000).unwrap();

    // Retrieve data - the stored key is derived from the actual date extent
    // of the series, so we need exactly that key
    let result = cache.get_ohlcv("test", &symbol, d(2024, 1, 2), d(2024, 1, 3)).unwrap();
    assert!(result.is_some());
    assert_eq!(result.unwrap().len(), 2);
}

#[test]
fn test_memory_cache_subrange_misses() {
    // The volatile backend keys OHLCV entries by the actual date extent of
    // the stored series, not by the requested range: a query for a strict
    // sub-range of already-cached data misses even though the data is
    // present. This test documents that behavior deliberately.
    let mut cache = InMemoryCache::new();
    let symbol = Symbol::new("AAPL");
    let df = OhlcvSeries::from_rows(vec![
        bar(d(2024, 1, 1), 150.0),
        bar(d(2024, 6, 1), 160.0),
        bar(d(2024, 12, 31), 170.0),
    ]);
    cache.put_ohlcv("test", &symbol, &df, 1_000).unwrap();

    // The full extent hits.
    assert!(cache.get_ohlcv("test", &symbol, d(2024, 1, 1), d(2024, 12, 31)).unwrap().is_some());
    // A strict sub-range misses.
    assert!(cache.get_ohlcv("test", &symbol, d(2024, 2, 1), d(2024, 2, 28)).unwrap().is_none());
}

#[test]
fn test_memory_cache_empty_series_key() {
    // An empty series is stored under the extreme well-formed dates.
    let mut cache = InMemoryCache::new();
    let symbol = Symbol::new("AAPL");
    let df = OhlcvSeries::new();
    cache.put_ohlcv("test", &symbol, &df, 0).unwrap();
    let result = cache
        .get_ohlcv("test", &symbol, Date::min_value(), Date::max_value())
        .unwrap();
    assert!(result.is_some());
    assert_eq!(result.unwrap().len(), 0);
}

#[test]
fn test_memory_cache_metrics() {
    let mut cache = InMemoryCache::new();
    let symbol = Symbol::new("AAPL");
    let date = d(2024, 1, 15);

    // Initially no data
    let result = cache.get_metrics("test", &symbol, date).unwrap();
    assert!(result.is_none());

    let mut metrics = KeyMetrics::new(symbol.clone(), date);
    metrics.market_cap = Some(F64Bits(3_000_000_000_000.0f64.to_bits()));
    metrics.pe_ratio = Some(F64Bits(28.5f64.to_bits()));

    // Store data
    cache.put_metrics("test", &symbol, &metrics, 1_000).unwrap();

    // Retrieve data
    let result = cache.get_metrics("test", &symbol, date).unwrap();
    assert!(result.is_some());
    let retrieved = result.unwrap();
    assert_eq!(retrieved.market_cap, Some(F64Bits(3_000_000_000_000.0f64.to_bits())));
}

#[test]
fn test_memory_cache_clear() {
    let mut cache = InMemoryCache::new();
    let symbol = Symbol::new("AAPL");
    let date = d(2024, 1, 15);

    // Store some data
    let metrics = KeyMetrics::new(symbol.clone(), date);
    cache.put_metrics("test", &symbol, &metrics, 1_000).unwrap();

    // Clear cache
    cache.clear().unwrap();

    // Verify data is gone
    let result = cache.get_metrics("test", &symbol, date).unwrap();
    assert!(result.is_none());
}

#[test]
fn test_clear_twice_equals_clear_once() {
    let mut cache = InMemoryCache::new();
    let symbol = Symbol::new("AAPL");
    let date = d(2024, 1, 15);
    let metrics = KeyMetrics::new(symbol.clone(), date);
    cache.put_metrics("test", &symbol, &metrics, 1_000).unwrap();
    let stmt = FinancialStatement::new(symbol.clone(), d(2024, 3, 31), PeriodType::Annual);
    cache.put_financials("test", &symbol, &[stmt], 1_000).unwrap();

    cache.clear().unwrap();
    cache.clear().unwrap();

    assert!(cache.get_metrics("test", &symbol, date).unwrap().is_none());
    assert!(cache
        .get_financials("test", &symbol, PeriodType::Annual)
        .unwrap()
        .is_none());
    // A sweep of a cleared cache removes nothing.
    assert_eq!(cache.invalidate_stale(0, u64::MAX).unwrap(), 0);
}

#[test]
fn test_metrics_round_trip_exact_value() {
    // Scenario: market_cap = 3_000_000_000_000.0 survives the round trip
    // exactly.
    let mut cache = InMemoryCache::new();
    let symbol = Symbol::new("AAPL");
    let date = d(2024, 1, 15);
    let mut metrics = KeyMetrics::new(symbol.clone(), date);
    metrics.market_cap = Some(F64Bits(3_000_000_000_000.0f64.to_bits()));
    cache.put_metrics("test", &symbol, &metrics, 0).unwrap();
    let got = cache.get_metrics("test", &symbol, date).unwrap().unwrap();
    let bits = got.market_cap.unwrap().0;
    assert_eq!(f64::from_bits(bits), 3_000_000_000_000.0);
}

#[test]
fn test_ttl_boundary() {
    // An entry aged exactly `ttl` is retained; an entry aged `ttl + 1` is
    // removed.
    let mut cache = InMemoryCache::new();
    let symbol = Symbol::new("AAPL");
    let exact = KeyMetrics::new(symbol.clone(), d(2024, 1, 1));
    let older = KeyMetrics::new(symbol.clone(), d(2024, 1, 2));
    let ttl: u64 = 3_600_000;
    let now: u64 = 10_000_000;
    cache.put_metrics("test", &symbol, &exact, now - ttl).unwrap();
    cache.put_metrics("test", &symbol, &older, now - ttl - 1).unwrap();

    let removed = cache.invalidate_stale(ttl, now).unwrap();
    assert_eq!(removed, 1);
    assert!(cache.get_metrics("test", &symbol, d(2024, 1, 1)).unwrap().is_some());
    assert!(cache.get_metrics("test", &symbol, d(2024, 1, 2)).unwrap().is_none());
}

#[test]
fn test_financials_isolation() {
    // Annual and quarterly statements for the same (source, symbol) never
    // overwrite each other.
    let mut cache = InMemoryCache::new();
    let symbol = Symbol::new("AAPL");
    let mut annual = FinancialStatement::new(symbol.clone(), d(2023, 12, 31), PeriodType::Annual);
    annual.fiscal_year = Some(2023);
    let mut quarterly =
        FinancialStatement::new(symbol.clone(), d(2024, 3, 31), PeriodType::Quarterly);
    quarterly.fiscal_year = Some(2024);

    cache.put_financials("test", &symbol, &[annual], 0).unwrap();
    cache.put_financials("test", &symbol, &[quarterly], 1).unwrap();

    let got_a = cache
        .get_financials("test", &symbol, PeriodType::Annual)
        .unwrap()
        .unwrap();
    let got_q = cache
        .get_financials("test", &symbol, PeriodType::Quarterly)
        .unwrap()
        .unwrap();
    assert_eq!(got_a.len(), 1);
    assert_eq!(got_a[0].fiscal_year, Some(2023));
    assert_eq!(got_q.len(), 1);
    assert_eq!(got_q[0].fiscal_year, Some(2024));
}

#[test]
fn test_financials_split_by_period() {
    // One put with mixed kinds stores one entry per kind.
    let mut cache = InMemoryCache::new();
    let symbol = Symbol::new("MSFT");
    let a1 = FinancialStatement::new(symbol.clone(), d(2022, 12, 31), PeriodType::Annual);
    let q1 = FinancialStatement::new(symbol.clone(), d(2024, 3, 31), PeriodType::Quarterly);
    let a2 = FinancialStatement::new(symbol.clone(), d(2023, 12, 31), PeriodType::Annual);
    cache.put_financials("test", &symbol, &[a1, q1, a2], 0).unwrap();

    let got_a = cache
        .get_financials("test", &symbol, PeriodType::Annual)
        .unwrap()
        .unwrap();
    let got_q = cache
        .get_financials("test", &symbol, PeriodType::Quarterly)
        .unwrap()
        .unwrap();
    assert_eq!(got_a.len(), 2);
    assert_eq!(got_q.len(), 1);
}

#[test]
fn test_provider_namespaces_do_not_collide() {
    // The same symbol under two source identities has two entries.
    let mut cache = InMemoryCache::new();
    let symbol = Symbol::new("AAPL");
    let m1 = KeyMetrics::new(symbol.clone(), d(2024, 1, 15));
    cache.put_metrics("alpha", &symbol, &m1, 0).unwrap();
    assert!(cache.get_metrics("alpha", &symbol, d(2024, 1, 15)).unwrap().is_some());
    assert!(cache.get_metrics("beta", &symbol, d(2024, 1, 15)).unwrap().is_none());
}
