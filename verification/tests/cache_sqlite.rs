use market_data::{
    DataCache, Date, F64Bits, FinancialStatement, KeyMetrics, OhlcvRow, OhlcvSeries, PeriodType,
    SqliteCache, Symbol,
};

fn d(y: i32, m: u32, day: u32) -> Date {
    Date::from_ymd_opt(y, m, day).unwrap()
}

fn bar(date: Date, px: f64) -> OhlcvRow {
    OhlcvRow {
        date,
        open: F64Bits(px.to_bits()),
        high: F64Bits((px + 1.0).to_bits()),
        low: F64Bits((px - 1.0).to_bits()),
        close: F64Bits(px.to_bits()),
        volume: F64Bits(1_000_000.0f64.to_bits()),
        adjusted_close: Some(F64Bits(px.to_bits())),
    }
}

#[test]
fn test_sqlite_cache_initialization() {
    let cache = SqliteCache::in_memory();
    assert!(cache.is_ok());
}

#[test]
fn test_ohlcv_cache() {
    let mut cache = SqliteCache::in_memory().unwrap();
    let symbol = Symbol::new("AAPL");
    let start = d(2024, 1, 1);
    let end = d(2024, 1, 5);

    // Initially no data
    let result = cache.get_ohlcv("test", &symbol, start, end).unwrap();
    assert!(result.is_none());

    let df = OhlcvSeries::from_rows(vec![bar(d(2024, 1, 2), 150.0), bar(d(2024, 1, 3), 151.0)]);

    // Store data
    cache.put_ohlcv("test", &symbol, &df, 0).unwrap();

    // Retrieve data
    let result = cache.get_ohlcv("test", &symbol, start, end).unwrap();
    assert!(result.is_some());
    let retrieved = result.unwrap();
    assert_eq!(retrieved.len(), 2);
}

#[test]
fn test_ohlcv_range_scan_is_ordered_and_bounded() {
    // The persistent backend reconstructs a series from a range scan
    // ordered by date ascending; rows outside the range stay out.
    let mut cache = SqliteCache::in_memory().unwrap();
    let symbol = Symbol::new("AAPL");
    let df = OhlcvSeries::from_rows(vec![
        bar(d(2024, 1, 10), 152.0),
        bar(d(2024, 1, 2), 150.0),
        bar(d(2024, 2, 1), 160.0),
    ]);
    cache.put_ohlcv("test", &symbol, &df, 0).unwrap();

    let got = cache
        .get_ohlcv("test", &symbol, d(2024, 1, 1), d(2024, 1, 31))
        .unwrap()
        .unwrap();
    assert_eq!(got.len(), 2);
    assert_eq!(got.rows[0].date, d(2024, 1, 2));
    assert_eq!(got.rows[1].date, d(2024, 1, 10));
    assert_eq!(f64::from_bits(got.rows[1].open.0), 152.0);
}

#[test]
fn test_financials_cache() {
    let mut cache = SqliteCache::in_memory().unwrap();
    let symbol = Symbol::new("AAPL");

    // Initially no data
    let result = cache
        .get_financials("test", &symbol, PeriodType::Quarterly)
        .unwrap();
    assert!(result.is_none());

    let mut stmt = FinancialStatement::new(symbol.clone(), d(2024, 3, 31), PeriodType::Quarterly);
    stmt.fiscal_year = Some(2024);
    stmt.fiscal_quarter = Some(1);
    stmt.revenue = Some(F64Bits(94_930_000_000.0f64.to_bits()));
    stmt.net_income = Some(F64Bits(14_736_000_000.0f64.to_bits()));

    // Store data
    cache.put_financials("test", &symbol, &[stmt], 0).unwrap();

    // Retrieve data
    let result = cache
        .get_financials("test", &symbol, PeriodType::Quarterly)
        .unwrap();
    assert!(result.is_some());
    let retrieved = result.unwrap();
    assert_eq!(retrieved.len(), 1);
    assert_eq!(retrieved[0].fiscal_year, Some(2024));
}

#[test]
fn test_financials_most_recent_first() {
    let mut cache = SqliteCache::in_memory().unwrap();
    let symbol = Symbol::new("AAPL");
    let mut s1 = FinancialStatement::new(symbol.clone(), d(2022, 12, 31), PeriodType::Annual);
    s1.fiscal_year = Some(2022);
    let mut s2 = FinancialStatement::new(symbol.clone(), d(2023, 12, 31), PeriodType::Annual);
    s2.fiscal_year = Some(2023);
    cache.put_financials("test", &symbol, &[s1, s2], 0).unwrap();

    let got = cache
        .get_financials("test", &symbol, PeriodType::Annual)
        .unwrap()
        .unwrap();
    assert_eq!(got.len(), 2);
    // Ordered most-recent-period-first.
    assert_eq!(got[0].fiscal_year, Some(2023));
    assert_eq!(got[1].fiscal_year, Some(2022));
}

#[test]
fn test_metrics_cache() {
    let mut cache = SqliteCache::in_memory().unwrap();
    let symbol = Symbol::new("AAPL");
    let date = d(2024, 1, 15);

    // Initially no data
    let result = cache.get_metrics("test", &symbol, date).unwrap();
    assert!(result.is_none());

    let mut metrics = KeyMetrics::new(symbol.clone(), date);
    metrics.market_cap = Some(F64Bits(3_000_000_000_000.0f64.to_bits()));
    metrics.pe_ratio = Some(F64Bits(28.5f64.to_bits()));

    // Store data
    cache.put_metrics("test", &symbol, &metrics, 0).unwrap();

    // Retrieve data
    let result = cache.get_metrics("test", &symbol, date).unwrap();
    assert!(result.is_some());
    let retrieved = result.unwrap();
    assert_eq!(retrieved.market_cap, Some(F64Bits(3_000_000_000_000.0f64.to_bits())));
    assert_eq!(f64::from_bits(retrieved.market_cap.unwrap().0), 3_000_000_000_000.0);
    assert_eq!(f64::from_bits(retrieved.pe_ratio.unwrap().0), 28.5);
}

#[test]
fn test_clear_cache() {
    let mut cache = SqliteCache::in_memory().unwrap();
    let symbol = Symbol::new("AAPL");
    let date = d(2024, 1, 15);

    // Store some data
    let metrics = KeyMetrics::new(symbol.clone(), date);
    cache.put_metrics("test", &symbol, &metrics, 0).unwrap();

    // Clear cache
    cache.clear().unwrap();

    // Verify data is gone
    let result = cache.get_metrics("test", &symbol, date).unwrap();
    assert!(result.is_none());
}

#[test]
fn test_sqlite_ttl_boundary() {
    // An entry captured exactly `ttl` ago survives the sweep; one a
    // millisecond older is removed.
    let mut cache = SqliteCache::in_memory().unwrap();
    let symbol = Symbol::new("AAPL");
    let ttl: u64 = 3_600_000;
    let now: u64 = 10_000_000;
    let exact = KeyMetrics::new(symbol.clone(), d(2024, 1, 1));
    let older = KeyMetrics::new(symbol.clone(), d(2024, 1, 2));
    cache.put_metrics("test", &symbol, &exact, now - ttl).unwrap();
    cache.put_metrics("test", &symbol, &older, now - ttl - 1).unwrap();

    let removed = cache.invalidate_stale(ttl, now).unwrap();
    assert_eq!(removed, 1);
    assert!(cache.get_metrics("test", &symbol, d(2024, 1, 1)).unwrap().is_some());
    assert!(cache.get_metrics("test", &symbol, d(2024, 1, 2)).unwrap().is_none());
}

#[test]
fn test_sqlite_statement_survives_round_trip_whole() {
    // The full statement record, symbol text included, survives storage.
    let mut cache = SqliteCache::in_memory().unwrap();
    let symbol = Symbol::new("brk.a");
    let mut stmt = FinancialStatement::new(symbol.clone(), d(2023, 12, 31), PeriodType::Annual);
    stmt.fiscal_year = Some(2023);
    stmt.total_assets = Some(F64Bits(1_069_978_000_000.0f64.to_bits()));
    stmt.eps_diluted = Some(F64Bits((-3.1f64).to_bits()));
    cache.put_financials("test", &symbol, &[stmt.clone()], 0).unwrap();

    let got = cache
        .get_financials("test", &symbol, PeriodType::Annual)
        .unwrap()
        .unwrap();
    assert_eq!(got.len(), 1);
    assert_eq!(got[0], stmt);
    assert_eq!(got[0].symbol.as_str(), "BRK.A");
}
